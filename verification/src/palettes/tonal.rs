//! The colours of one hue and chroma at the tones asked for so far.

use crate::hct::Hct;
use std::collections::HashMap;
use vstd::prelude::*;

verus! {

/// A hue and a chroma, with every colour that has been resolved for them,
/// keyed by tone. A tone is resolved once; later requests for it are answered
/// from the table.
#[derive(Debug)]
pub struct TonalPalette<H> {
    tones: HashMap<u8, u32>,
    hue: H,
    chroma: H,
}

impl<H> View for TonalPalette<H> {
    type V = Map<u8, u32>;

    /// The colours resolved so far, by tone.
    closed spec fn view(&self) -> Map<u8, u32> {
        self.tones@
    }
}

impl<H: Copy> Clone for TonalPalette<H> {
    /// A palette of the same hue and chroma that holds the same colours.
    fn clone(&self) -> (copy: Self)
        ensures
            copy.matches(*self),
    {
        Self { tones: self.tones.clone(), hue: self.hue, chroma: self.chroma }
    }
}

impl<H: Copy> TonalPalette<H> {
    /// Whether the two palettes have the same hue and chroma and hold the
    /// same colours.
    pub open spec fn matches(&self, other: Self) -> bool {
        &&& self.hue() == other.hue()
        &&& self.chroma() == other.chroma()
        &&& self@ == other@
    }

    /// The hue of every colour of the palette.
    pub closed spec fn hue(&self) -> H {
        self.hue
    }

    /// The chroma that is requested for every colour of the palette.
    pub closed spec fn chroma(&self) -> H {
        self.chroma
    }

    /// Whether `resolve` accepts this palette's hue and chroma with any tone.
    pub open spec fn accepts<R: Fn(H, H, u8) -> u32>(&self, resolve: &R) -> bool {
        forall|tone: u8| #[trigger] resolve.requires((self.hue(), self.chroma(), tone))
    }

    /// Whether every colour in the table is one that `resolve` can return for
    /// the palette's hue and chroma and the colour's tone.
    pub open spec fn resolved_by<R: Fn(H, H, u8) -> u32>(&self, resolve: &R) -> bool {
        forall|tone: u8| #[trigger]
            self@.contains_key(tone) ==> resolve.ensures(
                (self.hue(), self.chroma(), tone),
                self@[tone],
            )
    }

    /// Whether this palette is `earlier` after the tones in `tones` have been
    /// asked for: hue and chroma are the same, what was resolved before is
    /// kept as it was, the table holds exactly the earlier tones and `tones`,
    /// and each new colour is one that `resolve` can return for its tone.
    pub open spec fn extends<R: Fn(H, H, u8) -> u32>(
        &self,
        earlier: Self,
        tones: Set<u8>,
        resolve: &R,
    ) -> bool {
        &&& self.hue() == earlier.hue()
        &&& self.chroma() == earlier.chroma()
        &&& forall|tone: u8| #[trigger]
            self@.contains_key(tone) <==> earlier@.contains_key(tone) || tones.contains(tone)
        &&& forall|tone: u8| #[trigger]
            earlier@.contains_key(tone) ==> self@[tone] == earlier@[tone]
        &&& forall|tone: u8|
            #![trigger self@.contains_key(tone)]
            self@.contains_key(tone) && !earlier@.contains_key(tone) ==> resolve.ensures(
                (self.hue(), self.chroma(), tone),
                self@[tone],
            )
    }

    /// Whether this palette has the hue and chroma that `analyse` can report
    /// for `argb`, and nothing resolved yet.
    pub open spec fn seeded_by<A: Fn(u32) -> (H, H, H)>(&self, argb: u32, analyse: &A) -> bool {
        &&& exists|tone: H| analyse.ensures((argb,), (self.hue(), self.chroma(), tone))
        &&& self@ == Map::<u8, u32>::empty()
    }

    fn new(hue: H, chroma: H) -> (palette: Self)
        ensures
            palette.hue() == hue,
            palette.chroma() == chroma,
            palette@ == Map::<u8, u32>::empty(),
    {
        Self { hue, chroma, tones: HashMap::new() }
    }

    /// The palette of the hue and chroma that `analyse` reports for `argb`,
    /// with nothing resolved yet.
    pub fn from_argb<A: Fn(u32) -> (H, H, H)>(argb: u32, analyse: &A) -> (palette: Self)
        requires
            analyse.requires((argb,)),
        ensures
            palette.seeded_by(argb, analyse),
    {
        let hct = Hct::from_argb(argb, analyse);
        assert(analyse.ensures((argb,), (hct.hue(), hct.chroma(), hct.tone())));
        Self::new(hct.hue(), hct.chroma())
    }

    /// The palette of the given hue and chroma, with nothing resolved yet.
    pub fn from_hue_and_chroma(hue: H, chroma: H) -> (palette: Self)
        ensures
            palette.hue() == hue,
            palette.chroma() == chroma,
            palette@ == Map::<u8, u32>::empty(),
    {
        Self::new(hue, chroma)
    }

    /// The colour of the palette at `tone`: the one in the table if the tone
    /// was asked for before, else the one that `resolve` returns, which is
    /// then entered in the table.
    pub fn tone<R: Fn(H, H, u8) -> u32>(&mut self, tone: u8, resolve: &R) -> (argb: u32)
        requires
            resolve.requires((old(self).hue(), old(self).chroma(), tone)),
        ensures
            final(self).hue() == old(self).hue(),
            final(self).chroma() == old(self).chroma(),
            old(self)@.contains_key(tone) ==> argb == old(self)@[tone] && final(self)@ == old(
                self,
            )@,
            !old(self)@.contains_key(tone) ==> resolve.ensures(
                (old(self).hue(), old(self).chroma(), tone),
                argb,
            ) && final(self)@ == old(self)@.insert(tone, argb),
            final(self)@.contains_key(tone),
            final(self)@[tone] == argb,
            final(self).extends(*old(self), set![tone], resolve),
            old(self).resolved_by(resolve) ==> final(self).resolved_by(resolve),
    {
        broadcast use vstd::std_specs::hash::group_hash_axioms;

        if let Some(t) = self.tones.get(&tone) {
            *t
        } else {
            let argb = resolve(self.hue, self.chroma, tone);
            self.tones.insert(tone, argb);
            argb
        }
    }
}

/// Asking for tones one after the other adds up: a palette that extends one
/// that extends a third extends the third by both sets of tones.
pub proof fn lemma_extends_transitive<H: Copy, R: Fn(H, H, u8) -> u32>(
    first: TonalPalette<H>,
    second: TonalPalette<H>,
    third: TonalPalette<H>,
    early: Set<u8>,
    late: Set<u8>,
    resolve: &R,
)
    requires
        second.extends(first, early, resolve),
        third.extends(second, late, resolve),
    ensures
        third.extends(first, early.union(late), resolve),
{
    assert forall|tone: u8| #[trigger]
        third@.contains_key(tone) <==> first@.contains_key(tone) || early.union(late).contains(
            tone,
        ) by {
        assert(second@.contains_key(tone) <==> first@.contains_key(tone) || early.contains(tone));
    }
    assert forall|tone: u8| #[trigger] first@.contains_key(tone) implies third@[tone] == first@[tone] by {
        assert(second@.contains_key(tone));
    }
    assert forall|tone: u8|
        #![trigger third@.contains_key(tone)]
        third@.contains_key(tone) && !first@.contains_key(tone) implies resolve.ensures(
        (third.hue(), third.chroma(), tone),
        third@[tone],
    ) by {
        if second@.contains_key(tone) {
            assert(third@[tone] == second@[tone]);
        }
    }
}

/// A palette that extends one whose every colour came from `resolve` holds
/// only colours that came from `resolve`.
pub proof fn lemma_extends_resolved<H: Copy, R: Fn(H, H, u8) -> u32>(
    earlier: TonalPalette<H>,
    later: TonalPalette<H>,
    tones: Set<u8>,
    resolve: &R,
)
    requires
        earlier.resolved_by(resolve),
        later.extends(earlier, tones, resolve),
    ensures
        later.resolved_by(resolve),
{
    assert forall|tone: u8| #[trigger] later@.contains_key(tone) implies resolve.ensures(
        (later.hue(), later.chroma(), tone),
        later@[tone],
    ) by {
        if earlier@.contains_key(tone) {
            assert(later@[tone] == earlier@[tone]);
        }
    }
}

} // verus!
