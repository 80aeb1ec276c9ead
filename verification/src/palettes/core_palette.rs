//! The six tonal palettes of a theme.

use crate::palettes::tonal::TonalPalette;
use vstd::prelude::*;

verus! {

/// Three accent palettes, two neutral palettes and the error palette.
#[derive(Debug)]
pub struct CorePalette<H> {
    a1: TonalPalette<H>,
    a2: TonalPalette<H>,
    a3: TonalPalette<H>,
    n1: TonalPalette<H>,
    n2: TonalPalette<H>,
    error: TonalPalette<H>,
}

/// For each of the six palettes, a set of tones.
pub struct ToneSets {
    pub a1: Set<u8>,
    pub a2: Set<u8>,
    pub a3: Set<u8>,
    pub n1: Set<u8>,
    pub n2: Set<u8>,
    pub error: Set<u8>,
}

impl<H: Copy> Clone for CorePalette<H> {
    /// A group whose six palettes match those of this one.
    fn clone(&self) -> (copy: Self)
        ensures
            copy.spec_a1().matches(self.spec_a1()),
            copy.spec_a2().matches(self.spec_a2()),
            copy.spec_a3().matches(self.spec_a3()),
            copy.spec_n1().matches(self.spec_n1()),
            copy.spec_n2().matches(self.spec_n2()),
            copy.spec_error().matches(self.spec_error()),
    {
        Self {
            a1: self.a1.clone(),
            a2: self.a2.clone(),
            a3: self.a3.clone(),
            n1: self.n1.clone(),
            n2: self.n2.clone(),
            error: self.error.clone(),
        }
    }
}

impl<H: Copy> CorePalette<H> {
    /// The first accent palette.
    pub closed spec fn spec_a1(&self) -> TonalPalette<H> {
        self.a1
    }

    /// The second accent palette.
    pub closed spec fn spec_a2(&self) -> TonalPalette<H> {
        self.a2
    }

    /// The third accent palette.
    pub closed spec fn spec_a3(&self) -> TonalPalette<H> {
        self.a3
    }

    /// The first neutral palette.
    pub closed spec fn spec_n1(&self) -> TonalPalette<H> {
        self.n1
    }

    /// The second neutral palette.
    pub closed spec fn spec_n2(&self) -> TonalPalette<H> {
        self.n2
    }

    /// The error palette.
    pub closed spec fn spec_error(&self) -> TonalPalette<H> {
        self.error
    }

    /// Whether `resolve` accepts the hue and chroma of each of the six
    /// palettes with any tone.
    pub open spec fn accepts<R: Fn(H, H, u8) -> u32>(&self, resolve: &R) -> bool {
        &&& self.spec_a1().accepts(resolve)
        &&& self.spec_a2().accepts(resolve)
        &&& self.spec_a3().accepts(resolve)
        &&& self.spec_n1().accepts(resolve)
        &&& self.spec_n2().accepts(resolve)
        &&& self.spec_error().accepts(resolve)
    }

    /// Whether every colour in the six tables is one that `resolve` can
    /// return for its palette and tone.
    pub open spec fn resolved_by<R: Fn(H, H, u8) -> u32>(&self, resolve: &R) -> bool {
        &&& self.spec_a1().resolved_by(resolve)
        &&& self.spec_a2().resolved_by(resolve)
        &&& self.spec_a3().resolved_by(resolve)
        &&& self.spec_n1().resolved_by(resolve)
        &&& self.spec_n2().resolved_by(resolve)
        &&& self.spec_error().resolved_by(resolve)
    }

    /// Whether each of the six palettes extends the one of `earlier` by its
    /// set in `tones`.
    pub open spec fn extends<R: Fn(H, H, u8) -> u32>(
        &self,
        earlier: Self,
        tones: ToneSets,
        resolve: &R,
    ) -> bool {
        &&& self.spec_a1().extends(earlier.spec_a1(), tones.a1, resolve)
        &&& self.spec_a2().extends(earlier.spec_a2(), tones.a2, resolve)
        &&& self.spec_a3().extends(earlier.spec_a3(), tones.a3, resolve)
        &&& self.spec_n1().extends(earlier.spec_n1(), tones.n1, resolve)
        &&& self.spec_n2().extends(earlier.spec_n2(), tones.n2, resolve)
        &&& self.spec_error().extends(earlier.spec_error(), tones.error, resolve)
    }

    /// The group made of the six given palettes.
    pub fn from_palettes(
        a1: TonalPalette<H>,
        a2: TonalPalette<H>,
        a3: TonalPalette<H>,
        n1: TonalPalette<H>,
        n2: TonalPalette<H>,
        error: TonalPalette<H>,
    ) -> (core: Self)
        ensures
            core.spec_a1() == a1,
            core.spec_a2() == a2,
            core.spec_a3() == a3,
            core.spec_n1() == n1,
            core.spec_n2() == n2,
            core.spec_error() == error,
    {
        Self { a1, a2, a3, n1, n2, error }
    }

    /// The first accent palette, to ask it for tones.
    pub fn a1(&mut self) -> (palette: &mut TonalPalette<H>)
        ensures
            *palette == old(self).spec_a1(),
            final(self).spec_a1() == *final(palette),
            final(self).spec_a2() == old(self).spec_a2(),
            final(self).spec_a3() == old(self).spec_a3(),
            final(self).spec_n1() == old(self).spec_n1(),
            final(self).spec_n2() == old(self).spec_n2(),
            final(self).spec_error() == old(self).spec_error(),
    {
        &mut self.a1
    }

    /// The second accent palette, to ask it for tones.
    pub fn a2(&mut self) -> (palette: &mut TonalPalette<H>)
        ensures
            *palette == old(self).spec_a2(),
            final(self).spec_a1() == old(self).spec_a1(),
            final(self).spec_a2() == *final(palette),
            final(self).spec_a3() == old(self).spec_a3(),
            final(self).spec_n1() == old(self).spec_n1(),
            final(self).spec_n2() == old(self).spec_n2(),
            final(self).spec_error() == old(self).spec_error(),
    {
        &mut self.a2
    }

    /// The third accent palette, to ask it for tones.
    pub fn a3(&mut self) -> (palette: &mut TonalPalette<H>)
        ensures
            *palette == old(self).spec_a3(),
            final(self).spec_a1() == old(self).spec_a1(),
            final(self).spec_a2() == old(self).spec_a2(),
            final(self).spec_a3() == *final(palette),
            final(self).spec_n1() == old(self).spec_n1(),
            final(self).spec_n2() == old(self).spec_n2(),
            final(self).spec_error() == old(self).spec_error(),
    {
        &mut self.a3
    }

    /// The first neutral palette, to ask it for tones.
    pub fn n1(&mut self) -> (palette: &mut TonalPalette<H>)
        ensures
            *palette == old(self).spec_n1(),
            final(self).spec_a1() == old(self).spec_a1(),
            final(self).spec_a2() == old(self).spec_a2(),
            final(self).spec_a3() == old(self).spec_a3(),
            final(self).spec_n1() == *final(palette),
            final(self).spec_n2() == old(self).spec_n2(),
            final(self).spec_error() == old(self).spec_error(),
    {
        &mut self.n1
    }

    /// The second neutral palette, to ask it for tones.
    pub fn n2(&mut self) -> (palette: &mut TonalPalette<H>)
        ensures
            *palette == old(self).spec_n2(),
            final(self).spec_a1() == old(self).spec_a1(),
            final(self).spec_a2() == old(self).spec_a2(),
            final(self).spec_a3() == old(self).spec_a3(),
            final(self).spec_n1() == old(self).spec_n1(),
            final(self).spec_n2() == *final(palette),
            final(self).spec_error() == old(self).spec_error(),
    {
        &mut self.n2
    }

    /// The error palette, to ask it for tones.
    pub fn error(&mut self) -> (palette: &mut TonalPalette<H>)
        ensures
            *palette == old(self).spec_error(),
            final(self).spec_a1() == old(self).spec_a1(),
            final(self).spec_a2() == old(self).spec_a2(),
            final(self).spec_a3() == old(self).spec_a3(),
            final(self).spec_n1() == old(self).spec_n1(),
            final(self).spec_n2() == old(self).spec_n2(),
            final(self).spec_error() == *final(palette),
    {
        &mut self.error
    }

    /// The group whose six palettes have the hue and chroma that `analyse`
    /// reports for the six given colours, with nothing resolved yet.
    pub fn custom<A: Fn(u32) -> (H, H, H)>(
        a1: u32,
        a2: u32,
        a3: u32,
        n1: u32,
        n2: u32,
        error: u32,
        analyse: &A,
    ) -> (core: Self)
        requires
            analyse.requires((a1,)),
            analyse.requires((a2,)),
            analyse.requires((a3,)),
            analyse.requires((n1,)),
            analyse.requires((n2,)),
            analyse.requires((error,)),
        ensures
            core.spec_a1().seeded_by(a1, analyse),
            core.spec_a2().seeded_by(a2, analyse),
            core.spec_a3().seeded_by(a3, analyse),
            core.spec_n1().seeded_by(n1, analyse),
            core.spec_n2().seeded_by(n2, analyse),
            core.spec_error().seeded_by(error, analyse),
    {
        Self {
            a1: TonalPalette::from_argb(a1, analyse),
            a2: TonalPalette::from_argb(a2, analyse),
            a3: TonalPalette::from_argb(a3, analyse),
            n1: TonalPalette::from_argb(n1, analyse),
            n2: TonalPalette::from_argb(n2, analyse),
            error: TonalPalette::from_argb(error, analyse),
        }
    }
}

} // verus!
