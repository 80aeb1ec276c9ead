//! A colour together with its hue, chroma and tone.
//!
//! An [`Hct`] never trusts a request: whenever an attribute is set, the
//! colour is found anew by the solver from the new attribute and the two
//! others as they stood, and all three attributes are then read off that
//! colour. The stored attributes therefore always describe the stored colour,
//! even where the solver could not reach the requested chroma.
//!
//! The perceptual model is passed in as two functions over an attribute type
//! `H`: `solve`, from hue, chroma and tone to a packed colour, and `analyse`,
//! from a packed colour to its hue, chroma and tone.

pub mod hct_solver;

use vstd::prelude::*;

verus! {

/// A packed colour and the attributes that the model reports for it.
#[derive(Debug, PartialEq)]
pub struct Hct<H> {
    hue: H,
    chroma: H,
    tone: H,
    argb: u32,
}

impl<H: Copy> Hct<H> {
    /// The stored hue.
    pub closed spec fn spec_hue(&self) -> H {
        self.hue
    }

    /// The stored chroma.
    pub closed spec fn spec_chroma(&self) -> H {
        self.chroma
    }

    /// The stored tone.
    pub closed spec fn spec_tone(&self) -> H {
        self.tone
    }

    /// The stored colour.
    pub closed spec fn spec_argb(&self) -> u32 {
        self.argb
    }

    /// Whether the stored attributes are what `analyse` can report for the
    /// stored colour.
    pub open spec fn describes<A: Fn(u32) -> (H, H, H)>(&self, analyse: &A) -> bool {
        analyse.ensures((self.argb(),), (self.hue(), self.chroma(), self.tone()))
    }

    /// Whether the stored colour is what `solve` can return for the request,
    /// and the stored attributes describe that colour.
    pub open spec fn resolves<S: Fn(H, H, H) -> u32, A: Fn(u32) -> (H, H, H)>(
        &self,
        hue: H,
        chroma: H,
        tone: H,
        solve: &S,
        analyse: &A,
    ) -> bool {
        &&& solve.ensures((hue, chroma, tone), self.argb())
        &&& self.describes(analyse)
    }

    /// Whether `solve` accepts the request and `analyse` accepts every colour
    /// that `solve` can return for it.
    pub open spec fn can_resolve<S: Fn(H, H, H) -> u32, A: Fn(u32) -> (H, H, H)>(
        hue: H,
        chroma: H,
        tone: H,
        solve: &S,
        analyse: &A,
    ) -> bool {
        &&& solve.requires((hue, chroma, tone))
        &&& forall|argb: u32| #[trigger]
            solve.ensures((hue, chroma, tone), argb) ==> analyse.requires((argb,))
    }

    /// The colour that `solve` finds for the requested attributes, with the
    /// attributes that `analyse` reports for that colour.
    pub fn from<S: Fn(H, H, H) -> u32, A: Fn(u32) -> (H, H, H)>(
        hue: H,
        chroma: H,
        tone: H,
        solve: &S,
        analyse: &A,
    ) -> (hct: Self)
        requires
            Self::can_resolve(hue, chroma, tone, solve, analyse),
        ensures
            hct.resolves(hue, chroma, tone, solve, analyse),
    {
        let argb = solve(hue, chroma, tone);
        Self::from_argb(argb, analyse)
    }

    /// The given colour with the attributes that `analyse` reports for it.
    pub fn from_argb<A: Fn(u32) -> (H, H, H)>(argb: u32, analyse: &A) -> (hct: Self)
        requires
            analyse.requires((argb,)),
        ensures
            hct.argb() == argb,
            hct.describes(analyse),
    {
        let (hue, chroma, tone) = analyse(argb);
        Hct { hue, chroma, tone, argb }
    }

    /// The hue of the stored colour.
    #[verifier::when_used_as_spec(spec_hue)]
    pub fn hue(&self) -> (hue: H)
        ensures
            hue == self.hue(),
    {
        self.hue
    }

    /// The chroma of the stored colour.
    #[verifier::when_used_as_spec(spec_chroma)]
    pub fn chroma(&self) -> (chroma: H)
        ensures
            chroma == self.chroma(),
    {
        self.chroma
    }

    /// The tone of the stored colour.
    #[verifier::when_used_as_spec(spec_tone)]
    pub fn tone(&self) -> (tone: H)
        ensures
            tone == self.tone(),
    {
        self.tone
    }

    /// The stored colour.
    #[verifier::when_used_as_spec(spec_argb)]
    pub fn argb(&self) -> (argb: u32)
        ensures
            argb == self.argb(),
    {
        self.argb
    }

    /// The stored colour as a packed integer.
    pub fn to_int(&self) -> (argb: u32)
        ensures
            argb == self.argb(),
    {
        self.argb()
    }

    /// Requests a new hue, keeping the stored chroma and tone as the rest of
    /// the request.
    pub fn mut_hue<S: Fn(H, H, H) -> u32, A: Fn(u32) -> (H, H, H)>(
        &mut self,
        hue: H,
        solve: &S,
        analyse: &A,
    )
        requires
            Self::can_resolve(hue, old(self).chroma(), old(self).tone(), solve, analyse),
        ensures
            final(self).resolves(hue, old(self).chroma(), old(self).tone(), solve, analyse),
    {
        let argb = solve(hue, self.chroma(), self.tone());
        self.mut_internal_state(argb, analyse)
    }

    /// Requests a new chroma, keeping the stored hue and tone as the rest of
    /// the request.
    pub fn mut_chroma<S: Fn(H, H, H) -> u32, A: Fn(u32) -> (H, H, H)>(
        &mut self,
        chroma: H,
        solve: &S,
        analyse: &A,
    )
        requires
            Self::can_resolve(old(self).hue(), chroma, old(self).tone(), solve, analyse),
        ensures
            final(self).resolves(old(self).hue(), chroma, old(self).tone(), solve, analyse),
    {
        let argb = solve(self.hue(), chroma, self.tone());
        self.mut_internal_state(argb, analyse)
    }

    /// Requests a new tone, keeping the stored hue and chroma as the rest of
    /// the request.
    pub fn mut_tone<S: Fn(H, H, H) -> u32, A: Fn(u32) -> (H, H, H)>(
        &mut self,
        tone: H,
        solve: &S,
        analyse: &A,
    )
        requires
            Self::can_resolve(old(self).hue(), old(self).chroma(), tone, solve, analyse),
        ensures
            final(self).resolves(old(self).hue(), old(self).chroma(), tone, solve, analyse),
    {
        let argb = solve(self.hue(), self.chroma(), tone);
        self.mut_internal_state(argb, analyse)
    }

    /// Replaces the stored colour and reads all three attributes off it.
    fn mut_internal_state<A: Fn(u32) -> (H, H, H)>(&mut self, argb: u32, analyse: &A)
        requires
            analyse.requires((argb,)),
        ensures
            final(self).argb() == argb,
            final(self).describes(analyse),
    {
        let (hue, chroma, tone) = analyse(argb);
        self.argb = argb;
        self.hue = hue;
        self.chroma = chroma;
        self.tone = tone;
    }
}

} // verus!
