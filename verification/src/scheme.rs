//! A colour scheme: one colour for each role of a theme, drawn from the six
//! palettes of a [`CorePalette`] at fixed tones.

use crate::palettes::core_palette::{CorePalette, ToneSets};
use vstd::prelude::*;

verus! {

/// The colours of a theme, by role.
pub struct Scheme {
    pub primary: u32,
    pub on_primary: u32,
    pub primary_container: u32,
    pub on_primary_container: u32,
    pub secondary: u32,
    pub on_secondary: u32,
    pub secondary_container: u32,
    pub on_secondary_container: u32,
    pub tertiary: u32,
    pub on_tertiary: u32,
    pub tertiary_container: u32,
    pub on_tertiary_container: u32,
    pub error: u32,
    pub on_error: u32,
    pub error_container: u32,
    pub on_error_container: u32,
    pub background: u32,
    pub on_background: u32,
    pub surface: u32,
    pub on_surface: u32,
    pub surface_variant: u32,
    pub on_surface_variant: u32,
    pub outline: u32,
    pub outline_variant: u32,
    pub shadow: u32,
    pub scrim: u32,
    pub inverse_surface: u32,
    pub inverse_on_surface: u32,
    pub inverse_primary: u32,
}

impl Scheme {
    /// The tones that a light scheme asks of each palette.
    pub open spec fn light_tones() -> ToneSets {
        ToneSets {
            a1: set![40, 100, 90, 10, 80],
            a2: set![40, 100, 90, 10],
            a3: set![40, 100, 90, 10],
            n1: set![99, 10, 0, 20, 95],
            n2: set![90, 30, 50, 80],
            error: set![40, 100, 90, 10],
        }
    }

    /// The tones that a dark scheme asks of each palette.
    pub open spec fn dark_tones() -> ToneSets {
        ToneSets {
            a1: set![80, 20, 30, 90, 40],
            a2: set![80, 20, 30, 90],
            a3: set![80, 20, 30, 90],
            n1: set![10, 90, 0, 20],
            n2: set![30, 80, 60],
            error: set![80, 20, 30],
        }
    }

    /// The light scheme that the tables of `core` hold: for each role, the
    /// palette and the tone that the role is drawn from.
    pub open spec fn light_of<H: Copy>(core: CorePalette<H>) -> Scheme {
        Scheme {
            primary: core.spec_a1()@[40],
            on_primary: core.spec_a1()@[100],
            primary_container: core.spec_a1()@[90],
            on_primary_container: core.spec_a1()@[10],
            secondary: core.spec_a2()@[40],
            on_secondary: core.spec_a2()@[100],
            secondary_container: core.spec_a2()@[90],
            on_secondary_container: core.spec_a2()@[10],
            tertiary: core.spec_a3()@[40],
            on_tertiary: core.spec_a3()@[100],
            tertiary_container: core.spec_a3()@[90],
            on_tertiary_container: core.spec_a3()@[10],
            error: core.spec_error()@[40],
            on_error: core.spec_error()@[100],
            error_container: core.spec_error()@[90],
            on_error_container: core.spec_error()@[10],
            background: core.spec_n1()@[99],
            on_background: core.spec_n1()@[10],
            surface: core.spec_n1()@[99],
            on_surface: core.spec_n1()@[10],
            surface_variant: core.spec_n2()@[90],
            on_surface_variant: core.spec_n2()@[30],
            outline: core.spec_n2()@[50],
            outline_variant: core.spec_n2()@[80],
            shadow: core.spec_n1()@[0],
            scrim: core.spec_n1()@[0],
            inverse_surface: core.spec_n1()@[20],
            inverse_on_surface: core.spec_n1()@[95],
            inverse_primary: core.spec_a1()@[80],
        }
    }

    /// The dark scheme that the tables of `core` hold: for each role, the
    /// palette and the tone that the role is drawn from.
    pub open spec fn dark_of<H: Copy>(core: CorePalette<H>) -> Scheme {
        Scheme {
            primary: core.spec_a1()@[80],
            on_primary: core.spec_a1()@[20],
            primary_container: core.spec_a1()@[30],
            on_primary_container: core.spec_a1()@[90],
            secondary: core.spec_a2()@[80],
            on_secondary: core.spec_a2()@[20],
            secondary_container: core.spec_a2()@[30],
            on_secondary_container: core.spec_a2()@[90],
            tertiary: core.spec_a3()@[80],
            on_tertiary: core.spec_a3()@[20],
            tertiary_container: core.spec_a3()@[30],
            on_tertiary_container: core.spec_a3()@[90],
            error: core.spec_error()@[80],
            on_error: core.spec_error()@[20],
            error_container: core.spec_error()@[30],
            on_error_container: core.spec_error()@[80],
            background: core.spec_n1()@[10],
            on_background: core.spec_n1()@[90],
            surface: core.spec_n1()@[10],
            on_surface: core.spec_n1()@[90],
            surface_variant: core.spec_n2()@[30],
            on_surface_variant: core.spec_n2()@[80],
            outline: core.spec_n2()@[60],
            outline_variant: core.spec_n2()@[30],
            shadow: core.spec_n1()@[0],
            scrim: core.spec_n1()@[0],
            inverse_surface: core.spec_n1()@[90],
            inverse_on_surface: core.spec_n1()@[20],
            inverse_primary: core.spec_a1()@[40],
        }
    }

    /// Whether `scheme` is a light scheme drawn from `seed`: the light scheme
    /// that the tables hold after `seed` has been asked for the light tones.
    pub open spec fn light_drawn_from<H: Copy, R: Fn(H, H, u8) -> u32>(
        scheme: Scheme,
        seed: CorePalette<H>,
        resolve: &R,
    ) -> bool {
        exists|drawn: CorePalette<H>| #[trigger]
            drawn.extends(seed, Self::light_tones(), resolve) && scheme == Self::light_of(drawn)
    }

    /// Whether `scheme` is a dark scheme drawn from `seed`: the dark scheme
    /// that the tables hold after `seed` has been asked for the dark tones.
    pub open spec fn dark_drawn_from<H: Copy, R: Fn(H, H, u8) -> u32>(
        scheme: Scheme,
        seed: CorePalette<H>,
        resolve: &R,
    ) -> bool {
        exists|drawn: CorePalette<H>| #[trigger]
            drawn.extends(seed, Self::dark_tones(), resolve) && scheme == Self::dark_of(drawn)
    }

    /// Whether `palettes` accepts `argb` with the flag `is_content`, and
    /// `resolve` accepts every group of palettes that it can return for them.
    pub open spec fn can_draw<H: Copy, P: Fn(u32, bool) -> CorePalette<H>, R: Fn(H, H, u8) -> u32>(
        argb: u32,
        is_content: bool,
        palettes: &P,
        resolve: &R,
    ) -> bool {
        &&& palettes.requires((argb, is_content))
        &&& forall|seed: CorePalette<H>| #[trigger]
            palettes.ensures((argb, is_content), seed) ==> seed.accepts(resolve)
    }

    /// The light scheme of the theme of `argb`. `palettes` derives the six
    /// palettes from a source colour; its flag says whether they follow the
    /// chroma of that colour, which they do not here.
    pub fn light<H: Copy, P: Fn(u32, bool) -> CorePalette<H>, R: Fn(H, H, u8) -> u32>(
        argb: u32,
        palettes: &P,
        resolve: &R,
    ) -> (scheme: Self)
        requires
            Self::can_draw(argb, false, palettes, resolve),
        ensures
            exists|seed: CorePalette<H>| #[trigger]
                palettes.ensures((argb, false), seed) && Self::light_drawn_from(
                    scheme,
                    seed,
                    resolve,
                ),
    {
        let mut core = palettes(argb, false);
        let ghost seed = core;
        let scheme = Self::light_from_core_palette(&mut core, resolve);
        assert(core.extends(seed, Self::light_tones(), resolve));
        assert(palettes.ensures((argb, false), seed));
        scheme
    }

    /// The dark scheme of the theme of `argb`. `palettes` derives the six
    /// palettes from a source colour; its flag says whether they follow the
    /// chroma of that colour, which they do not here.
    pub fn dark<H: Copy, P: Fn(u32, bool) -> CorePalette<H>, R: Fn(H, H, u8) -> u32>(
        argb: u32,
        palettes: &P,
        resolve: &R,
    ) -> (scheme: Self)
        requires
            Self::can_draw(argb, false, palettes, resolve),
        ensures
            exists|seed: CorePalette<H>| #[trigger]
                palettes.ensures((argb, false), seed) && Self::dark_drawn_from(
                    scheme,
                    seed,
                    resolve,
                ),
    {
        let mut core = palettes(argb, false);
        let ghost seed = core;
        let scheme = Self::dark_from_core_palette(&mut core, resolve);
        assert(core.extends(seed, Self::dark_tones(), resolve));
        assert(palettes.ensures((argb, false), seed));
        scheme
    }

    /// The light scheme of the theme that follows the chroma of `argb`.
    pub fn light_content<H: Copy, P: Fn(u32, bool) -> CorePalette<H>, R: Fn(H, H, u8) -> u32>(
        argb: u32,
        palettes: &P,
        resolve: &R,
    ) -> (scheme: Self)
        requires
            Self::can_draw(argb, true, palettes, resolve),
        ensures
            exists|seed: CorePalette<H>| #[trigger]
                palettes.ensures((argb, true), seed) && Self::light_drawn_from(
                    scheme,
                    seed,
                    resolve,
                ),
    {
        let mut core = palettes(argb, true);
        let ghost seed = core;
        let scheme = Self::light_from_core_palette(&mut core, resolve);
        assert(core.extends(seed, Self::light_tones(), resolve));
        assert(palettes.ensures((argb, true), seed));
        scheme
    }

    /// The dark scheme of the theme that follows the chroma of `argb`.
    pub fn dark_content<H: Copy, P: Fn(u32, bool) -> CorePalette<H>, R: Fn(H, H, u8) -> u32>(
        argb: u32,
        palettes: &P,
        resolve: &R,
    ) -> (scheme: Self)
        requires
            Self::can_draw(argb, true, palettes, resolve),
        ensures
            exists|seed: CorePalette<H>| #[trigger]
                palettes.ensures((argb, true), seed) && Self::dark_drawn_from(
                    scheme,
                    seed,
                    resolve,
                ),
    {
        let mut core = palettes(argb, true);
        let ghost seed = core;
        let scheme = Self::dark_from_core_palette(&mut core, resolve);
        assert(core.extends(seed, Self::dark_tones(), resolve));
        assert(palettes.ensures((argb, true), seed));
        scheme
    }

    /// Draws the light scheme from `core`, asking each palette for the tones
    /// of its roles. Tones that `core` has not resolved before are resolved
    /// by `resolve` and stay in its tables.
    pub fn light_from_core_palette<H: Copy, R: Fn(H, H, u8) -> u32>(
        core: &mut CorePalette<H>,
        resolve: &R,
    ) -> (scheme: Self)
        requires
            old(core).accepts(resolve),
        ensures
            final(core).extends(*old(core), Self::light_tones(), resolve),
            scheme == Self::light_of(*final(core)),
            old(core).resolved_by(resolve) ==> final(core).resolved_by(resolve),
    {
        Self::new(
            core.a1().tone(40, resolve),
            core.a1().tone(100, resolve),
            core.a1().tone(90, resolve),
            core.a1().tone(10, resolve),
            core.a2().tone(40, resolve),
            core.a2().tone(100, resolve),
            core.a2().tone(90, resolve),
            core.a2().tone(10, resolve),
            core.a3().tone(40, resolve),
            core.a3().tone(100, resolve),
            core.a3().tone(90, resolve),
            core.a3().tone(10, resolve),
            core.error().tone(40, resolve),
            core.error().tone(100, resolve),
            core.error().tone(90, resolve),
            core.error().tone(10, resolve),
            core.n1().tone(99, resolve),
            core.n1().tone(10, resolve),
            core.n1().tone(99, resolve),
            core.n1().tone(10, resolve),
            core.n2().tone(90, resolve),
            core.n2().tone(30, resolve),
            core.n2().tone(50, resolve),
            core.n2().tone(80, resolve),
            core.n1().tone(0, resolve),
            core.n1().tone(0, resolve),
            core.n1().tone(20, resolve),
            core.n1().tone(95, resolve),
            core.a1().tone(80, resolve),
        )
    }

    /// Draws the dark scheme from `core`, asking each palette for the tones
    /// of its roles. Tones that `core` has not resolved before are resolved
    /// by `resolve` and stay in its tables.
    pub fn dark_from_core_palette<H: Copy, R: Fn(H, H, u8) -> u32>(
        core: &mut CorePalette<H>,
        resolve: &R,
    ) -> (scheme: Self)
        requires
            old(core).accepts(resolve),
        ensures
            final(core).extends(*old(core), Self::dark_tones(), resolve),
            scheme == Self::dark_of(*final(core)),
            old(core).resolved_by(resolve) ==> final(core).resolved_by(resolve),
    {
        Self::new(
            core.a1().tone(80, resolve),
            core.a1().tone(20, resolve),
            core.a1().tone(30, resolve),
            core.a1().tone(90, resolve),
            core.a2().tone(80, resolve),
            core.a2().tone(20, resolve),
            core.a2().tone(30, resolve),
            core.a2().tone(90, resolve),
            core.a3().tone(80, resolve),
            core.a3().tone(20, resolve),
            core.a3().tone(30, resolve),
            core.a3().tone(90, resolve),
            core.error().tone(80, resolve),
            core.error().tone(20, resolve),
            core.error().tone(30, resolve),
            core.error().tone(80, resolve),
            core.n1().tone(10, resolve),
            core.n1().tone(90, resolve),
            core.n1().tone(10, resolve),
            core.n1().tone(90, resolve),
            core.n2().tone(30, resolve),
            core.n2().tone(80, resolve),
            core.n2().tone(60, resolve),
            core.n2().tone(30, resolve),
            core.n1().tone(0, resolve),
            core.n1().tone(0, resolve),
            core.n1().tone(90, resolve),
            core.n1().tone(20, resolve),
            core.a1().tone(40, resolve),
        )
    }

    #[allow(clippy::too_many_arguments)]
    fn new(
        primary: u32,
        on_primary: u32,
        primary_container: u32,
        on_primary_container: u32,
        secondary: u32,
        on_secondary: u32,
        secondary_container: u32,
        on_secondary_container: u32,
        tertiary: u32,
        on_tertiary: u32,
        tertiary_container: u32,
        on_tertiary_container: u32,
        error: u32,
        on_error: u32,
        error_container: u32,
        on_error_container: u32,
        background: u32,
        on_background: u32,
        surface: u32,
        on_surface: u32,
        surface_variant: u32,
        on_surface_variant: u32,
        outline: u32,
        outline_variant: u32,
        shadow: u32,
        scrim: u32,
        inverse_surface: u32,
        inverse_on_surface: u32,
        inverse_primary: u32,
    ) -> (scheme: Self)
        ensures
            scheme == (Scheme {
                primary,
                on_primary,
                primary_container,
                on_primary_container,
                secondary,
                on_secondary,
                secondary_container,
                on_secondary_container,
                tertiary,
                on_tertiary,
                tertiary_container,
                on_tertiary_container,
                error,
                on_error,
                error_container,
                on_error_container,
                background,
                on_background,
                surface,
                on_surface,
                surface_variant,
                on_surface_variant,
                outline,
                outline_variant,
                shadow,
                scrim,
                inverse_surface,
                inverse_on_surface,
                inverse_primary,
            }),
    {
        Self {
            primary,
            on_primary,
            primary_container,
            on_primary_container,
            secondary,
            on_secondary,
            secondary_container,
            on_secondary_container,
            tertiary,
            on_tertiary,
            tertiary_container,
            on_tertiary_container,
            error,
            on_error,
            error_container,
            on_error_container,
            background,
            on_background,
            surface,
            on_surface,
            surface_variant,
            on_surface_variant,
            outline,
            outline_variant,
            shadow,
            scrim,
            inverse_surface,
            inverse_on_surface,
            inverse_primary,
        }
    }

    /// The `primary` colour.
    pub fn primary(&self) -> (argb: u32)
        ensures
            argb == self.primary,
    {
        self.primary
    }

    /// The colour of content drawn on `primary`.
    pub fn on_primary(&self) -> (argb: u32)
        ensures
            argb == self.on_primary,
    {
        self.on_primary
    }

    /// The `primary_container` colour.
    pub fn primary_container(&self) -> (argb: u32)
        ensures
            argb == self.primary_container,
    {
        self.primary_container
    }

    /// The colour of content drawn on `primary_container`.
    pub fn on_primary_container(&self) -> (argb: u32)
        ensures
            argb == self.on_primary_container,
    {
        self.on_primary_container
    }

    /// The `secondary` colour.
    pub fn secondary(&self) -> (argb: u32)
        ensures
            argb == self.secondary,
    {
        self.secondary
    }

    /// The colour of content drawn on `secondary`.
    pub fn on_secondary(&self) -> (argb: u32)
        ensures
            argb == self.on_secondary,
    {
        self.on_secondary
    }

    /// The `secondary_container` colour.
    pub fn secondary_container(&self) -> (argb: u32)
        ensures
            argb == self.secondary_container,
    {
        self.secondary_container
    }

    /// The colour of content drawn on `secondary_container`.
    pub fn on_secondary_container(&self) -> (argb: u32)
        ensures
            argb == self.on_secondary_container,
    {
        self.on_secondary_container
    }

    /// The `tertiary` colour.
    pub fn tertiary(&self) -> (argb: u32)
        ensures
            argb == self.tertiary,
    {
        self.tertiary
    }

    /// The colour of content drawn on `tertiary`.
    pub fn on_tertiary(&self) -> (argb: u32)
        ensures
            argb == self.on_tertiary,
    {
        self.on_tertiary
    }

    /// The `tertiary_container` colour.
    pub fn tertiary_container(&self) -> (argb: u32)
        ensures
            argb == self.tertiary_container,
    {
        self.tertiary_container
    }

    /// The colour of content drawn on `tertiary_container`.
    pub fn on_tertiary_container(&self) -> (argb: u32)
        ensures
            argb == self.on_tertiary_container,
    {
        self.on_tertiary_container
    }

    /// The `error` colour.
    pub fn error(&self) -> (argb: u32)
        ensures
            argb == self.error,
    {
        self.error
    }

    /// The colour of content drawn on `error`.
    pub fn on_error(&self) -> (argb: u32)
        ensures
            argb == self.on_error,
    {
        self.on_error
    }

    /// The `error_container` colour.
    pub fn error_container(&self) -> (argb: u32)
        ensures
            argb == self.error_container,
    {
        self.error_container
    }

    /// The colour of content drawn on `error_container`.
    pub fn on_error_container(&self) -> (argb: u32)
        ensures
            argb == self.on_error_container,
    {
        self.on_error_container
    }

    /// The `background` colour.
    pub fn background(&self) -> (argb: u32)
        ensures
            argb == self.background,
    {
        self.background
    }

    /// The colour of content drawn on `background`.
    pub fn on_background(&self) -> (argb: u32)
        ensures
            argb == self.on_background,
    {
        self.on_background
    }

    /// The `surface` colour.
    pub fn surface(&self) -> (argb: u32)
        ensures
            argb == self.surface,
    {
        self.surface
    }

    /// The colour of content drawn on `surface`.
    pub fn on_surface(&self) -> (argb: u32)
        ensures
            argb == self.on_surface,
    {
        self.on_surface
    }

    /// The `surface_variant` colour.
    pub fn surface_variant(&self) -> (argb: u32)
        ensures
            argb == self.surface_variant,
    {
        self.surface_variant
    }

    /// The colour of content drawn on `surface_variant`.
    pub fn on_surface_variant(&self) -> (argb: u32)
        ensures
            argb == self.on_surface_variant,
    {
        self.on_surface_variant
    }

    /// The `outline` colour.
    pub fn outline(&self) -> (argb: u32)
        ensures
            argb == self.outline,
    {
        self.outline
    }

    /// The `outline_variant` colour.
    pub fn outline_variant(&self) -> (argb: u32)
        ensures
            argb == self.outline_variant,
    {
        self.outline_variant
    }

    /// The `shadow` colour.
    pub fn shadow(&self) -> (argb: u32)
        ensures
            argb == self.shadow,
    {
        self.shadow
    }

    /// The `scrim` colour.
    pub fn scrim(&self) -> (argb: u32)
        ensures
            argb == self.scrim,
    {
        self.scrim
    }

    /// The `inverse_surface` colour.
    pub fn inverse_surface(&self) -> (argb: u32)
        ensures
            argb == self.inverse_surface,
    {
        self.inverse_surface
    }

    /// The colour of content drawn on `inverse_surface`.
    pub fn inverse_on_surface(&self) -> (argb: u32)
        ensures
            argb == self.inverse_on_surface,
    {
        self.inverse_on_surface
    }

    /// The `inverse_primary` colour.
    pub fn inverse_primary(&self) -> (argb: u32)
        ensures
            argb == self.inverse_primary,
    {
        self.inverse_primary
    }
}

} // verus!
