//! Tonal palettes, and the group of six from which a scheme is drawn.

pub mod core_palette;
pub mod tonal;

pub use self::core_palette::CorePalette;
pub use self::tonal::TonalPalette;
