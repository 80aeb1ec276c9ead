//! Colours packed into 32 bits: alpha in the top byte, then red, green and
//! blue, each channel in `0..=255`.

use vstd::prelude::*;

verus! {

/// The colour made of the four given channels, each taken modulo 256.
pub open spec fn packed(alpha: int, red: int, green: int, blue: int) -> int {
    (alpha % 256) * 0x100_0000 + (red % 256) * 0x1_0000 + (green % 256) * 0x100 + blue % 256
}

/// The alpha channel of a packed colour.
pub open spec fn alpha_of(argb: u32) -> int {
    (argb as int / 0x100_0000) % 256
}

/// The red channel of a packed colour.
pub open spec fn red_of(argb: u32) -> int {
    (argb as int / 0x1_0000) % 256
}

/// The green channel of a packed colour.
pub open spec fn green_of(argb: u32) -> int {
    (argb as int / 0x100) % 256
}

/// The blue channel of a packed colour.
pub open spec fn blue_of(argb: u32) -> int {
    argb as int % 256
}

/// Packs three channels into an opaque colour. Only the low eight bits of
/// each channel are kept.
pub fn argb_from_rgb(red: u32, green: u32, blue: u32) -> (argb: u32)
    ensures
        argb as int == packed(255, red as int, green as int, blue as int),
        alpha_of(argb) == 255,
        red_of(argb) == red % 256,
        green_of(argb) == green % 256,
        blue_of(argb) == blue % 256,
{
    let argb: u32 = 255u32 << 24 | (red & 255) << 16 | (green & 255) << 8 | blue & 255;
    assert(argb == 255 * 0x100_0000 + (red % 256) * 0x1_0000 + (green % 256) * 0x100 + blue % 256
        && (argb / 0x100_0000) % 256 == 255
        && (argb / 0x1_0000) % 256 == red % 256
        && (argb / 0x100) % 256 == green % 256
        && argb % 256 == blue % 256) by (bit_vector)
        requires
            argb == 255u32 << 24 | (red & 255) << 16 | (green & 255) << 8 | blue & 255,
    ;
    argb
}

/// The alpha channel of `argb`.
pub fn alpha_from_argb(argb: u32) -> (alpha: u32)
    ensures
        alpha as int == alpha_of(argb),
        alpha <= 255,
{
    let alpha: u32 = argb >> 24 & 255;
    assert(alpha == (argb / 0x100_0000) % 256 && alpha <= 255) by (bit_vector)
        requires
            alpha == argb >> 24 & 255,
    ;
    alpha
}

/// The red channel of `argb`.
pub fn red_from_argb(argb: u32) -> (red: u32)
    ensures
        red as int == red_of(argb),
        red <= 255,
{
    let red: u32 = argb >> 16 & 255;
    assert(red == (argb / 0x1_0000) % 256 && red <= 255) by (bit_vector)
        requires
            red == argb >> 16 & 255,
    ;
    red
}

/// The green channel of `argb`.
pub fn green_from_argb(argb: u32) -> (green: u32)
    ensures
        green as int == green_of(argb),
        green <= 255,
{
    let green: u32 = argb >> 8 & 255;
    assert(green == (argb / 0x100) % 256 && green <= 255) by (bit_vector)
        requires
            green == argb >> 8 & 255,
    ;
    green
}

/// The blue channel of `argb`.
pub fn blue_from_argb(argb: u32) -> (blue: u32)
    ensures
        blue as int == blue_of(argb),
        blue <= 255,
{
    let blue: u32 = argb & 255;
    assert(blue == argb % 256 && blue <= 255) by (bit_vector)
        requires
            blue == argb & 255,
    ;
    blue
}

/// Whether the alpha channel of `argb` is at its maximum.
pub fn is_opaque(argb: u32) -> (opaque: bool)
    ensures
        opaque <==> alpha_of(argb) == 255,
        opaque <==> argb >= 0xFF00_0000,
{
    let alpha = alpha_from_argb(argb);
    assert((argb / 0x100_0000) % 256 == 255 <==> argb >= 0xFF00_0000) by (bit_vector);
    alpha >= 255
}

/// A packed colour is determined by its four channels.
pub proof fn lemma_packed_from_channels(argb: u32)
    ensures
        packed(alpha_of(argb), red_of(argb), green_of(argb), blue_of(argb)) == argb,
{
    assert(((argb / 0x100_0000) % 256) * 0x100_0000 + ((argb / 0x1_0000) % 256) * 0x1_0000 + ((argb
        / 0x100) % 256) * 0x100 + argb % 256 == argb) by (bit_vector);
}

/// Taking an opaque colour apart and packing its channels again gives the
/// colour back; for any other colour only the alpha channel changes.
pub proof fn lemma_repack(argb: u32)
    ensures
        packed(255, red_of(argb), green_of(argb), blue_of(argb)) == argb as int + (255 - alpha_of(
            argb,
        )) * 0x100_0000,
        alpha_of(argb) == 255 ==> packed(255, red_of(argb), green_of(argb), blue_of(argb)) == argb,
{
    lemma_packed_from_channels(argb);
}

} // verus!
