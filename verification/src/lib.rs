//! Colour utilities for perceptual palettes: packed colours, angle and matrix
//! helpers, the hue/chroma/tone facade, tonal palettes and colour schemes.
//!
//! The library is independent of how hue, chroma and tone are represented
//! numerically. The perceptual model is supplied by the caller as functions:
//! one that reports the attributes of a colour, and one that finds the colour
//! for requested attributes. The contracts state how the library uses them
//! and what it keeps consistent.

pub mod hct;
pub mod palettes;
pub mod scheme;
pub mod utils;
