//! Encoded colors.
//!
//! The plan keeps every color in its 8-bit gamma-encoded ARGB form, exactly
//! as the drawing code names it (`0xff_555555` and the like). Decoding a
//! channel to linear light with the sRGB transfer function is a
//! floating-point computation, so it is left to the unverified evaluator,
//! which applies it uniformly to every color of the plan.

use vstd::prelude::*;

verus! {

/// A gamma-encoded color with 8-bit alpha, red, green and blue channels.
#[derive(Clone, Copy, PartialEq, Eq, Debug)]
pub struct Argb {
    pub a: u8,
    pub r: u8,
    pub g: u8,
    pub b: u8,
}

/// The color packed in a `0xAARRGGBB` word, channel by channel.
pub open spec fn argb(v: u32) -> Argb {
    Argb { a: (v >> 24) as u8, r: (v >> 16) as u8, g: (v >> 8) as u8, b: v as u8 }
}

impl Argb {
    /// Unpacks a `0xAARRGGBB` word, the form the drawing code writes colors in.
    pub fn from_u32(v: u32) -> (c: Argb)
        ensures
            c == argb(v),
    {
        Argb { a: (v >> 24) as u8, r: (v >> 16) as u8, g: (v >> 8) as u8, b: v as u8 }
    }
}

} // verus!
