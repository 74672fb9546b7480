use vstd::prelude::*;

verus! {

/// A single-precision number, carried by its IEEE-754 bit pattern.
///
/// The library stores such numbers and hands them on; it never computes with
/// them, so the bit pattern is all it needs.
#[derive(Clone, Copy, Debug, PartialEq, Eq)]
pub struct Scalar {
    pub bits: u32,
}

/// Bit pattern of 300.0, the width of a fresh canvas.
pub const DEFAULT_WIDTH_BITS: u32 = 0x4396_0000;

/// Bit pattern of 150.0, the height of a fresh canvas.
pub const DEFAULT_HEIGHT_BITS: u32 = 0x4316_0000;

/// A colour with straight alpha, used as the matte under transparent pixels.
#[derive(Clone, Copy, Debug, PartialEq, Eq)]
pub struct Color {
    pub red: u8,
    pub green: u8,
    pub blue: u8,
    pub alpha: u8,
}

} // verus!
