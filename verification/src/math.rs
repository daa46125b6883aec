use vstd::prelude::*;

verus! {

/// Bit pattern of the single-precision number `1.0`.
pub const ONE: u32 = 0x3F80_0000;

/// Bit pattern of the single-precision number `-1.0`.
pub const MINUS_ONE: u32 = 0xBF80_0000;

/// A point or an extent in the plane, as it is packed for the device: each
/// component is the bit pattern of a single-precision number.
#[derive(Clone, Copy, Debug, PartialEq, Eq, Structural)]
pub struct Vec2 {
    pub x: u32,
    pub y: u32,
}

impl Vec2 {
    #[inline]
    pub fn from_bits(x: u32, y: u32) -> (v: Self)
        ensures
            v == (Vec2 { x, y }),
    {
        Vec2 { x, y }
    }

    /// The origin: both components are `+0.0`.
    #[inline]
    pub fn zero() -> (v: Self)
        ensures
            v == (Vec2 { x: 0, y: 0 }),
    {
        Vec2 { x: 0, y: 0 }
    }
}

impl Default for Vec2 {
    fn default() -> (v: Self)
        ensures
            v == (Vec2 { x: 0, y: 0 }),
    {
        Vec2 { x: 0, y: 0 }
    }
}

} // verus!
