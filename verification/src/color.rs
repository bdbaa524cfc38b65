//! Packed RGBA8 colour: red in the low byte, alpha in the high byte.

use vstd::prelude::*;

verus! {

/// Packed RGBA8 colour (R in bits 0-7, G in 8-15, B in 16-23, A in 24-31).
#[derive(Clone, Copy, Debug, PartialEq, Eq, Structural)]
pub struct RGBA8(pub u32);

/// The packed word of four channel bytes.
pub open spec fn pack_channels(r: u8, g: u8, b: u8, a: u8) -> u32 {
    (r as u32) | ((g as u32) << 8u32) | ((b as u32) << 16u32) | ((a as u32) << 24u32)
}

/// Channel `k` (0 = red .. 3 = alpha) of a packed word.
pub open spec fn channel(p: u32, k: u32) -> u32 {
    (p >> (8 * k)) & 0xFF
}

impl RGBA8 {
    /// Opaque white, every channel 255.
    pub fn white() -> (c: RGBA8)
        ensures
            c.0 == 0xFFFF_FFFF,
    {
        RGBA8(0xFFFF_FFFF)
    }

    /// Fully transparent black, every channel 0.
    pub fn transparent() -> (c: RGBA8)
        ensures
            c.0 == 0,
    {
        RGBA8(0)
    }

    /// Pack four channel bytes.
    pub fn from_channels(r: u8, g: u8, b: u8, a: u8) -> (c: RGBA8)
        ensures
            c.0 == pack_channels(r, g, b, a),
            channel(c.0, 0) == r,
            channel(c.0, 1) == g,
            channel(c.0, 2) == b,
            channel(c.0, 3) == a,
    {
        let p: u32 = (r as u32) | ((g as u32) << 8u32) | ((b as u32) << 16u32) | ((a as u32) << 24u32);
        assert(channel(p, 0) == r && channel(p, 1) == g && channel(p, 2) == b && channel(p, 3) == a)
            by (bit_vector)
            requires
                p == (r as u32) | ((g as u32) << 8u32) | ((b as u32) << 16u32) | ((a as u32) << 24u32),
        ;
        RGBA8(p)
    }

    /// The packed word.
    pub fn packed(self) -> (p: u32)
        ensures
            p == self.0,
    {
        self.0
    }
}

} // verus!
