use vstd::prelude::*;

verus! {

/// One pixel of the fixed image format: four 8-bit channels.
#[derive(Clone, Copy, PartialEq, Eq, Structural, Debug)]
pub struct Rgba8 {
    pub r: u8,
    pub g: u8,
    pub b: u8,
    pub a: u8,
}

impl Rgba8 {
    /// Channel `c` of the pixel, in the byte order of the image format:
    /// red, green, blue, alpha.
    pub open spec fn spec_channel(self, c: int) -> u8 {
        if c == 0 {
            self.r
        } else if c == 1 {
            self.g
        } else if c == 2 {
            self.b
        } else {
            self.a
        }
    }

    /// Channel `c` of the pixel, for the host when it lays pixels out as
    /// bytes or checks bytes read back from the device.
    pub fn channel(&self, c: u32) -> (v: u8)
        requires
            c < 4,
        ensures
            v == self.spec_channel(c as int),
    {
        if c == 0 {
            self.r
        } else if c == 1 {
            self.g
        } else if c == 2 {
            self.b
        } else {
            self.a
        }
    }
}

/// The fixed color the clear/copy pass clears its image to, already mapped
/// from the normalized clear value to 8-bit channels.
pub open spec fn spec_clear_color() -> Rgba8 {
    Rgba8 { r: 0, g: 127, b: 76, a: 255 }
}

/// The fixed clear color as a value the host can hand to the device or
/// compare readback bytes against.
pub fn clear_color() -> (c: Rgba8)
    ensures
        c == spec_clear_color(),
{
    Rgba8 { r: 0, g: 127, b: 76, a: 255 }
}

} // verus!
