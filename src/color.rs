use vstd::prelude::*;

verus! {

/// An 8-bit-per-channel RGB color.
#[derive(Clone, Copy, Debug, PartialEq, Eq, Structural)]
pub struct Rgb {
    pub r: u8,
    pub g: u8,
    pub b: u8,
}

impl Rgb {
    /// The gray of intensity `v`: all three channels equal to `v`.
    pub fn gray(v: u8) -> (c: Rgb)
        ensures
            c == (Rgb { r: v, g: v, b: v }),
    {
        Rgb { r: v, g: v, b: v }
    }

    /// Whether all three channels hold the same value.
    pub open spec fn is_gray(self) -> bool {
        self.r == self.g && self.g == self.b
    }
}

} // verus!
