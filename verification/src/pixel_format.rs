//! A pixel format: a fourcc code paired with a layout modifier.

use vstd::prelude::*;

verus! {

/// A pixel format, as a pair of a fourcc code and a 64-bit layout modifier.
#[derive(Debug, Clone, Copy, PartialEq, Eq, Structural)]
pub struct PixelFormat {
    pub fourcc: u32,
    pub modifier: u64,
}

impl PixelFormat {
    /// Construct a pixel format from a fourcc code and a modifier.
    pub fn new(fourcc: u32, modifier: u64) -> (r: PixelFormat)
        ensures
            r == (PixelFormat { fourcc, modifier }),
    {
        PixelFormat { fourcc, modifier }
    }

    pub fn fourcc(&self) -> (r: u32)
        ensures
            r == self.fourcc,
    {
        self.fourcc
    }

    pub fn set_fourcc(&mut self, fourcc: u32)
        ensures
            *final(self) == (PixelFormat { fourcc, modifier: old(self).modifier }),
    {
        self.fourcc = fourcc;
    }

    pub fn modifier(&self) -> (r: u64)
        ensures
            r == self.modifier,
    {
        self.modifier
    }

    pub fn set_modifier(&mut self, modifier: u64)
        ensures
            *final(self) == (PixelFormat { fourcc: old(self).fourcc, modifier }),
    {
        self.modifier = modifier;
    }
}

} // verus!
