//! Plain geometric values carried by controls and properties: a point, a size,
//! a size range and a rectangle, as the runtime represents them on the wire.

use vstd::prelude::*;

verus! {

/// A position in pixels, with the origin at the top left of the frame.
#[derive(Debug, Clone, Copy, PartialEq, Eq, Structural)]
pub struct Point {
    pub x: i32,
    pub y: i32,
}

/// An extent in pixels.
#[derive(Debug, Clone, Copy, PartialEq, Eq, Structural)]
pub struct Size {
    pub width: u32,
    pub height: u32,
}

/// A range of sizes, stepped horizontally and vertically.
#[derive(Debug, Clone, Copy, PartialEq, Eq, Structural)]
pub struct SizeRange {
    pub min: Size,
    pub max: Size,
    pub h_step: u32,
    pub v_step: u32,
}

/// An axis-aligned rectangle: top-left corner plus extent.
#[derive(Debug, Clone, Copy, PartialEq, Eq, Structural)]
pub struct Rectangle {
    pub x: i32,
    pub y: i32,
    pub width: u32,
    pub height: u32,
}

} // verus!
