//! Lengths in app units, and the boxes that layout reports in them.

use vstd::prelude::*;

verus! {

/// How many app units make one pixel.
pub const AU_PER_PX: i32 = 60;

/// A length in app units, sixty to the pixel.
#[derive(Clone, Copy, Debug, PartialEq, Eq, Structural)]
pub struct Au(pub i32);

/// The whole pixels that a length covers, as a mathematical integer: a
/// negative length covers none, and a part of a pixel is cut off.
pub open spec fn px_of(au: Au) -> int {
    if au.0 < 0 {
        0
    } else {
        au.0 as int / AU_PER_PX as int
    }
}

/// Whole pixels of a length: truncated, never rounded, and zero for a
/// negative length.
pub fn to_px(au: Au) -> (px: u32)
    ensures
        px as int == px_of(au),
        au.0 >= 0 ==> px * AU_PER_PX <= au.0 < (px + 1) * AU_PER_PX,
        au.0 < 0 ==> px == 0,
{
    if au.0 < 0 {
        0
    } else {
        (au.0 / AU_PER_PX) as u32
    }
}

/// A width and a height.
#[derive(Clone, Copy, Debug, PartialEq, Eq, Structural)]
pub struct Size {
    pub width: Au,
    pub height: Au,
}

/// A corner of a box.
#[derive(Clone, Copy, Debug, PartialEq, Eq, Structural)]
pub struct Point {
    pub x: Au,
    pub y: Au,
}

/// A box on the page: where it starts and how far it reaches.
#[derive(Clone, Copy, Debug, PartialEq, Eq, Structural)]
pub struct Rect {
    pub origin: Point,
    pub size: Size,
}

} // verus!
