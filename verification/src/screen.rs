//! Screens and their rectangles in the global virtual desktop.

use vstd::prelude::*;

verus! {

#[derive(Clone, Copy, Debug, PartialEq, Eq, Structural, Hash)]
pub struct ScreenId(pub u32);

/// A rectangle of the virtual desktop: its top-left corner and its size.
#[derive(Clone, Copy, Debug, PartialEq, Eq, Structural)]
pub struct ScreenRect {
    pub x: i32,
    pub y: i32,
    pub width: i32,
    pub height: i32,
}

/// Whether `v` fits an `i32`.
pub open spec fn fits_i32(v: int) -> bool {
    i32::MIN <= v <= i32::MAX
}

impl ScreenRect {
    /// The x coordinate just right of the rectangle.
    pub open spec fn right_edge(self) -> int {
        self.x + self.width
    }

    /// The y coordinate just below the rectangle.
    pub open spec fn bottom_edge(self) -> int {
        self.y + self.height
    }

    pub fn new(x: i32, y: i32, width: i32, height: i32) -> (r: ScreenRect)
        ensures
            r == (ScreenRect { x, y, width, height }),
    {
        ScreenRect { x, y, width, height }
    }

    pub fn right(&self) -> (r: i32)
        requires
            fits_i32(self.right_edge()),
        ensures
            r == self.right_edge(),
    {
        self.x + self.width
    }

    pub fn bottom(&self) -> (r: i32)
        requires
            fits_i32(self.bottom_edge()),
        ensures
            r == self.bottom_edge(),
    {
        self.y + self.height
    }

    /// Whether the point lies inside the rectangle, the left and top edges
    /// included and the right and bottom edges excluded.
    pub fn contains(&self, px: i32, py: i32) -> (b: bool)
        ensures
            b == (self.x <= px < self.right_edge() && self.y <= py < self.bottom_edge()),
    {
        let right = self.x as i64 + self.width as i64;
        let bottom = self.y as i64 + self.height as i64;
        self.x <= px && (px as i64) < right && self.y <= py && (py as i64) < bottom
    }
}

} // verus!
