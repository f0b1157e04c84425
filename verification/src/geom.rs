//! Integer plane geometry: points, sizes and rectangles, with the same
//! semantics as the drawing library's `Point`, `Size` and `Rectangle`.

use vstd::prelude::*;

verus! {

/// A point on the frame, in pixels.
#[derive(Clone, Copy, Debug, PartialEq, Eq, Structural)]
pub struct Point {
    pub x: i32,
    pub y: i32,
}

/// A width and height, in pixels.
#[derive(Clone, Copy, Debug, PartialEq, Eq, Structural)]
pub struct Size {
    pub width: u32,
    pub height: u32,
}

/// An axis-aligned rectangle: top-left corner and size.
#[derive(Clone, Copy, Debug, PartialEq, Eq, Structural)]
pub struct Rect {
    pub top_left: Point,
    pub size: Size,
}

impl Point {
    pub fn new(x: i32, y: i32) -> (p: Point)
        ensures
            p.x == x,
            p.y == y,
    {
        Point { x, y }
    }
}

impl Size {
    pub fn new(width: u32, height: u32) -> (s: Size)
        ensures
            s.width == width,
            s.height == height,
    {
        Size { width, height }
    }
}

/// Offset from the top-left to the centre along one axis: half of one less
/// than the extent, rounded down, and zero for an empty extent.
pub open spec fn center_off(n: u32) -> int {
    if n > 0 {
        (n - 1) / 2
    } else {
        0
    }
}

pub open spec fn mk_rect(x: i32, y: i32, w: u32, h: u32) -> Rect {
    Rect { top_left: Point { x, y }, size: Size { width: w, height: h } }
}

/// Shorthand for a rectangle at `(x, y)` of `w` by `h`.
pub fn rect(x: i32, y: i32, w: u32, h: u32) -> (r: Rect)
    ensures
        r == mk_rect(x, y, w, h),
{
    Rect { top_left: Point { x, y }, size: Size { width: w, height: h } }
}

impl Rect {
    pub fn new(top_left: Point, size: Size) -> (r: Rect)
        ensures
            r.top_left == top_left,
            r.size == size,
    {
        Rect { top_left, size }
    }

    /// A point lies inside when it is at or right of and below the top-left
    /// corner and at or left of and above the bottom-right pixel. An empty
    /// rectangle contains nothing.
    pub open spec fn has(self, p: Point) -> bool {
        &&& self.size.width > 0
        &&& self.size.height > 0
        &&& self.top_left.x <= p.x <= self.top_left.x + self.size.width - 1
        &&& self.top_left.y <= p.y <= self.top_left.y + self.size.height - 1
    }

    pub fn contains(&self, p: Point) -> (b: bool)
        ensures
            b == self.has(p),
    {
        if p.x >= self.top_left.x && p.y >= self.top_left.y && self.size.width > 0
            && self.size.height > 0 {
            (p.x as i64) <= self.top_left.x as i64 + self.size.width as i64 - 1 && (p.y as i64)
                <= self.top_left.y as i64 + self.size.height as i64 - 1
        } else {
            false
        }
    }

    pub open spec fn mid(self) -> Point {
        Point {
            x: (self.top_left.x + center_off(self.size.width)) as i32,
            y: (self.top_left.y + center_off(self.size.height)) as i32,
        }
    }

    /// The centre pixel, rounded towards the top-left.
    pub fn center(&self) -> (p: Point)
        ensures
            p == self.mid(),
    {
        let ox: i64 = if self.size.width > 0 {
            ((self.size.width - 1) / 2) as i64
        } else {
            0
        };
        let oy: i64 = if self.size.height > 0 {
            ((self.size.height - 1) / 2) as i64
        } else {
            0
        };
        Point {
            x: (self.top_left.x as i64 + ox) as i32,
            y: (self.top_left.y as i64 + oy) as i32,
        }
    }

    pub open spec fn centred(c: Point, size: Size) -> Rect {
        Rect {
            top_left: Point {
                x: (c.x - center_off(size.width)) as i32,
                y: (c.y - center_off(size.height)) as i32,
            },
            size,
        }
    }

    /// The rectangle of `size` whose centre is `c`.
    pub fn with_center(c: Point, size: Size) -> (r: Rect)
        ensures
            r == Rect::centred(c, size),
    {
        let ox: i64 = if size.width > 0 {
            ((size.width - 1) / 2) as i64
        } else {
            0
        };
        let oy: i64 = if size.height > 0 {
            ((size.height - 1) / 2) as i64
        } else {
            0
        };
        Rect { top_left: Point { x: (c.x as i64 - ox) as i32, y: (c.y as i64 - oy) as i32 }, size }
    }
}

} // verus!
