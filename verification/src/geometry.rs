//! Points, sizes and rectangles on the integer pixel grid.
//!
//! Coordinates are `i32` and extents are `u32`. Point arithmetic wraps around
//! at the bounds of `i32`, so no operation in this module can panic.

use vstd::prelude::*;

verus! {

/// A position or displacement on the pixel grid.
#[derive(Clone, Copy, Debug, PartialEq, Eq, Structural)]
pub struct Point {
    pub x: i32,
    pub y: i32,
}

/// A width and a height in pixels. Either may be zero.
#[derive(Clone, Copy, Debug, PartialEq, Eq, Structural)]
pub struct Size {
    pub width: u32,
    pub height: u32,
}

/// An axis-aligned rectangle, given by its top left corner and its size.
#[derive(Clone, Copy, Debug, PartialEq, Eq, Structural)]
pub struct Rectangle {
    pub top_left: Point,
    pub size: Size,
}

/// The distance from the top left corner of a span of `extent` pixels to its
/// center pixel. A span of even length has no center pixel; the pixel before
/// the middle stands for it. An empty span is treated like a span of one.
pub open spec fn center_offset(extent: u32) -> int {
    if extent == 0 {
        0
    } else {
        (extent - 1) / 2
    }
}

/// `extent`, capped at the largest value that a coordinate can hold.
pub open spec fn addressable(extent: u32) -> int {
    if extent > i32::MAX {
        i32::MAX as int
    } else {
        extent as int
    }
}

impl Point {
    /// The sum of two points, coordinate by coordinate, each wrapping around
    /// at the bounds of `i32`.
    pub open spec fn spec_wrapping_add(self, other: Point) -> Point {
        Point { x: self.x.wrapping_add(other.x), y: self.y.wrapping_add(other.y) }
    }

    /// The difference of two points, coordinate by coordinate, each wrapping
    /// around at the bounds of `i32`.
    pub open spec fn spec_wrapping_sub(self, other: Point) -> Point {
        Point { x: self.x.wrapping_sub(other.x), y: self.y.wrapping_sub(other.y) }
    }

    pub fn new(x: i32, y: i32) -> (p: Point)
        ensures
            p == (Point { x, y }),
    {
        Point { x, y }
    }

    /// The origin.
    pub fn zero() -> (p: Point)
        ensures
            p == (Point { x: 0, y: 0 }),
    {
        Point { x: 0, y: 0 }
    }

    /// Adds two points coordinate by coordinate. A coordinate that leaves the
    /// range of `i32` wraps around; the call never panics.
    #[verifier::when_used_as_spec(spec_wrapping_add)]
    pub fn wrapping_add(self, other: Point) -> (sum: Point)
        ensures
            sum == self.spec_wrapping_add(other),
    {
        Point { x: self.x.wrapping_add(other.x), y: self.y.wrapping_add(other.y) }
    }
}

impl Size {
    /// Whether a rectangle of this size holds no pixel.
    pub open spec fn spec_is_empty(self) -> bool {
        self.width == 0 || self.height == 0
    }

    /// The number of columns that a `Point` can address.
    pub open spec fn spec_columns(self) -> int {
        addressable(self.width)
    }

    /// The number of rows that a `Point` can address.
    pub open spec fn spec_rows(self) -> int {
        addressable(self.height)
    }

    pub fn new(width: u32, height: u32) -> (s: Size)
        ensures
            s == (Size { width, height }),
    {
        Size { width, height }
    }

    /// The number of columns that a `Point` can address: the width, capped at
    /// `i32::MAX`.
    pub fn columns(self) -> (n: i32)
        ensures
            n == self.spec_columns(),
    {
        if self.width > i32::MAX as u32 {
            i32::MAX
        } else {
            self.width as i32
        }
    }

    /// The number of rows that a `Point` can address: the height, capped at
    /// `i32::MAX`.
    pub fn rows(self) -> (n: i32)
        ensures
            n == self.spec_rows(),
    {
        if self.height > i32::MAX as u32 {
            i32::MAX
        } else {
            self.height as i32
        }
    }
}

impl Rectangle {
    /// Whether `point` lies inside the rectangle.
    pub open spec fn spec_contains(self, point: Point) -> bool {
        &&& self.top_left.x <= point.x < self.top_left.x + self.size.width
        &&& self.top_left.y <= point.y < self.top_left.y + self.size.height
    }

    /// This rectangle moved by `by`.
    pub open spec fn spec_translate(self, by: Point) -> Rectangle {
        Rectangle { top_left: self.top_left.spec_wrapping_add(by), size: self.size }
    }

    /// The rectangle of size `size` whose center pixel is `center`.
    pub open spec fn spec_with_center(center: Point, size: Size) -> Rectangle {
        Rectangle {
            top_left: Point {
                x: center.x.wrapping_sub(center_offset(size.width) as i32),
                y: center.y.wrapping_sub(center_offset(size.height) as i32),
            },
            size,
        }
    }

    pub fn new(top_left: Point, size: Size) -> (r: Rectangle)
        ensures
            r == (Rectangle { top_left, size }),
    {
        Rectangle { top_left, size }
    }

    /// Moves the rectangle by `by`; its size stays.
    #[verifier::when_used_as_spec(spec_translate)]
    pub fn translate(self, by: Point) -> (r: Rectangle)
        ensures
            r == self.spec_translate(by),
    {
        Rectangle { top_left: self.top_left.wrapping_add(by), size: self.size }
    }

    /// The rectangle of size `size` centered on `center`.
    ///
    /// Where a side is even, or zero, the center pixel is the one defined by
    /// [`center_offset`]. A corner that leaves the range of `i32` wraps around.
    #[verifier::when_used_as_spec(spec_with_center)]
    pub fn with_center(center: Point, size: Size) -> (r: Rectangle)
        ensures
            r == Rectangle::spec_with_center(center, size),
    {
        let corner = origin_centered_corner(size);
        Rectangle { top_left: center.wrapping_add(corner), size }
    }
}

/// The top left corner of the rectangle of size `size` centered on the origin.
///
/// Calls `embedded_graphics::primitives::Rectangle::with_center` with the
/// origin as center and returns the `top_left` of the result. The contract
/// claims what that function computes there: each coordinate of the corner is
/// the negated center offset of the side, that is `-((side - 1) / 2)`, with a
/// side of zero treated like a side of one. The offset is at most
/// `i32::MAX`, so the subtraction from zero cannot overflow.
#[verifier::external_body]
fn origin_centered_corner(size: Size) -> (corner: Point)
    ensures
        corner.x == -center_offset(size.width),
        corner.y == -center_offset(size.height),
{
    let rectangle = embedded_graphics::primitives::Rectangle::with_center(
        embedded_graphics::geometry::Point::zero(),
        embedded_graphics::geometry::Size::new(size.width, size.height),
    );
    Point { x: rectangle.top_left.x, y: rectangle.top_left.y }
}

} // verus!
