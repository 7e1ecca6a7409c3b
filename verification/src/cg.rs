//! Models of the Core Graphics value types a capture configuration
//! carries. Coordinates are whole points in the model and colors are
//! eight-bit components, so the fixed field layouts stay expressible
//! without floating point.

use vstd::prelude::*;

verus! {

/// A point: horizontal and vertical position.
#[derive(Clone, Copy, PartialEq, Eq, Structural, Debug)]
pub struct Point {
    pub x: i64,
    pub y: i64,
}

/// A size: width and height.
#[derive(Clone, Copy, PartialEq, Eq, Structural, Debug)]
pub struct Size {
    pub width: i64,
    pub height: i64,
}

/// A rectangle: origin and size.
#[derive(Clone, Copy, PartialEq, Eq, Structural, Debug)]
pub struct Rect {
    pub origin: Point,
    pub size: Size,
}

impl Rect {
    pub fn new(x: i64, y: i64, width: i64, height: i64) -> (r: Rect)
        ensures
            r.origin.x == x,
            r.origin.y == y,
            r.size.width == width,
            r.size.height == height,
    {
        Rect { origin: Point { x, y }, size: Size { width, height } }
    }

    /// The all-zero rectangle, the configuration default.
    pub fn zero() -> (r: Rect)
        ensures
            r == spec_zero_rect(),
    {
        Rect { origin: Point { x: 0, y: 0 }, size: Size { width: 0, height: 0 } }
    }
}

/// The all-zero rectangle, for contracts to name.
pub open spec fn spec_zero_rect() -> Rect {
    Rect { origin: Point { x: 0, y: 0 }, size: Size { width: 0, height: 0 } }
}

/// A color: four eight-bit components.
#[derive(Clone, Copy, PartialEq, Eq, Structural, Debug)]
pub struct Color {
    pub red: u8,
    pub green: u8,
    pub blue: u8,
    pub alpha: u8,
}

impl Color {
    pub fn with_rgba(red: u8, green: u8, blue: u8, alpha: u8) -> (r: Color)
        ensures
            r.red == red,
            r.green == green,
            r.blue == blue,
            r.alpha == alpha,
    {
        Color { red, green, blue, alpha }
    }

    /// Fully transparent black, the configuration default.
    pub fn clear() -> (r: Color)
        ensures
            r == spec_clear_color(),
    {
        Color { red: 0, green: 0, blue: 0, alpha: 0 }
    }
}

/// The fully transparent color, for contracts to name.
pub open spec fn spec_clear_color() -> Color {
    Color { red: 0, green: 0, blue: 0, alpha: 0 }
}

/// A color space, carried as the identity of its platform name constant.
#[derive(Clone, Copy, PartialEq, Eq, Structural, Debug)]
pub struct ColorSpace {
    /// The identity of the platform name constant.
    pub name: u64,
}

impl ColorSpace {
    pub fn with_name(name: u64) -> (r: ColorSpace)
        ensures
            r.name == name,
    {
        ColorSpace { name }
    }
}

} // verus!
