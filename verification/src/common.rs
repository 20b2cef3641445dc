//! Pixel geometry shared by every control: points, sizes, rectangles and
//! the arithmetic on pixel coordinates.

use vstd::prelude::*;

verus! {

/// The value of `v` pulled into the range of a pixel coordinate.
pub open spec fn clamp_px(v: int) -> int {
    if v < i32::MIN {
        i32::MIN as int
    } else if v > i32::MAX {
        i32::MAX as int
    } else {
        v
    }
}

/// Sum of two pixel coordinates, saturating at the ends of the range.
pub fn add_px(a: i32, b: i32) -> (r: i32)
    ensures
        r == clamp_px(a + b),
{
    let s: i64 = a as i64 + b as i64;
    if s < i32::MIN as i64 {
        i32::MIN
    } else if s > i32::MAX as i64 {
        i32::MAX
    } else {
        s as i32
    }
}

/// Difference of two pixel coordinates, saturating at the ends of the range.
pub fn sub_px(a: i32, b: i32) -> (r: i32)
    ensures
        r == clamp_px(a - b),
{
    let s: i64 = a as i64 - b as i64;
    if s < i32::MIN as i64 {
        i32::MIN
    } else if s > i32::MAX as i64 {
        i32::MAX
    } else {
        s as i32
    }
}

/// Half of `v`, rounded towards zero.
pub open spec fn half(v: int) -> int {
    if v >= 0 {
        v / 2
    } else {
        -((-v) / 2)
    }
}

/// Half of a pixel distance, rounded towards zero.
pub fn half_px(v: i32) -> (r: i32)
    ensures
        r == half(v as int),
{
    let wide: i64 = v as i64;
    if wide >= 0 {
        (wide / 2) as i32
    } else {
        (-((-wide) / 2)) as i32
    }
}

/// The quotient of `a` by `b`, rounded towards zero; zero where `b` is zero.
pub open spec fn quotient(a: int, b: int) -> int {
    if b == 0 {
        0
    } else if a >= 0 && b > 0 {
        a / b
    } else if a < 0 && b > 0 {
        -((-a) / b)
    } else if a >= 0 && b < 0 {
        -(a / (-b))
    } else {
        (-a) / (-b)
    }
}

/// Divides rounding towards zero; dividing by zero gives zero.
pub fn div_px(a: i128, b: i128) -> (q: i128)
    requires
        a > i128::MIN,
        b > i128::MIN,
    ensures
        q == quotient(a as int, b as int),
{
    if b == 0 {
        0
    } else if a >= 0 && b > 0 {
        a / b
    } else if a < 0 && b > 0 {
        -((-a) / b)
    } else if a >= 0 && b < 0 {
        -(a / (-b))
    } else {
        (-a) / (-b)
    }
}

/// A wide value pulled into the range of a pixel coordinate.
pub fn clamp_to_px(v: i128) -> (r: i32)
    ensures
        r == clamp_px(v as int),
{
    if v < i32::MIN as i128 {
        i32::MIN
    } else if v > i32::MAX as i128 {
        i32::MAX
    } else {
        v as i32
    }
}

/// A position in window coordinates.
#[derive(Clone, Copy, Debug, PartialEq, Eq, Structural)]
pub struct Point {
    pub x: i32,
    pub y: i32,
}

/// A width and a height.
#[derive(Clone, Copy, Debug, PartialEq, Eq, Structural)]
pub struct Size {
    pub width: i32,
    pub height: i32,
}

/// An axis-aligned rectangle: its top-left corner and its extent.
#[derive(Clone, Copy, Debug, PartialEq, Eq, Structural)]
pub struct Rect {
    pub x: i32,
    pub y: i32,
    pub width: i32,
    pub height: i32,
}

/// The axis along which a control lays itself out.
#[derive(Clone, Copy, Debug, PartialEq, Eq, Structural)]
pub enum Orientation {
    Horizontal,
    Vertical,
}

/// The outcome of asking a control whether a point targets it.
#[derive(Clone, Copy, Debug, PartialEq, Eq, Structural)]
pub enum HitTestResult {
    /// The point does not target the control.
    Nothing,
    /// The point targets the control itself.
    Current,
}

impl Point {
    pub fn new(x: i32, y: i32) -> (p: Point)
        ensures
            p == (Point { x, y }),
    {
        Point { x, y }
    }

    /// Whether the point lies in `rect`. The left and top edges belong to
    /// the rectangle, the right and bottom edges do not.
    pub open spec fn inside(self, rect: Rect) -> bool {
        &&& rect.x <= self.x < rect.x + rect.width
        &&& rect.y <= self.y < rect.y + rect.height
    }

    pub fn is_inside(&self, rect: &Rect) -> (r: bool)
        ensures
            r == self.inside(*rect),
    {
        let px: i64 = self.x as i64;
        let py: i64 = self.y as i64;
        let left: i64 = rect.x as i64;
        let top: i64 = rect.y as i64;
        px >= left && px < left + rect.width as i64 && py >= top && py < top + rect.height as i64
    }

    /// The point moved by `offset`, each coordinate saturating.
    pub open spec fn moved(self, offset: Point) -> Point {
        Point { x: clamp_px(self.x + offset.x) as i32, y: clamp_px(self.y + offset.y) as i32 }
    }

    pub fn translate(&self, offset: Point) -> (p: Point)
        ensures
            p == self.moved(offset),
    {
        Point { x: add_px(self.x, offset.x), y: add_px(self.y, offset.y) }
    }
}

impl Size {
    pub fn new(width: i32, height: i32) -> (s: Size)
        ensures
            s == (Size { width, height }),
    {
        Size { width, height }
    }
}

impl Rect {
    pub fn new(x: i32, y: i32, width: i32, height: i32) -> (r: Rect)
        ensures
            r == (Rect { x, y, width, height }),
    {
        Rect { x, y, width, height }
    }

    /// The rectangle of no extent at the origin.
    pub open spec fn zero() -> Rect {
        Rect { x: 0, y: 0, width: 0, height: 0 }
    }

    pub fn empty() -> (r: Rect)
        ensures
            r == Rect::zero(),
    {
        Rect { x: 0, y: 0, width: 0, height: 0 }
    }

    /// The rectangle moved by `offset`, its extent unchanged.
    pub open spec fn moved(self, offset: Point) -> Rect {
        Rect {
            x: clamp_px(self.x + offset.x) as i32,
            y: clamp_px(self.y + offset.y) as i32,
            width: self.width,
            height: self.height,
        }
    }

    pub fn translate(&self, offset: Point) -> (r: Rect)
        ensures
            r == self.moved(offset),
    {
        Rect {
            x: add_px(self.x, offset.x),
            y: add_px(self.y, offset.y),
            width: self.width,
            height: self.height,
        }
    }

    /// The rectangle shrunk by `margin` on each of its four sides.
    pub open spec fn deflated(self, margin: i32) -> Rect {
        Rect {
            x: clamp_px(self.x + margin) as i32,
            y: clamp_px(self.y + margin) as i32,
            width: clamp_px(self.width - 2 * margin) as i32,
            height: clamp_px(self.height - 2 * margin) as i32,
        }
    }

    pub fn deflate(&self, margin: i32) -> (r: Rect)
        ensures
            r == self.deflated(margin),
    {
        let both: i128 = 2 * (margin as i128);
        Rect {
            x: add_px(self.x, margin),
            y: add_px(self.y, margin),
            width: clamp_to_px(self.width as i128 - both),
            height: clamp_to_px(self.height as i128 - both),
        }
    }
}

} // verus!
