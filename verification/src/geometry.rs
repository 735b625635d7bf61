use vstd::prelude::*;

verus! {

/// The value of `v` saturated into the range of `i32`.
pub open spec fn saturate(v: int) -> int {
    if v < i32::MIN {
        i32::MIN as int
    } else if v > i32::MAX {
        i32::MAX as int
    } else {
        v
    }
}

/// Saturates a wide intermediate value into `i32`.
pub fn saturate_i64(v: i64) -> (r: i32)
    ensures
        r == saturate(v as int),
{
    if v < i32::MIN as i64 {
        i32::MIN
    } else if v > i32::MAX as i64 {
        i32::MAX
    } else {
        v as i32
    }
}

/// Adds two coordinates, saturating at the bounds of `i32`.
pub fn sat_add(a: i32, b: i32) -> (r: i32)
    ensures
        r == saturate(a + b),
{
    saturate_i64(a as i64 + b as i64)
}

/// Subtracts two coordinates, saturating at the bounds of `i32`.
pub fn sat_sub(a: i32, b: i32) -> (r: i32)
    ensures
        r == saturate(a - b),
{
    saturate_i64(a as i64 - b as i64)
}

/// A width and a height in logical pixels.
#[derive(Clone, Copy, Debug, PartialEq, Eq, Structural)]
pub struct Size {
    pub width: i32,
    pub height: i32,
}

impl Size {
    pub fn new(width: i32, height: i32) -> (s: Self)
        ensures
            s.width == width,
            s.height == height,
    {
        Size { width, height }
    }

    /// A size is empty when it has no area.
    pub open spec fn spec_is_empty(&self) -> bool {
        self.width <= 0 || self.height <= 0
    }

    #[verifier::when_used_as_spec(spec_is_empty)]
    pub fn is_empty(&self) -> (r: bool)
        ensures
            r == self.spec_is_empty(),
    {
        self.width <= 0 || self.height <= 0
    }
}

/// A position in logical pixels.
#[derive(Clone, Copy, Debug, PartialEq, Eq, Structural)]
pub struct Point {
    pub x: i32,
    pub y: i32,
}

impl Point {
    pub fn new(x: i32, y: i32) -> (p: Self)
        ensures
            p.x == x,
            p.y == y,
    {
        Point { x, y }
    }
}

/// Distances from each edge of a rectangle.
#[derive(Clone, Copy, Debug, PartialEq, Eq, Structural)]
pub struct Insets {
    pub left: i32,
    pub top: i32,
    pub right: i32,
    pub bottom: i32,
}

impl Insets {
    pub fn new(left: i32, top: i32, right: i32, bottom: i32) -> (i: Self)
        ensures
            i.left == left,
            i.top == top,
            i.right == right,
            i.bottom == bottom,
    {
        Insets { left, top, right, bottom }
    }

    pub fn all(value: i32) -> (i: Self)
        ensures
            i.left == value,
            i.top == value,
            i.right == value,
            i.bottom == value,
    {
        Insets { left: value, top: value, right: value, bottom: value }
    }
}

/// An axis-aligned rectangle: an origin and a size.
#[derive(Clone, Copy, Debug, PartialEq, Eq, Structural)]
pub struct Rect {
    pub origin: Point,
    pub size: Size,
}

impl Rect {
    pub fn new(origin: Point, size: Size) -> (r: Self)
        ensures
            r.origin == origin,
            r.size == size,
    {
        Rect { origin, size }
    }

    pub open spec fn xywh_spec(x: i32, y: i32, width: i32, height: i32) -> Rect {
        Rect { origin: Point { x, y }, size: Size { width, height } }
    }

    #[verifier::when_used_as_spec(xywh_spec)]
    pub fn xywh(x: i32, y: i32, width: i32, height: i32) -> (r: Self)
        ensures
            r == Self::xywh_spec(x, y, width, height),
    {
        Rect { origin: Point { x, y }, size: Size { width, height } }
    }

    pub fn x(&self) -> (v: i32)
        ensures
            v == self.origin.x,
    {
        self.origin.x
    }

    pub fn y(&self) -> (v: i32)
        ensures
            v == self.origin.y,
    {
        self.origin.y
    }

    pub fn width(&self) -> (v: i32)
        ensures
            v == self.size.width,
    {
        self.size.width
    }

    pub fn height(&self) -> (v: i32)
        ensures
            v == self.size.height,
    {
        self.size.height
    }

    pub open spec fn spec_right(self) -> int {
        self.origin.x + self.size.width
    }

    pub open spec fn spec_bottom(self) -> int {
        self.origin.y + self.size.height
    }

    /// The right edge, `x + width`, computed without overflow.
    pub fn right(&self) -> (v: i64)
        ensures
            v == self.spec_right(),
    {
        self.origin.x as i64 + self.size.width as i64
    }

    /// The bottom edge, `y + height`, computed without overflow.
    pub fn bottom(&self) -> (v: i64)
        ensures
            v == self.spec_bottom(),
    {
        self.origin.y as i64 + self.size.height as i64
    }

    /// Whether the point lies inside the half-open rectangle.
    pub open spec fn spec_contains(self, px: int, py: int) -> bool {
        &&& self.origin.x <= px < self.spec_right()
        &&& self.origin.y <= py < self.spec_bottom()
    }

    pub fn contains(&self, point: Point) -> (r: bool)
        ensures
            r == self.spec_contains(point.x as int, point.y as int),
    {
        (self.origin.x <= point.x && (point.x as i64) < self.right()) && (self.origin.y <= point.y
            && (point.y as i64) < self.bottom())
    }

    /// The rectangle shrunk by `insets`; width and height never go below zero.
    pub open spec fn spec_inset(self, insets: Insets) -> Rect {
        Rect {
            origin: Point {
                x: saturate(self.origin.x + insets.left) as i32,
                y: saturate(self.origin.y + insets.top) as i32,
            },
            size: Size {
                width: saturate(
                    if self.size.width - insets.left - insets.right > 0 {
                        self.size.width - insets.left - insets.right
                    } else {
                        0
                    },
                ) as i32,
                height: saturate(
                    if self.size.height - insets.top - insets.bottom > 0 {
                        self.size.height - insets.top - insets.bottom
                    } else {
                        0
                    },
                ) as i32,
            },
        }
    }

    pub fn inset(self, insets: Insets) -> (r: Rect)
        ensures
            r == self.spec_inset(insets),
    {
        let w = self.size.width as i64 - insets.left as i64 - insets.right as i64;
        let h = self.size.height as i64 - insets.top as i64 - insets.bottom as i64;
        let w = if w > 0 { w } else { 0 };
        let h = if h > 0 { h } else { 0 };
        Rect {
            origin: Point {
                x: sat_add(self.origin.x, insets.left),
                y: sat_add(self.origin.y, insets.top),
            },
            size: Size { width: saturate_i64(w), height: saturate_i64(h) },
        }
    }
}

} // verus!
