//! Which pixels a shape covers, decided exactly in integers: each pixel is tested at its
//! center, with coordinates doubled so that centers are whole numbers.

use vstd::prelude::*;
use crate::geometry::{Point, Rect};

verus! {

/// Squares a coordinate difference.
fn square(a: i128) -> (r: i128)
    requires
        -0x100_0000_0000 <= a <= 0x100_0000_0000,
    ensures
        r == a * a,
        0 <= r <= 0x1_0000_0000_0000_0000_0000,
{
    proof {
        assert(0 <= a * a <= 0x100_0000_0000 * 0x100_0000_0000) by (nonlinear_arith)
            requires
                -0x100_0000_0000 <= a <= 0x100_0000_0000,
        ;
    }
    a * a
}

/// Squares a value of up to 63 bits.
fn square_wide(a: i128) -> (r: i128)
    requires
        -0x8000_0000_0000_0000 <= a <= 0x8000_0000_0000_0000,
    ensures
        r == a * a,
        r >= 0,
{
    proof {
        assert(0 <= a * a <= 0x8000_0000_0000_0000 * 0x8000_0000_0000_0000) by (nonlinear_arith)
            requires
                -0x8000_0000_0000_0000 <= a <= 0x8000_0000_0000_0000,
        ;
    }
    a * a
}

/// Multiplies two wide values of moderate size.
fn product(a: i128, b: i128) -> (r: i128)
    requires
        -0x4000_0000_0000_0000 <= a <= 0x4000_0000_0000_0000,
        -0x4000_0000_0000_0000 <= b <= 0x4000_0000_0000_0000,
    ensures
        r == a * b,
        -0x4000_0000_0000_0000 * 0x4000_0000_0000_0000 <= r <= 0x4000_0000_0000_0000 * 0x4000_0000_0000_0000,
{
    proof {
        assert(-0x4000_0000_0000_0000 * 0x4000_0000_0000_0000 <= a * b <= 0x4000_0000_0000_0000
            * 0x4000_0000_0000_0000) by (nonlinear_arith)
            requires
                -0x4000_0000_0000_0000 <= a <= 0x4000_0000_0000_0000,
                -0x4000_0000_0000_0000 <= b <= 0x4000_0000_0000_0000,
        ;
    }
    a * b
}

/// Whether the pixel at column `x` and row `y` has its center inside a rectangle whose
/// corners are rounded with radius `r2 / 2` (coordinates doubled, so centers are whole).
pub open spec fn spec_round_rect_covers(rect: Rect, r2: int, x: int, y: int) -> bool {
    let px = 2 * x + 1;
    let py = 2 * y + 1;
    let l = 2 * rect.origin.x;
    let r = 2 * rect.spec_right();
    let t = 2 * rect.origin.y;
    let b = 2 * rect.spec_bottom();
    if px < l || px > r || py < t || py > b {
        false
    } else if r2 <= 0 {
        true
    } else {
        let il = l + r2;
        let ir = r - r2;
        let it = t + r2;
        let ib = b - r2;
        if (il <= px && px <= ir) || (it <= py && py <= ib) {
            true
        } else {
            let cx = if px < il {
                il
            } else {
                ir
            };
            let cy = if py < it {
                it
            } else {
                ib
            };
            (px - cx) * (px - cx) + (py - cy) * (py - cy) <= r2 * r2
        }
    }
}

/// Whether the pixel's center lies in the disc of radius `radius` around `center`.
pub open spec fn spec_circle_covers(center: Point, radius: int, x: int, y: int) -> bool {
    let dx = 2 * x + 1 - 2 * center.x;
    let dy = 2 * y + 1 - 2 * center.y;
    dx * dx + dy * dy <= 4 * radius * radius
}

/// Whether the pixel's center lies in the axis-aligned ellipse with the given radii.
pub open spec fn spec_ellipse_covers(center: Point, rx: int, ry: int, x: int, y: int) -> bool {
    let dx = 2 * x + 1 - 2 * center.x;
    let dy = 2 * y + 1 - 2 * center.y;
    dx * dx * (ry * ry) + dy * dy * (rx * rx) <= 4 * (rx * rx) * (ry * ry)
}

/// Whether the pixel's center lies within `width / 2` of the segment from `start` to `end`:
/// the distance is taken to the nearer end where the center projects outside the segment,
/// and to the segment's line otherwise.
pub open spec fn spec_line_covers(start: Point, end: Point, width: int, x: int, y: int) -> bool {
    let px = 2 * x + 1;
    let py = 2 * y + 1;
    let ax = 2 * start.x;
    let ay = 2 * start.y;
    let bx = 2 * end.x;
    let by = 2 * end.y;
    let dx = bx - ax;
    let dy = by - ay;
    let len2 = dx * dx + dy * dy;
    let vx = px - ax;
    let vy = py - ay;
    let dot = vx * dx + vy * dy;
    if len2 == 0 || dot <= 0 {
        vx * vx + vy * vy <= width * width
    } else if dot >= len2 {
        (px - bx) * (px - bx) + (py - by) * (py - by) <= width * width
    } else {
        let cross = vx * dy - vy * dx;
        cross * cross <= width * width * len2
    }
}

/// Which pixels of a painted region a shape covers, tested at each pixel's center.
#[derive(Clone, Copy, Debug, PartialEq, Eq, Structural)]
pub enum Coverage {
    /// Every pixel of the region.
    Full,
    /// A rectangle with rounded corners; `radius2` is twice the corner radius.
    RoundRect { rect: Rect, radius2: i64 },
    Circle { center: Point, radius: i32 },
    Ellipse { center: Point, radius_x: i32, radius_y: i32 },
    /// A segment stroked `width` pixels wide.
    Line { start: Point, end: Point, width: i32 },
}

impl Coverage {
    pub open spec fn spec_covers(self, x: int, y: int) -> bool {
        match self {
            Coverage::Full => true,
            Coverage::RoundRect { rect, radius2 } => spec_round_rect_covers(rect, radius2 as int, x, y),
            Coverage::Circle { center, radius } => spec_circle_covers(center, radius as int, x, y),
            Coverage::Ellipse { center, radius_x, radius_y } => spec_ellipse_covers(
                center,
                radius_x as int,
                radius_y as int,
                x,
                y,
            ),
            Coverage::Line { start, end, width } => spec_line_covers(start, end, width as int, x, y),
        }
    }

    /// Shapes whose exact test is carried out below.
    pub open spec fn well_formed(self) -> bool {
        match self {
            Coverage::RoundRect { rect, radius2 } => 0 <= radius2 <= 0x1_0000_0000,
            Coverage::Ellipse { radius_x, radius_y, .. } => radius_x >= 1 && radius_y >= 1,
            Coverage::Line { width, .. } => width >= 1,
            _ => true,
        }
    }

    pub fn covers(&self, x: i64, y: i64) -> (r: bool)
        requires
            self.well_formed(),
            0 <= x <= u32::MAX,
            0 <= y <= u32::MAX,
        ensures
            r == self.spec_covers(x as int, y as int),
    {
        match *self {
            Coverage::Full => true,
            Coverage::RoundRect { rect, radius2 } => round_rect_covers(rect, radius2, x, y),
            Coverage::Circle { center, radius } => circle_covers(center, radius, x, y),
            Coverage::Ellipse { center, radius_x, radius_y } => ellipse_covers(
                center,
                radius_x,
                radius_y,
                x,
                y,
            ),
            Coverage::Line { start, end, width } => line_covers(start, end, width, x, y),
        }
    }
}

fn round_rect_covers(rect: Rect, r2: i64, x: i64, y: i64) -> (r: bool)
    requires
        0 <= r2 <= 0x1_0000_0000,
        0 <= x <= u32::MAX,
        0 <= y <= u32::MAX,
    ensures
        r == spec_round_rect_covers(rect, r2 as int, x as int, y as int),
{
    let px = 2 * x as i128 + 1;
    let py = 2 * y as i128 + 1;
    let l = 2 * rect.x() as i128;
    let rr = 2 * rect.right() as i128;
    let t = 2 * rect.y() as i128;
    let b = 2 * rect.bottom() as i128;
    let r2 = r2 as i128;
    if px < l || px > rr || py < t || py > b {
        return false;
    }
    if r2 <= 0 {
        return true;
    }
    let il = l + r2;
    let ir = rr - r2;
    let it = t + r2;
    let ib = b - r2;
    if (il <= px && px <= ir) || (it <= py && py <= ib) {
        return true;
    }
    let cx = if px < il {
        il
    } else {
        ir
    };
    let cy = if py < it {
        it
    } else {
        ib
    };
    square(px - cx) + square(py - cy) <= square(r2)
}

fn circle_covers(center: Point, radius: i32, x: i64, y: i64) -> (r: bool)
    requires
        0 <= x <= u32::MAX,
        0 <= y <= u32::MAX,
    ensures
        r == spec_circle_covers(center, radius as int, x as int, y as int),
{
    let dx = 2 * x as i128 + 1 - 2 * center.x as i128;
    let dy = 2 * y as i128 + 1 - 2 * center.y as i128;
    let rr = 2 * radius as i128;
    proof {
        assert(4 * radius * radius == rr * rr) by (nonlinear_arith)
            requires
                rr == 2 * radius,
        ;
    }
    square(dx) + square(dy) <= square(rr)
}

fn ellipse_covers(center: Point, rx: i32, ry: i32, x: i64, y: i64) -> (r: bool)
    requires
        rx >= 1,
        ry >= 1,
        0 <= x <= u32::MAX,
        0 <= y <= u32::MAX,
    ensures
        r == spec_ellipse_covers(center, rx as int, ry as int, x as int, y as int),
{
    let dx = 2 * x as i128 + 1 - 2 * center.x as i128;
    let dy = 2 * y as i128 + 1 - 2 * center.y as i128;
    let rx = rx as i128;
    let ry = ry as i128;
    let adx = if dx < 0 { -dx } else { dx };
    let ady = if dy < 0 { -dy } else { dy };
    if adx > 2 * rx || ady > 2 * ry {
        proof {
            lemma_ellipse_outside(dx as int, dy as int, rx as int, ry as int);
        }
        return false;
    }
    proof {
        assert(rx * ry < 0x4000_0000_0000_0000) by (nonlinear_arith)
            requires
                1 <= rx < 0x8000_0000,
                1 <= ry < 0x8000_0000,
        ;
    }
    let tx = product(dx, ry);
    let ty = product(dy, rx);
    proof {
        assert(-0x8000_0000_0000_0000 <= tx <= 0x8000_0000_0000_0000) by (nonlinear_arith)
            requires
                tx == dx * ry,
                -2 * rx <= dx <= 2 * rx,
                1 <= rx < 0x8000_0000,
                1 <= ry < 0x8000_0000,
        ;
        assert(-0x8000_0000_0000_0000 <= ty <= 0x8000_0000_0000_0000) by (nonlinear_arith)
            requires
                ty == dy * rx,
                -2 * ry <= dy <= 2 * ry,
                1 <= rx < 0x8000_0000,
                1 <= ry < 0x8000_0000,
        ;
    }
    let rxy = 2 * product(rx, ry);
    proof {
        assert(tx * tx == dx * dx * (ry * ry) && ty * ty == dy * dy * (rx * rx) && rxy * rxy == 4 * (
        rx * rx) * (ry * ry)) by (nonlinear_arith)
            requires
                tx == dx * ry,
                ty == dy * rx,
                rxy == 2 * (rx * ry),
        ;
        assert(tx * tx <= rxy * rxy && ty * ty <= rxy * rxy) by (nonlinear_arith)
            requires
                tx == dx * ry,
                ty == dy * rx,
                rxy == 2 * (rx * ry),
                -2 * rx <= dx <= 2 * rx,
                -2 * ry <= dy <= 2 * ry,
                rx >= 0,
                ry >= 0,
        ;
    }
    proof {
        assert(rxy * rxy < 0x4000_0000_0000_0000_0000_0000_0000_0000) by (nonlinear_arith)
            requires
                rxy == 2 * (rx * ry),
                1 <= rx < 0x8000_0000,
                1 <= ry < 0x8000_0000,
        ;
    }
    square_wide(tx) + square_wide(ty) <= square_wide(rxy)
}

proof fn lemma_ellipse_outside(dx: int, dy: int, rx: int, ry: int)
    requires
        dx > 2 * rx || -dx > 2 * rx || dy > 2 * ry || -dy > 2 * ry,
        rx >= 1,
        ry >= 1,
    ensures
        !(dx * dx * (ry * ry) + dy * dy * (rx * rx) <= 4 * (rx * rx) * (ry * ry)),
{
    assert(dx * dx * (ry * ry) >= 0 && dy * dy * (rx * rx) >= 0) by (nonlinear_arith);
    if dx > 2 * rx || -dx > 2 * rx {
        assert(dx * dx > 4 * (rx * rx)) by (nonlinear_arith)
            requires
                dx > 2 * rx || -dx > 2 * rx,
                rx >= 1,
        ;
        assert(dx * dx * (ry * ry) > 4 * (rx * rx) * (ry * ry)) by (nonlinear_arith)
            requires
                dx * dx > 4 * (rx * rx),
                ry >= 1,
        ;
    } else {
        assert(dy * dy > 4 * (ry * ry)) by (nonlinear_arith)
            requires
                dy > 2 * ry || -dy > 2 * ry,
                ry >= 1,
        ;
        assert(dy * dy * (rx * rx) > 4 * (rx * rx) * (ry * ry)) by (nonlinear_arith)
            requires
                dy * dy > 4 * (ry * ry),
                rx >= 1,
        ;
    }
}

fn line_covers(start: Point, end: Point, width: i32, x: i64, y: i64) -> (r: bool)
    requires
        width >= 1,
        0 <= x <= u32::MAX,
        0 <= y <= u32::MAX,
    ensures
        r == spec_line_covers(start, end, width as int, x as int, y as int),
{
    let px = 2 * x as i128 + 1;
    let py = 2 * y as i128 + 1;
    let ax = 2 * start.x as i128;
    let ay = 2 * start.y as i128;
    let bx = 2 * end.x as i128;
    let by = 2 * end.y as i128;
    let dx = bx - ax;
    let dy = by - ay;
    let len2 = square(dx) + square(dy);
    let vx = px - ax;
    let vy = py - ay;
    let ww = square(width as i128);
    let dot = product(vx, dx) + product(vy, dy);
    if len2 == 0 || dot <= 0 {
        return square(vx) + square(vy) <= ww;
    }
    if dot >= len2 {
        return square(px - bx) + square(py - by) <= ww;
    }
    let cross = product(vx, dy) - product(vy, dx);
    let a = if cross < 0 {
        -cross
    } else {
        cross
    };
    proof {
        assert(a * a == cross * cross) by (nonlinear_arith)
            requires
                a == cross || a == -cross,
        ;
        assert(len2 < 0x10_0000_0000_0000_0000) by (nonlinear_arith)
            requires
                len2 == dx * dx + dy * dy,
                -0x2_0000_0000 <= dx <= 0x2_0000_0000,
                -0x2_0000_0000 <= dy <= 0x2_0000_0000,
        ;
        assert(-0x10_0000_0000_0000_0000 <= cross <= 0x10_0000_0000_0000_0000) by (nonlinear_arith)
            requires
                cross == vx * dy - vy * dx,
                -0x4_0000_0000 <= vx <= 0x4_0000_0000,
                -0x4_0000_0000 <= vy <= 0x4_0000_0000,
                -0x2_0000_0000 <= dx <= 0x2_0000_0000,
                -0x2_0000_0000 <= dy <= 0x2_0000_0000,
        ;
    }
    within_scaled(a, width as i128, len2)
}

/// Whether `a * a <= w * w * l`, decided without forming either side: with `a = q * w + rem`,
/// the comparison only needs `q` against the square root of `l`.
fn within_scaled(a: i128, w: i128, l: i128) -> (r: bool)
    requires
        0 <= a < 0x40_0000_0000_0000_0000,
        1 <= w < 0x8000_0000,
        0 <= l < 0x10_0000_0000_0000_0000,
    ensures
        r == (a * a <= w * w * l),
{
    let q = a / w;
    let rem = a % w;
    proof {
        vstd::arithmetic::div_mod::lemma_fundamental_div_mod(a as int, w as int);
    }
    proof {
        assert(a >= q * w) by (nonlinear_arith)
            requires
                a == w * q + rem,
                rem >= 0,
        ;
    }
    if q >= 0x4_0000_0000 {
        proof {
            assert(q * q >= 0x4_0000_0000 * 0x4_0000_0000) by (nonlinear_arith)
                requires
                    q >= 0x4_0000_0000,
            ;
            lemma_scaled_too_far(a as int, w as int, l as int, q as int);
        }
        return false;
    }
    let m = l - square(q);
    if m < 0 {
        proof {
            lemma_scaled_too_far(a as int, w as int, l as int, q as int);
        }
        return false;
    }
    if m > 2 * q {
        proof {
            assert((q + 1) * (q + 1) == q * q + 2 * q + 1) by (nonlinear_arith);
            lemma_scaled_close(a as int, w as int, l as int, q as int, rem as int);
        }
        return true;
    }
    proof {
        assert(rem * (2 * (q * w) + rem) <= 0x1_0000_0000 * 0x1_0000_0000_0000_0000_0000) by (nonlinear_arith)
            requires
                0 <= rem < w < 0x8000_0000,
                0 <= q < 0x4_0000_0000,
        ;
        assert(w * w * m <= 0x4000_0000_0000_0000 * 0x10_0000_0000) by (nonlinear_arith)
            requires
                1 <= w < 0x8000_0000,
                0 <= m <= 2 * q,
                0 <= q < 0x4_0000_0000,
        ;
        assert((a * a <= w * w * l) == (rem * (2 * (q * w) + rem) <= w * w * m)) by (nonlinear_arith)
            requires
                a == w * q + rem,
                m == l - q * q,
        ;
    }
    let qw = product(q, w);
    let ww = square(w);
    rem * (2 * qw + rem) <= ww * m
}

proof fn lemma_scaled_too_far(a: int, w: int, l: int, q: int)
    requires
        w >= 1,
        a >= q * w,
        q >= 0,
        q * q > l,
    ensures
        !(a * a <= w * w * l),
{
    assert(a * a >= q * q * (w * w)) by (nonlinear_arith)
        requires
            a >= q * w,
            q >= 0,
            w >= 1,
    ;
    assert(q * q * (w * w) > l * (w * w)) by (nonlinear_arith)
        requires
            q * q > l,
            w >= 1,
    ;
    assert(w * w * l == l * (w * w)) by (nonlinear_arith);
}

proof fn lemma_scaled_close(a: int, w: int, l: int, q: int, rem: int)
    requires
        w >= 1,
        a == w * q + rem,
        0 <= rem < w,
        q >= 0,
        (q + 1) * (q + 1) <= l,
    ensures
        a * a <= w * w * l,
{
    assert(0 <= a < w * (q + 1)) by (nonlinear_arith)
        requires
            a == w * q + rem,
            0 <= rem < w,
            q >= 0,
            w >= 1,
    ;
    assert(a * a <= (w * (q + 1)) * (w * (q + 1))) by (nonlinear_arith)
        requires
            0 <= a < w * (q + 1),
    ;
    assert((w * (q + 1)) * (w * (q + 1)) == w * w * ((q + 1) * (q + 1))) by (nonlinear_arith);
    assert(w * w * ((q + 1) * (q + 1)) <= w * w * l) by (nonlinear_arith)
        requires
            (q + 1) * (q + 1) <= l,
            w >= 1,
    ;
}

} // verus!
