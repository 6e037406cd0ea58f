use vstd::prelude::*;

verus! {

/// An axis-aligned rectangle given by its top-left corner and its size.
#[derive(Clone, Copy, Debug, PartialEq, Eq, Structural)]
pub struct Rectangle {
    pub x: i32,
    pub y: i32,
    pub width: i32,
    pub height: i32,
}

/// A direction in the plane. Scaling both components by the same positive
/// factor scales the distance to the nearest edge inversely and leaves the
/// intercept points where they are.
#[derive(Clone, Copy, Debug, PartialEq, Eq, Structural)]
pub struct Vector {
    pub x: i32,
    pub y: i32,
}

/// A point with rational coordinates `(x / denom, y / denom)`.
#[derive(Clone, Copy, Debug, PartialEq, Eq, Structural)]
pub struct Point {
    pub x: i128,
    pub y: i128,
    pub denom: i128,
}

/// A non-negative rational distance `num / den`.
#[derive(Clone, Copy, Debug, PartialEq, Eq, Structural)]
pub struct Ratio {
    pub num: i64,
    pub den: i64,
}

/// A point of the plane with rational coordinates `(x / denom, y / denom)`.
pub struct RatPoint {
    pub x: int,
    pub y: int,
    pub denom: int,
}

impl View for Point {
    type V = RatPoint;

    open spec fn view(&self) -> RatPoint {
        RatPoint { x: self.x as int, y: self.y as int, denom: self.denom as int }
    }
}

/// The absolute value of an integer.
pub open spec fn abs(v: int) -> int {
    if v < 0 {
        -v
    } else {
        v
    }
}

/// The center of `r`, at `(x + width / 2, y + height / 2)`.
pub open spec fn center_of(r: Rectangle) -> RatPoint {
    RatPoint { x: 2 * r.x + r.width, y: 2 * r.y + r.height, denom: 2 }
}

impl Rectangle {
    /// The center of the rectangle.
    pub fn center(&self) -> (c: Point)
        ensures
            c@ == center_of(*self),
    {
        Point {
            x: 2 * (self.x as i128) + self.width as i128,
            y: 2 * (self.y as i128) + self.height as i128,
            denom: 2,
        }
    }
}

/// Whether a ray from the center along `v` reaches the top or bottom edge no
/// later than the left or right edge, that is
/// `|height| / (2 |v.y|) <= |width| / (2 |v.x|)`; a zero component of `v` never
/// reaches the edges across it.
pub open spec fn meets_top_bottom_first(r: Rectangle, v: Vector) -> bool {
    let (w, h) = (abs(r.width as int), abs(r.height as int));
    v.y != 0 && (v.x == 0 || h * abs(v.x as int) <= w * abs(v.y as int))
}

/// The distance `num / den` from the center of `r`, along `v`, to the nearest
/// edge: `|height| / (2 |v.y|)` or `|width| / (2 |v.x|)`, whichever is smaller.
pub open spec fn reach_of(r: Rectangle, v: Vector) -> (int, int) {
    if meets_top_bottom_first(r, v) {
        (abs(r.height as int), 2 * abs(v.y as int))
    } else {
        (abs(r.width as int), 2 * abs(v.x as int))
    }
}

/// The reach is no longer than the distance to either pair of edges that `v`
/// crosses, and is one of them.
pub proof fn lemma_reach_is_nearest(r: Rectangle, v: Vector)
    requires
        v.x != 0 || v.y != 0,
    ensures
        ({
            let (num, den) = reach_of(r, v);
            let (w, h) = (abs(r.width as int), abs(r.height as int));
            &&& den > 0
            &&& v.y != 0 ==> num * (2 * abs(v.y as int)) <= h * den
            &&& v.x != 0 ==> num * (2 * abs(v.x as int)) <= w * den
            &&& (num, den) == (h, 2 * abs(v.y as int)) || (num, den) == (w, 2 * abs(v.x as int))
        }),
{
    let h = abs(r.height as int);
    let w = abs(r.width as int);
    let ax = abs(v.x as int);
    let ay = abs(v.y as int);
    if meets_top_bottom_first(r, v) {
        if v.x != 0 {
            assert(h * (2 * ax) <= w * (2 * ay)) by (nonlinear_arith)
                requires
                    h * ax <= w * ay,
            ;
        }
    } else {
        if v.y != 0 {
            assert(w * (2 * ay) <= h * (2 * ax)) by (nonlinear_arith)
                requires
                    !(h * ax <= w * ay),
            ;
        }
    }
}

/// The point `c + v * (num / den)`.
pub open spec fn along(c: RatPoint, v: Vector, num: int, den: int) -> RatPoint {
    RatPoint {
        x: c.x * den + v.x * num * c.denom,
        y: c.y * den + v.y * num * c.denom,
        denom: c.denom * den,
    }
}

/// The two points where the line through the center of `r` along `v` meets the
/// boundary of `r`: the center moved by the reach along `v`, then against `v`.
pub open spec fn intercepts(r: Rectangle, v: Vector) -> (RatPoint, RatPoint) {
    let (num, den) = reach_of(r, v);
    (along(center_of(r), v, num, den), along(center_of(r), v, -num, den))
}

/// `p - c`, scaled by the positive factor `p.denom * c.denom`.
pub open spec fn scaled_offset(p: RatPoint, c: RatPoint) -> (int, int) {
    (p.x * c.denom - c.x * p.denom, p.y * c.denom - c.y * p.denom)
}

/// The two intercepts are equidistant from the center, on opposite sides of it,
/// and on the line through it along the direction: the first lies along `v`,
/// the second against it.
pub proof fn lemma_intercepts_symmetric(r: Rectangle, v: Vector)
    requires
        v.x != 0 || v.y != 0,
    ensures
        ({
            let (start, end) = intercepts(r, v);
            let c = center_of(r);
            let (sx, sy) = scaled_offset(start, c);
            let (ex, ey) = scaled_offset(end, c);
            &&& start.denom > 0
            &&& start.denom == end.denom
            &&& sx == -ex && sy == -ey
            &&& sx * v.y == sy * v.x
            &&& sx * v.x + sy * v.y >= 0
        }),
{
    let (num, den) = reach_of(r, v);
    lemma_reach_is_nearest(r, v);
    let c = center_of(r);
    let (vx, vy) = (v.x as int, v.y as int);
    let (start, end) = intercepts(r, v);
    assert(start.x * 2 - c.x * (2 * den) == 4 * vx * num) by (nonlinear_arith)
        requires
            start.x == c.x * den + vx * num * 2,
    ;
    assert(start.y * 2 - c.y * (2 * den) == 4 * vy * num) by (nonlinear_arith)
        requires
            start.y == c.y * den + vy * num * 2,
    ;
    assert(end.x * 2 - c.x * (2 * den) == -4 * vx * num) by (nonlinear_arith)
        requires
            end.x == c.x * den + vx * (-num) * 2,
    ;
    assert(end.y * 2 - c.y * (2 * den) == -4 * vy * num) by (nonlinear_arith)
        requires
            end.y == c.y * den + vy * (-num) * 2,
    ;
    assert(scaled_offset(start, c) == (4 * vx * num, 4 * vy * num));
    assert(scaled_offset(end, c) == (-4 * vx * num, -4 * vy * num));
    assert(-4 * vx * num == -(4 * vx * num) && -4 * vy * num == -(4 * vy * num)) by (
    nonlinear_arith);
    assert((4 * vx * num) * vy == (4 * vy * num) * vx) by (nonlinear_arith);
    assert((4 * vx * num) * vx + (4 * vy * num) * vy >= 0) by (nonlinear_arith)
        requires
            num >= 0,
    ;
}

/// Whether `p` lies on the boundary of `r`: within half the width of the
/// center horizontally and half the height vertically, and at one of the two
/// limits.
pub open spec fn on_boundary(p: RatPoint, r: Rectangle) -> bool {
    let (ox, oy) = scaled_offset(p, center_of(r));
    let wx = abs(r.width as int) * p.denom;
    let hy = abs(r.height as int) * p.denom;
    &&& abs(ox) <= wx
    &&& abs(oy) <= hy
    &&& (abs(ox) == wx || abs(oy) == hy)
}

/// Both intercepts lie on the boundary of the rectangle, for every shape of
/// rectangle and every direction.
pub proof fn lemma_intercepts_on_boundary(r: Rectangle, v: Vector)
    requires
        v.x != 0 || v.y != 0,
    ensures
        on_boundary(intercepts(r, v).0, r),
        on_boundary(intercepts(r, v).1, r),
{
    let (num, den) = reach_of(r, v);
    lemma_reach_is_nearest(r, v);
    lemma_intercepts_symmetric(r, v);
    let c = center_of(r);
    let (start, end) = intercepts(r, v);
    let (vx, vy) = (v.x as int, v.y as int);
    let w = abs(r.width as int);
    let h = abs(r.height as int);
    assert(start.x * 2 - c.x * (2 * den) == 4 * vx * num) by (nonlinear_arith)
        requires
            start.x == c.x * den + vx * num * 2,
    ;
    assert(start.y * 2 - c.y * (2 * den) == 4 * vy * num) by (nonlinear_arith)
        requires
            start.y == c.y * den + vy * num * 2,
    ;
    assert(scaled_offset(start, c) == (4 * vx * num, 4 * vy * num));
    assert(abs(4 * vx * num) == 2 * (2 * abs(vx) * num) && abs(4 * vy * num) == 2 * (2 * abs(vy)
        * num)) by (nonlinear_arith)
        requires
            num >= 0,
    ;
    assert(w * (2 * den) == 2 * (w * den) && h * (2 * den) == 2 * (h * den)) by (
    nonlinear_arith);
    assert(2 * abs(vx) * num <= w * den) by (nonlinear_arith)
        requires
            vx != 0 ==> num * (2 * abs(vx)) <= w * den,
            vx == 0 ==> abs(vx) == 0,
            w >= 0,
            den > 0,
    ;
    assert(2 * abs(vy) * num <= h * den) by (nonlinear_arith)
        requires
            vy != 0 ==> num * (2 * abs(vy)) <= h * den,
            vy == 0 ==> abs(vy) == 0,
            h >= 0,
            den > 0,
    ;
    assert(2 * abs(vx) * num == w * den || 2 * abs(vy) * num == h * den) by (nonlinear_arith)
        requires
            (num, den) == (h, 2 * abs(vy)) || (num, den) == (w, 2 * abs(vx)),
    ;
}

/// `|v|` of a 32-bit value, widened so that it cannot overflow.
fn abs_i64(v: i32) -> (r: i64)
    ensures
        r == abs(v as int),
{
    if v < 0 {
        -(v as i64)
    } else {
        v as i64
    }
}

impl Vector {
    /// The distance from the center of `bounds`, along this direction, to the
    /// nearest edge of `bounds`, in units of this vector's length.
    pub fn distance_to_rect(&self, bounds: &Rectangle) -> (d: Ratio)
        requires
            self.x != 0 || self.y != 0,
        ensures
            (d.num as int, d.den as int) == reach_of(*bounds, *self),
            d.den > 0,
            d.num >= 0,
    {
        let h = abs_i64(bounds.height);
        let w = abs_i64(bounds.width);
        let ax = abs_i64(self.x);
        let ay = abs_i64(self.y);
        assert(h * ax <= 0x4000_0000_0000_0000 && w * ay <= 0x4000_0000_0000_0000) by (
        nonlinear_arith)
            requires
                0 <= h <= 0x8000_0000,
                0 <= w <= 0x8000_0000,
                0 <= ax <= 0x8000_0000,
                0 <= ay <= 0x8000_0000,
        ;
        if self.y != 0 && (self.x == 0 || h * ax <= w * ay) {
            Ratio { num: h, den: 2 * ay }
        } else {
            Ratio { num: w, den: 2 * ax }
        }
    }

    /// The two points where the line through the center of `bounds`, along
    /// this direction, meets the boundary of `bounds`: the first in this
    /// direction, the second in the opposite one.
    pub fn to_distance(&self, bounds: &Rectangle) -> (r: (Point, Point))
        requires
            self.x != 0 || self.y != 0,
        ensures
            r.0@ == intercepts(*bounds, *self).0,
            r.1@ == intercepts(*bounds, *self).1,
    {
        let d = self.distance_to_rect(bounds);
        let c = bounds.center();
        let num = d.num as i128;
        let den = d.den as i128;
        let vx = self.x as i128;
        let vy = self.y as i128;
        assert(-0x4_0000_0000_0000_0000 <= c.x * den <= 0x4_0000_0000_0000_0000
            && -0x4_0000_0000_0000_0000 <= c.y * den <= 0x4_0000_0000_0000_0000) by (
        nonlinear_arith)
            requires
                -0x2_0000_0000 <= c.x <= 0x2_0000_0000,
                -0x2_0000_0000 <= c.y <= 0x2_0000_0000,
                0 < den <= 0x2_0000_0000,
        ;
        assert(-0x1_0000_0000_0000_0000 <= vx * num * 2 <= 0x1_0000_0000_0000_0000
            && -0x1_0000_0000_0000_0000 <= vy * num * 2 <= 0x1_0000_0000_0000_0000) by (
        nonlinear_arith)
            requires
                -0x8000_0000 <= vx <= 0x8000_0000,
                -0x8000_0000 <= vy <= 0x8000_0000,
                0 <= num <= 0x8000_0000,
        ;
        let ox = vx * num * c.denom;
        let oy = vy * num * c.denom;
        let start = Point { x: c.x * den + ox, y: c.y * den + oy, denom: c.denom * den };
        let end = Point { x: c.x * den - ox, y: c.y * den - oy, denom: c.denom * den };
        assert(vx * (-num) * 2 == -(vx * num * 2) && vy * (-num) * 2 == -(vy * num * 2)) by (
        nonlinear_arith);
        (start, end)
    }
}

} // verus!
