//! Integer geometry: points, rounding division, and the zoom-and-pan transform
//! between canvas space and screen space.
//!
//! Coordinates are whole numbers of [`UNITS_PER_PIXEL`]ths of a pixel. A zoom
//! factor is a whole number of [`ZOOM_UNIT`]ths, so `ZOOM_UNIT` itself is the
//! identity zoom.

use vstd::prelude::*;

verus! {

/// How many coordinate units make one pixel on screen.
pub const UNITS_PER_PIXEL: u32 = 64;

/// The zoom value that stands for the factor one.
pub const ZOOM_UNIT: u32 = 1000;

/// A position, in canvas space or in screen space.
#[derive(Clone, Copy, Debug, PartialEq, Eq, Structural)]
pub struct Point {
    pub x: i32,
    pub y: i32,
}

/// A displacement in screen space: the pan of the view.
#[derive(Clone, Copy, Debug, PartialEq, Eq, Structural)]
pub struct Offset {
    pub dx: i32,
    pub dy: i32,
}

/// The quotient `num / den` rounded to the nearest integer, halves away from
/// zero.
#[verifier::inline]
pub open spec fn round_div(num: int, den: int) -> int
    recommends
        den > 0,
{
    if num >= 0 {
        (2 * num + den) / (2 * den)
    } else {
        -((2 * (-num) + den) / (2 * den))
    }
}

/// The coordinate nearest to `v` that a point can hold.
#[verifier::inline]
pub open spec fn clamp_coord(v: int) -> int {
    if v < i32::MIN {
        i32::MIN as int
    } else if v > i32::MAX {
        i32::MAX as int
    } else {
        v
    }
}

/// The length nearest to `v` that a stroke width can hold.
#[verifier::inline]
pub open spec fn clamp_length(v: int) -> int {
    if v < 0 {
        0
    } else if v > u32::MAX {
        u32::MAX as int
    } else {
        v
    }
}

/// A canvas length multiplied by the zoom factor.
#[verifier::inline]
pub open spec fn scaled(v: int, zoom: int) -> int {
    round_div(v * zoom, ZOOM_UNIT as int)
}

/// A screen length divided by the zoom factor.
#[verifier::inline]
pub open spec fn unscaled(v: int, zoom: int) -> int
    recommends
        zoom > 0,
{
    round_div(v * ZOOM_UNIT, zoom)
}

/// One coordinate of the canvas-to-screen transform: `canvas * zoom + pan`.
#[verifier::inline]
pub open spec fn to_screen_coord(c: int, zoom: int, pan: int) -> int {
    clamp_coord(scaled(c, zoom) + pan)
}

/// One coordinate of the screen-to-canvas transform: `(screen - pan) / zoom`.
#[verifier::inline]
pub open spec fn to_canvas_coord(s: int, zoom: int, pan: int) -> int
    recommends
        zoom > 0,
{
    clamp_coord(unscaled(s - pan, zoom))
}

/// Whether `v` is a coordinate that a point can hold.
pub open spec fn in_range(v: int) -> bool {
    i32::MIN <= v <= i32::MAX
}

/// Whether `canvas * zoom + pan` lies within the coordinate range, so that
/// `canvas_to_screen` does not have to saturate.
pub open spec fn stays_in_range(p: Point, zoom: u32, pan: Offset) -> bool {
    &&& in_range(scaled(p.x as int, zoom as int) + pan.dx)
    &&& in_range(scaled(p.y as int, zoom as int) + pan.dy)
}

/// The screen position of a canvas position.
#[verifier::inline]
pub open spec fn spec_canvas_to_screen(p: Point, zoom: u32, pan: Offset) -> Point {
    Point {
        x: to_screen_coord(p.x as int, zoom as int, pan.dx as int) as i32,
        y: to_screen_coord(p.y as int, zoom as int, pan.dy as int) as i32,
    }
}

/// The canvas position of a screen position.
#[verifier::inline]
pub open spec fn spec_screen_to_canvas(s: Point, zoom: u32, pan: Offset) -> Point
    recommends
        zoom > 0,
{
    Point {
        x: to_canvas_coord(s.x as int, zoom as int, pan.dx as int) as i32,
        y: to_canvas_coord(s.y as int, zoom as int, pan.dy as int) as i32,
    }
}

/// A canvas length on screen.
#[verifier::inline]
pub open spec fn spec_scale_length(len: u64, zoom: u32) -> u32 {
    clamp_length(scaled(len as int, zoom as int)) as u32
}

/// A product is bounded by the product of the bounds of its factors.
pub proof fn lemma_product_bound(a: int, b: int, bound_a: int, bound_b: int)
    by (nonlinear_arith)
    requires
        -bound_a <= a <= bound_a,
        0 <= b <= bound_b,
    ensures
        -(bound_a * bound_b) <= a * b <= bound_a * bound_b,
{
}

/// What defines `round_div`: twice the numerator lies within one denominator of
/// twice the denominator times the quotient. The quotient has the sign of the
/// numerator and is no larger in magnitude.
pub proof fn lemma_round_div_bounds(num: int, den: int)
    requires
        den > 0,
    ensures
        num >= 0 ==> 2 * den * round_div(num, den) <= 2 * num + den < 2 * den * round_div(
            num,
            den,
        ) + 2 * den,
        num <= 0 ==> 2 * den * round_div(num, den) - 2 * den < 2 * num - den <= 2 * den
            * round_div(num, den),
        num >= 0 ==> 0 <= round_div(num, den) <= num,
        num <= 0 ==> num <= round_div(num, den) <= 0,
{
    let m = if num >= 0 { num } else { -num };
    let q = (2 * m + den) / (2 * den);
    assert(2 * den * q <= 2 * m + den < 2 * den * q + 2 * den && 0 <= q <= m)
        by (nonlinear_arith)
        requires
            den > 0,
            m >= 0,
            q == (2 * m + den) / (2 * den),
    ;
    if num <= 0 {
        let r = round_div(num, den);
        assert(2 * den * r - 2 * den < 2 * num - den <= 2 * den * r) by (nonlinear_arith)
            requires
                r == -q,
                m == -num,
                2 * den * q <= 2 * m + den < 2 * den * q + 2 * den,
        ;
    }
}

/// A quotient of a numerator between `den * lo` and `den * hi` lies between
/// `lo` and `hi`.
pub proof fn lemma_round_div_between(num: int, den: int, lo: int, hi: int)
    requires
        den > 0,
        den * lo <= num <= den * hi,
    ensures
        lo <= round_div(num, den) <= hi,
{
    lemma_round_div_bounds(num, den);
    let q = round_div(num, den);
    if num >= 0 {
        assert(lo <= q <= hi) by (nonlinear_arith)
            requires
                den > 0,
                den * lo <= num <= den * hi,
                2 * den * q <= 2 * num + den < 2 * den * q + 2 * den,
        ;
    } else {
        assert(lo <= q <= hi) by (nonlinear_arith)
            requires
                den > 0,
                den * lo <= num <= den * hi,
                2 * den * q - 2 * den < 2 * num - den <= 2 * den * q,
        ;
    }
}

/// The largest magnitude that `div_round` takes: with it, twice the numerator
/// plus the denominator still fits the machine integer.
pub const DIV_ROUND_LIMIT: i128 = 0x1000_0000_0000_0000_0000_0000_0000_0000;

/// Computes `round_div` on machine integers.
pub fn div_round(num: i128, den: i128) -> (q: i128)
    requires
        0 < den <= DIV_ROUND_LIMIT,
        -DIV_ROUND_LIMIT <= num <= DIV_ROUND_LIMIT,
    ensures
        q == round_div(num as int, den as int),
{
    if num >= 0 {
        (2 * num + den) / (2 * den)
    } else {
        -((2 * (-num) + den) / (2 * den))
    }
}

/// Brings a wide intermediate value back into the coordinate range.
pub fn saturate_coord(v: i128) -> (c: i32)
    ensures
        c == clamp_coord(v as int),
{
    if v < -0x8000_0000 {
        i32::MIN
    } else if v > 0x7fff_ffff {
        i32::MAX
    } else {
        v as i32
    }
}

/// Maps a canvas position to the screen: `screen = canvas * zoom + pan`, each
/// coordinate rounded to the nearest unit and kept within the coordinate range.
#[verifier::when_used_as_spec(spec_canvas_to_screen)]
pub fn canvas_to_screen(p: Point, zoom: u32, pan: Offset) -> (s: Point)
    ensures
        s == spec_canvas_to_screen(p, zoom, pan),
{
    proof {
        lemma_product_bound(p.x as int, zoom as int, 0x8000_0000, 0xffff_ffff);
        lemma_product_bound(p.y as int, zoom as int, 0x8000_0000, 0xffff_ffff);
        lemma_round_div_bounds(p.x * zoom, ZOOM_UNIT as int);
        lemma_round_div_bounds(p.y * zoom, ZOOM_UNIT as int);
    }
    let sx: i128 = div_round(p.x as i128 * zoom as i128, ZOOM_UNIT as i128) + pan.dx as i128;
    let sy: i128 = div_round(p.y as i128 * zoom as i128, ZOOM_UNIT as i128) + pan.dy as i128;
    Point { x: saturate_coord(sx), y: saturate_coord(sy) }
}

/// Maps a screen position to the canvas: `canvas = (screen - pan) / zoom`, each
/// coordinate rounded to the nearest unit and kept within the coordinate range.
#[verifier::when_used_as_spec(spec_screen_to_canvas)]
pub fn screen_to_canvas(s: Point, zoom: u32, pan: Offset) -> (p: Point)
    requires
        zoom > 0,
    ensures
        p == spec_screen_to_canvas(s, zoom, pan),
{
    proof {
        lemma_product_bound(s.x - pan.dx, ZOOM_UNIT as int, 0xffff_ffff, 1000);
        lemma_product_bound(s.y - pan.dy, ZOOM_UNIT as int, 0xffff_ffff, 1000);
    }
    let cx: i128 = div_round((s.x as i128 - pan.dx as i128) * ZOOM_UNIT as i128, zoom as i128);
    let cy: i128 = div_round((s.y as i128 - pan.dy as i128) * ZOOM_UNIT as i128, zoom as i128);
    Point { x: saturate_coord(cx), y: saturate_coord(cy) }
}

/// Scales a canvas length, such as a stroke width or a radius, by the zoom
/// factor: `length * zoom`, rounded to the nearest unit and kept within the
/// range of a screen length.
#[verifier::when_used_as_spec(spec_scale_length)]
pub fn scale_length(len: u64, zoom: u32) -> (r: u32)
    ensures
        r == spec_scale_length(len, zoom),
{
    proof {
        lemma_product_bound(len as int, zoom as int, 0xffff_ffff_ffff_ffff, 0xffff_ffff);
        lemma_round_div_bounds(len * zoom, ZOOM_UNIT as int);
    }
    let wide: i128 = div_round(len as i128 * zoom as i128, ZOOM_UNIT as i128);
    if wide > 0xffff_ffff {
        u32::MAX
    } else {
        wide as u32
    }
}

/// Whether `r` is the square root of `n`, rounded down.
pub open spec fn is_floor_sqrt(r: int, n: int) -> bool {
    0 <= r && r * r <= n < (r + 1) * (r + 1)
}

/// The square root of `n`, rounded down.
pub open spec fn floor_sqrt(n: int) -> int
    recommends
        n >= 0,
{
    choose|r: int| is_floor_sqrt(r, n)
}

/// Squaring keeps the order of numbers that are not negative.
proof fn lemma_square_monotone(a: int, b: int)
    by (nonlinear_arith)
    requires
        0 <= a <= b,
    ensures
        a * a <= b * b,
{
}

/// A square is not negative, and bounded by the square of a bound.
proof fn lemma_square_bound(a: int, bound: int)
    by (nonlinear_arith)
    requires
        -bound <= a <= bound,
    ensures
        0 <= a * a <= bound * bound,
{
}

/// A number has one rounded-down square root, and `floor_sqrt` is it.
pub proof fn lemma_floor_sqrt_unique(r: int, n: int)
    requires
        is_floor_sqrt(r, n),
    ensures
        floor_sqrt(n) == r,
{
    let s = floor_sqrt(n);
    assert(is_floor_sqrt(s, n));
    if s < r {
        lemma_square_monotone(s + 1, r);
    }
    if r < s {
        lemma_square_monotone(r + 1, s);
    }
}

/// The square root of a machine integer, rounded down.
pub open spec fn spec_isqrt(n: u128) -> u64 {
    floor_sqrt(n as int) as u64
}

/// Computes the square root of `n`, rounded down, by bisection.
#[verifier::when_used_as_spec(spec_isqrt)]
pub fn isqrt(n: u128) -> (r: u64)
    ensures
        r == floor_sqrt(n as int),
{
    let mut lo: u128 = 0;
    let mut hi: u128 = 0x1_0000_0000_0000_0000;
    assert(n < hi * hi) by (nonlinear_arith)
        requires
            hi == 0x1_0000_0000_0000_0000,
            n <= u128::MAX,
    ;
    assert(lo * lo <= n) by (nonlinear_arith)
        requires
            lo == 0,
            n >= 0,
    ;
    while hi - lo > 1
        invariant
            lo < hi <= 0x1_0000_0000_0000_0000,
            lo * lo <= n < hi * hi,
        decreases hi - lo,
    {
        let mid: u128 = lo + (hi - lo) / 2;
        proof {
            lemma_square_bound(mid as int, 0xffff_ffff_ffff_ffff);
        }
        if mid * mid <= n {
            lo = mid;
        } else {
            hi = mid;
        }
    }
    proof {
        assert(hi == lo + 1);
        lemma_floor_sqrt_unique(lo as int, n as int);
    }
    lo as u64
}

/// The distance between two points, rounded down to a whole unit.
pub open spec fn spec_distance(a: Point, b: Point) -> u64 {
    floor_sqrt((a.x - b.x) * (a.x - b.x) + (a.y - b.y) * (a.y - b.y)) as u64
}

/// Computes the distance between two points, rounded down to a whole unit.
#[verifier::when_used_as_spec(spec_distance)]
pub fn distance(a: Point, b: Point) -> (d: u64)
    ensures
        d == spec_distance(a, b),
{
    let dx: i128 = a.x as i128 - b.x as i128;
    let dy: i128 = a.y as i128 - b.y as i128;
    proof {
        lemma_square_bound(dx as int, 0xffff_ffff);
        lemma_square_bound(dy as int, 0xffff_ffff);
    }
    isqrt((dx * dx + dy * dy) as u128)
}

/// The corner of the upright rectangle spanned by `a` and `b` that has the
/// least coordinates.
pub open spec fn spec_least_corner(a: Point, b: Point) -> Point {
    Point { x: if a.x <= b.x { a.x } else { b.x }, y: if a.y <= b.y { a.y } else { b.y } }
}

/// The corner of the upright rectangle spanned by `a` and `b` that has the
/// greatest coordinates.
pub open spec fn spec_greatest_corner(a: Point, b: Point) -> Point {
    Point { x: if a.x >= b.x { a.x } else { b.x }, y: if a.y >= b.y { a.y } else { b.y } }
}

/// Computes the corner with the least coordinates of the upright rectangle
/// spanned by two points.
#[verifier::when_used_as_spec(spec_least_corner)]
pub fn least_corner(a: Point, b: Point) -> (c: Point)
    ensures
        c == spec_least_corner(a, b),
{
    Point { x: if a.x <= b.x { a.x } else { b.x }, y: if a.y <= b.y { a.y } else { b.y } }
}

/// Computes the corner with the greatest coordinates of the upright rectangle
/// spanned by two points.
#[verifier::when_used_as_spec(spec_greatest_corner)]
pub fn greatest_corner(a: Point, b: Point) -> (c: Point)
    ensures
        c == spec_greatest_corner(a, b),
{
    Point { x: if a.x >= b.x { a.x } else { b.x }, y: if a.y >= b.y { a.y } else { b.y } }
}

/// Every point of a list mapped to the screen, in order.
pub open spec fn spec_project(points: Seq<Point>, zoom: u32, pan: Offset) -> Seq<Point> {
    points.map_values(|p: Point| canvas_to_screen(p, zoom, pan))
}

/// Maps every point of a list of canvas positions to the screen.
pub fn project(points: &Vec<Point>, zoom: u32, pan: Offset) -> (screen: Vec<Point>)
    ensures
        screen@ == spec_project(points@, zoom, pan),
{
    let mut screen: Vec<Point> = Vec::new();
    let mut i: usize = 0;
    while i < points.len()
        invariant
            i <= points.len(),
            screen@ == spec_project(points@.take(i as int), zoom, pan),
        decreases points.len() - i,
    {
        screen.push(canvas_to_screen(points[i], zoom, pan));
        i = i + 1;
        assert(screen@ =~= spec_project(points@.take(i as int), zoom, pan));
    }
    assert(points@.take(i as int) =~= points@);
    screen
}

/// The distance between two coordinates.
pub open spec fn gap(a: int, b: int) -> int {
    if a >= b {
        a - b
    } else {
        b - a
    }
}

/// Scaling a length by a zoom factor and back moves it by at most
/// `1/2 + ZOOM_UNIT / (2 * zoom)`, and not at all when the zoom factor is one
/// or more.
pub proof fn lemma_scale_round_trip(c: int, zoom: int)
    requires
        zoom > 0,
    ensures
        2 * zoom * gap(unscaled(scaled(c, zoom), zoom), c) <= ZOOM_UNIT + zoom,
        zoom >= ZOOM_UNIT ==> unscaled(scaled(c, zoom), zoom) == c,
{
    let unit = ZOOM_UNIT as int;
    let q = scaled(c, zoom);
    let r = unscaled(q, zoom);
    lemma_round_div_bounds(c * zoom, unit);
    lemma_round_div_bounds(q * unit, zoom);
    if c >= 0 {
        assert(c * zoom >= 0) by (nonlinear_arith)
            requires
                c >= 0,
                zoom > 0,
        ;
        assert(q * unit >= 0) by (nonlinear_arith)
            requires
                q >= 0,
                unit > 0,
        ;
        assert(2 * zoom * gap(r, c) <= unit + zoom && (zoom >= unit ==> r == c))
            by (nonlinear_arith)
            requires
                zoom > 0,
                unit > 0,
                2 * unit * q <= 2 * (c * zoom) + unit < 2 * unit * q + 2 * unit,
                2 * zoom * r <= 2 * (q * unit) + zoom < 2 * zoom * r + 2 * zoom,
                gap(r, c) == if r >= c { r - c } else { c - r },
        ;
    } else {
        assert(c * zoom <= 0) by (nonlinear_arith)
            requires
                c <= 0,
                zoom > 0,
        ;
        assert(q * unit <= 0) by (nonlinear_arith)
            requires
                q <= 0,
                unit > 0,
        ;
        assert(2 * zoom * gap(r, c) <= unit + zoom && (zoom >= unit ==> r == c))
            by (nonlinear_arith)
            requires
                zoom > 0,
                unit > 0,
                2 * unit * q - 2 * unit < 2 * (c * zoom) - unit <= 2 * unit * q,
                2 * zoom * r - 2 * zoom < 2 * (q * unit) - zoom <= 2 * zoom * r,
                gap(r, c) == if r >= c { r - c } else { c - r },
        ;
    }
}

/// One coordinate of the round trip through the screen, where
/// `canvas_to_screen` did not saturate.
proof fn lemma_coord_round_trip(c: int, zoom: int, pan: int)
    requires
        zoom > 0,
        in_range(c),
        in_range(scaled(c, zoom) + pan),
    ensures
        2 * zoom * gap(to_canvas_coord(to_screen_coord(c, zoom, pan), zoom, pan), c) <= ZOOM_UNIT
            + zoom,
        zoom >= ZOOM_UNIT ==> to_canvas_coord(to_screen_coord(c, zoom, pan), zoom, pan) == c,
{
    lemma_scale_round_trip(c, zoom);
    let r = unscaled(scaled(c, zoom), zoom);
    let back = to_canvas_coord(to_screen_coord(c, zoom, pan), zoom, pan);
    assert(back == clamp_coord(r));
    assert(2 * zoom * gap(back, c) <= 2 * zoom * gap(r, c)) by (nonlinear_arith)
        requires
            zoom > 0,
            0 <= gap(back, c) <= gap(r, c),
    ;
}

/// Round trip, within tolerance. A canvas position mapped to the screen and back
/// comes out, in each coordinate, at most `1/2 + ZOOM_UNIT / (2 * zoom)` units
/// from where it started, for every zoom factor above zero, provided that the
/// screen position lies within the coordinate range.
pub proof fn lemma_round_trip_within_tolerance(p: Point, zoom: u32, pan: Offset)
    requires
        zoom > 0,
        stays_in_range(p, zoom, pan),
    ensures
        2 * zoom * gap(
            screen_to_canvas(canvas_to_screen(p, zoom, pan), zoom, pan).x as int,
            p.x as int,
        ) <= ZOOM_UNIT + zoom,
        2 * zoom * gap(
            screen_to_canvas(canvas_to_screen(p, zoom, pan), zoom, pan).y as int,
            p.y as int,
        ) <= ZOOM_UNIT + zoom,
{
    lemma_coord_round_trip(p.x as int, zoom as int, pan.dx as int);
    lemma_coord_round_trip(p.y as int, zoom as int, pan.dy as int);
}

/// Round trip, exactly. At a zoom factor of one or more, `screen_to_canvas`
/// undoes `canvas_to_screen`, provided that the screen position lies within the
/// coordinate range.
pub proof fn lemma_round_trip_exact(p: Point, zoom: u32, pan: Offset)
    requires
        zoom >= ZOOM_UNIT,
        stays_in_range(p, zoom, pan),
    ensures
        screen_to_canvas(canvas_to_screen(p, zoom, pan), zoom, pan) == p,
{
    lemma_coord_round_trip(p.x as int, zoom as int, pan.dx as int);
    lemma_coord_round_trip(p.y as int, zoom as int, pan.dy as int);
}

} // verus!
