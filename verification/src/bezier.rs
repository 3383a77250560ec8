//! Cubic Bézier curves over integer control points, evaluated at rational
//! parameters `step / steps`.

use vstd::prelude::*;
use crate::geometry::{
    div_round, gap, lemma_product_bound, lemma_round_div_between, lemma_round_div_bounds,
    round_div, Point,
};

verus! {

/// The number of straight segments that stand for a curve when it is drawn.
pub const CURVE_SEGMENTS: u16 = 50;

/// Four control points in canvas space: the start `p0`, the two controls `p1`
/// and `p2`, and the end `p3`.
#[derive(Clone, Copy, Debug, PartialEq, Eq, Structural)]
pub struct BezierCurve {
    pub p0: Point,
    pub p1: Point,
    pub p2: Point,
    pub p3: Point,
}

/// The Bernstein weight of control point `i` at the parameter `k / n`, times
/// `n * n * n`: `(1-t)^3`, `3(1-t)^2 t`, `3(1-t) t^2` and `t^3`.
#[verifier::inline]
pub open spec fn weight(i: int, k: int, n: int) -> int {
    if i == 0 {
        (n - k) * (n - k) * (n - k)
    } else if i == 1 {
        3 * ((n - k) * (n - k) * k)
    } else if i == 2 {
        3 * ((n - k) * k * k)
    } else {
        k * k * k
    }
}

/// The weighted sum of four coordinates at the parameter `k / n`, times
/// `n * n * n`.
#[verifier::inline]
pub open spec fn weighted_sum(a0: int, a1: int, a2: int, a3: int, k: int, n: int) -> int {
    weight(0, k, n) * a0 + weight(1, k, n) * a1 + weight(2, k, n) * a2 + weight(3, k, n) * a3
}

/// One coordinate of the curve at the parameter `k / n`, rounded to the nearest
/// unit.
#[verifier::inline]
pub open spec fn blend(a0: int, a1: int, a2: int, a3: int, k: int, n: int) -> int
    recommends
        0 <= k <= n,
        n > 0,
{
    round_div(weighted_sum(a0, a1, a2, a3, k, n), n * n * n)
}

/// The least of four coordinates.
pub open spec fn min4(a0: int, a1: int, a2: int, a3: int) -> int {
    let m01 = if a0 <= a1 { a0 } else { a1 };
    let m23 = if a2 <= a3 { a2 } else { a3 };
    if m01 <= m23 {
        m01
    } else {
        m23
    }
}

/// The greatest of four coordinates.
pub open spec fn max4(a0: int, a1: int, a2: int, a3: int) -> int {
    let m01 = if a0 >= a1 { a0 } else { a1 };
    let m23 = if a2 >= a3 { a2 } else { a3 };
    if m01 >= m23 {
        m01
    } else {
        m23
    }
}

/// The four weights are not negative and add up to `n * n * n`.
pub proof fn lemma_weights(k: int, n: int)
    requires
        0 <= k <= n,
    ensures
        weight(0, k, n) >= 0,
        weight(1, k, n) >= 0,
        weight(2, k, n) >= 0,
        weight(3, k, n) >= 0,
        weight(0, k, n) + weight(1, k, n) + weight(2, k, n) + weight(3, k, n) == n * n * n,
{
    let m = n - k;
    assert(m * m * m >= 0 && m * m * k >= 0 && m * k * k >= 0 && k * k * k >= 0)
        by (nonlinear_arith)
        requires
            m >= 0,
            k >= 0,
    ;
    assert(m * m * m + 3 * (m * m * k) + 3 * (m * k * k) + k * k * k == (m + k) * (m + k) * (m + k))
        by (nonlinear_arith);
}

/// A coordinate between `lo` and `hi`, times a weight that is not negative,
/// lies between `lo` and `hi` times that weight.
proof fn lemma_term_between(w: int, a: int, lo: int, hi: int)
    by (nonlinear_arith)
    requires
        w >= 0,
        lo <= a <= hi,
    ensures
        w * lo <= w * a <= w * hi,
{
}

/// A weighted sum lies between the least and the greatest of its coordinates,
/// each times `n * n * n`.
pub proof fn lemma_weighted_sum_in_hull(a0: int, a1: int, a2: int, a3: int, k: int, n: int)
    requires
        0 <= k <= n,
    ensures
        (n * n * n) * min4(a0, a1, a2, a3) <= weighted_sum(a0, a1, a2, a3, k, n) <= (n * n * n)
            * max4(a0, a1, a2, a3),
{
    lemma_weights(k, n);
    let lo = min4(a0, a1, a2, a3);
    let hi = max4(a0, a1, a2, a3);
    let w0 = weight(0, k, n);
    let w1 = weight(1, k, n);
    let w2 = weight(2, k, n);
    let w3 = weight(3, k, n);
    lemma_term_between(w0, a0, lo, hi);
    lemma_term_between(w1, a1, lo, hi);
    lemma_term_between(w2, a2, lo, hi);
    lemma_term_between(w3, a3, lo, hi);
    assert((w0 + w1 + w2 + w3) * lo == w0 * lo + w1 * lo + w2 * lo + w3 * lo) by (nonlinear_arith);
    assert((w0 + w1 + w2 + w3) * hi == w0 * hi + w1 * hi + w2 * hi + w3 * hi) by (nonlinear_arith);
}

/// A blended coordinate lies between the least and the greatest of the four.
pub proof fn lemma_blend_in_hull(a0: int, a1: int, a2: int, a3: int, k: int, n: int)
    requires
        0 <= k <= n,
        n > 0,
    ensures
        min4(a0, a1, a2, a3) <= blend(a0, a1, a2, a3, k, n) <= max4(a0, a1, a2, a3),
{
    lemma_weighted_sum_in_hull(a0, a1, a2, a3, k, n);
    assert(n * n * n > 0) by (nonlinear_arith)
        requires
            n > 0,
    ;
    lemma_round_div_between(
        weighted_sum(a0, a1, a2, a3, k, n),
        n * n * n,
        min4(a0, a1, a2, a3),
        max4(a0, a1, a2, a3),
    );
}

/// At the parameter zero the blend is the first coordinate, at the parameter
/// one the last.
pub proof fn lemma_endpoint_blend(a0: int, a1: int, a2: int, a3: int, n: int)
    requires
        n > 0,
    ensures
        blend(a0, a1, a2, a3, 0, n) == a0,
        blend(a0, a1, a2, a3, n, n) == a3,
{
    let cube = n * n * n;
    assert(cube > 0) by (nonlinear_arith)
        requires
            cube == n * n * n,
            n > 0,
    ;
    let at_start = weighted_sum(a0, a1, a2, a3, 0, n);
    let at_end = weighted_sum(a0, a1, a2, a3, n, n);
    assert(at_start == cube * a0) by (nonlinear_arith)
        requires
            cube == n * n * n,
            at_start == (n - 0) * (n - 0) * (n - 0) * a0 + 3 * ((n - 0) * (n - 0) * 0) * a1 + 3
                * ((n - 0) * 0 * 0) * a2 + 0 * 0 * 0 * a3,
    ;
    assert(at_end == cube * a3) by (nonlinear_arith)
        requires
            cube == n * n * n,
            at_end == (n - n) * (n - n) * (n - n) * a0 + 3 * ((n - n) * (n - n) * n) * a1 + 3
                * ((n - n) * n * n) * a2 + n * n * n * a3,
    ;
    lemma_round_div_between(cube * a0, cube, a0, a0);
    lemma_round_div_between(cube * a3, cube, a3, a3);
}

/// The longest leg of the control polygon, along one axis.
pub open spec fn longest_leg(a0: int, a1: int, a2: int, a3: int) -> int {
    let l1 = gap(a1, a0);
    let l2 = gap(a2, a1);
    let l3 = gap(a3, a2);
    if l1 >= l2 && l1 >= l3 {
        l1
    } else if l2 >= l3 {
        l2
    } else {
        l3
    }
}

/// The weighted sum, written over the legs of the control polygon: the first
/// coordinate times `n * n * n`, plus each leg times the weights of the
/// control points behind it.
proof fn lemma_sum_over_legs(a0: int, a1: int, a2: int, a3: int, k: int, n: int)
    requires
        0 <= k <= n,
    ensures
        weighted_sum(a0, a1, a2, a3, k, n) == n * n * n * a0 + (weight(1, k, n) + weight(2, k, n)
            + weight(3, k, n)) * (a1 - a0) + (weight(2, k, n) + weight(3, k, n)) * (a2 - a1)
            + weight(3, k, n) * (a3 - a2),
{
    lemma_weights(k, n);
    let w0 = weight(0, k, n);
    let w1 = weight(1, k, n);
    let w2 = weight(2, k, n);
    let w3 = weight(3, k, n);
    let d1 = a1 - a0;
    let d2 = a2 - a1;
    let d3 = a3 - a2;
    assert(w1 * a1 == w1 * a0 + w1 * d1) by (nonlinear_arith)
        requires
            a1 == a0 + d1,
    ;
    assert(w2 * a2 == w2 * a0 + w2 * d1 + w2 * d2) by (nonlinear_arith)
        requires
            a2 == a0 + d1 + d2,
    ;
    assert(w3 * a3 == w3 * a0 + w3 * d1 + w3 * d2 + w3 * d3) by (nonlinear_arith)
        requires
            a3 == a0 + d1 + d2 + d3,
    ;
    assert((w0 + w1 + w2 + w3) * a0 == w0 * a0 + w1 * a0 + w2 * a0 + w3 * a0) by (nonlinear_arith);
    assert((w1 + w2 + w3) * d1 == w1 * d1 + w2 * d1 + w3 * d1) by (nonlinear_arith);
    assert((w2 + w3) * d2 == w2 * d2 + w3 * d2) by (nonlinear_arith);
}

/// From one parameter to the next, the weights behind each leg do not shrink,
/// and together they grow by `3 * n * n`.
proof fn lemma_tail_weights_grow(k: int, n: int)
    requires
        0 <= k < n,
    ensures
        weight(3, k + 1, n) - weight(3, k, n) >= 0,
        weight(2, k + 1, n) + weight(3, k + 1, n) - weight(2, k, n) - weight(3, k, n) >= 0,
        weight(0, k, n) - weight(0, k + 1, n) >= 0,
        (weight(0, k, n) - weight(0, k + 1, n)) + (weight(2, k + 1, n) + weight(3, k + 1, n)
            - weight(2, k, n) - weight(3, k, n)) + (weight(3, k + 1, n) - weight(3, k, n)) == 3 * (n
            * n),
{
    let m = n - k;
    assert((k + 1) * (k + 1) * (k + 1) - k * k * k == 3 * (k * k) + 3 * k + 1) by (nonlinear_arith);
    assert(m * m * m - (m - 1) * (m - 1) * (m - 1) == 3 * (m * m) - 3 * m + 1) by (nonlinear_arith);
    assert(3 * ((m - 1) * (k + 1) * (k + 1)) - 3 * (m * k * k) == 6 * (m * k) + 3 * m - 3 * (k * k)
        - 6 * k - 3) by (nonlinear_arith);
    assert(3 * (k * k) + 3 * k + 1 >= 0 && 3 * (m * m) - 3 * m + 1 >= 0 && 6 * (m * k) + 3 * m - 3
        * k - 2 >= 0) by (nonlinear_arith)
        requires
            k >= 0,
            m >= 1,
    ;
    assert(3 * (n * n) == 3 * (m * m) + 6 * (m * k) + 3 * (k * k)) by (nonlinear_arith)
        requires
            n == m + k,
    ;
    assert(n - (k + 1) == m - 1);
}

/// A leg no longer than `leg`, times a weight that is not negative, is no
/// larger in magnitude than `leg` times that weight.
proof fn lemma_leg_term(w: int, d: int, leg: int)
    by (nonlinear_arith)
    requires
        w >= 0,
        -leg <= d <= leg,
    ensures
        -(w * leg) <= w * d <= w * leg,
{
}

/// From one parameter to the next the weighted sum moves by at most
/// `3 * n * n` times the longest leg.
pub proof fn lemma_weighted_sum_step(a0: int, a1: int, a2: int, a3: int, k: int, n: int)
    requires
        0 <= k < n,
    ensures
        gap(weighted_sum(a0, a1, a2, a3, k + 1, n), weighted_sum(a0, a1, a2, a3, k, n)) <= 3 * (n
            * n) * longest_leg(a0, a1, a2, a3),
{
    lemma_sum_over_legs(a0, a1, a2, a3, k, n);
    lemma_sum_over_legs(a0, a1, a2, a3, k + 1, n);
    lemma_tail_weights_grow(k, n);
    lemma_weights(k, n);
    lemma_weights(k + 1, n);
    let leg = longest_leg(a0, a1, a2, a3);
    let g1 = weight(0, k, n) - weight(0, k + 1, n);
    let g2 = weight(2, k + 1, n) + weight(3, k + 1, n) - weight(2, k, n) - weight(3, k, n);
    let g3 = weight(3, k + 1, n) - weight(3, k, n);
    let t1 = weight(1, k, n) + weight(2, k, n) + weight(3, k, n);
    let u1 = weight(1, k + 1, n) + weight(2, k + 1, n) + weight(3, k + 1, n);
    let t2 = weight(2, k, n) + weight(3, k, n);
    let u2 = weight(2, k + 1, n) + weight(3, k + 1, n);
    let t3 = weight(3, k, n);
    let u3 = weight(3, k + 1, n);
    assert(u1 - t1 == g1);
    let d1 = a1 - a0;
    let d2 = a2 - a1;
    let d3 = a3 - a2;
    assert(u1 * d1 - t1 * d1 == g1 * d1 && u2 * d2 - t2 * d2 == g2 * d2 && u3 * d3 - t3 * d3 == g3
        * d3) by (nonlinear_arith)
        requires
            u1 - t1 == g1,
            u2 - t2 == g2,
            u3 - t3 == g3,
    ;
    lemma_leg_term(g1, d1, leg);
    lemma_leg_term(g2, d2, leg);
    lemma_leg_term(g3, d3, leg);
    assert(g1 * leg + g2 * leg + g3 * leg == 3 * (n * n) * leg) by (nonlinear_arith)
        requires
            g1 + g2 + g3 == 3 * (n * n),
    ;
}

/// No jump, one coordinate. Between neighbouring parameters `k / n` and
/// `(k + 1) / n` the blend moves by at most `1 + 3 * leg / n`, where `leg` is
/// the longest leg of the control polygon: the finer the steps, the closer
/// the neighbours.
pub proof fn lemma_blend_step(a0: int, a1: int, a2: int, a3: int, k: int, n: int)
    requires
        0 <= k < n,
    ensures
        n * gap(blend(a0, a1, a2, a3, k + 1, n), blend(a0, a1, a2, a3, k, n)) <= n + 3
            * longest_leg(a0, a1, a2, a3),
{
    let cube = n * n * n;
    let leg = longest_leg(a0, a1, a2, a3);
    let s = weighted_sum(a0, a1, a2, a3, k, n);
    let t = weighted_sum(a0, a1, a2, a3, k + 1, n);
    let b = blend(a0, a1, a2, a3, k, n);
    let c = blend(a0, a1, a2, a3, k + 1, n);
    assert(cube > 0 && n * n > 0 && cube == n * (n * n)) by (nonlinear_arith)
        requires
            cube == n * n * n,
            n > 0,
    ;
    lemma_weighted_sum_step(a0, a1, a2, a3, k, n);
    lemma_round_div_bounds(s, cube);
    lemma_round_div_bounds(t, cube);
    assert(-cube <= 2 * cube * b - 2 * s <= cube);
    assert(-cube <= 2 * cube * c - 2 * t <= cube);
    let g = gap(c, b);
    assert(2 * cube * g <= 2 * cube + 6 * (n * n) * leg) by (nonlinear_arith)
        requires
            -cube <= 2 * cube * b - 2 * s <= cube,
            -cube <= 2 * cube * c - 2 * t <= cube,
            gap(t, s) <= 3 * (n * n) * leg,
            gap(t, s) == if t >= s { t - s } else { s - t },
            g == if c >= b { c - b } else { b - c },
    ;
    assert(n * g <= n + 3 * leg) by (nonlinear_arith)
        requires
            2 * (n * (n * n)) * g <= 2 * (n * (n * n)) + 6 * (n * n) * leg,
            n * n > 0,
            n > 0,
    ;
}

/// Computes `blend` on machine integers.
fn blend_coord(a0: i32, a1: i32, a2: i32, a3: i32, step: u16, steps: u16) -> (r: i32)
    requires
        0 < steps,
        step <= steps,
    ensures
        r == blend(a0 as int, a1 as int, a2 as int, a3 as int, step as int, steps as int),
{
    let k: i128 = step as i128;
    let n: i128 = steps as i128;
    let m: i128 = n - k;
    proof {
        lemma_product_bound(m as int, m as int, 0xffff, 0xffff);
        lemma_product_bound(m as int, k as int, 0xffff, 0xffff);
        lemma_product_bound(k as int, k as int, 0xffff, 0xffff);
        lemma_product_bound(n as int, n as int, 0xffff, 0xffff);
        lemma_product_bound(m * m, m as int, 0x1_0000_0000, 0xffff);
        lemma_product_bound(m * m, k as int, 0x1_0000_0000, 0xffff);
        lemma_product_bound(m * k, k as int, 0x1_0000_0000, 0xffff);
        lemma_product_bound(k * k, k as int, 0x1_0000_0000, 0xffff);
        lemma_product_bound(n * n, n as int, 0x1_0000_0000, 0xffff);
        lemma_weights(k as int, n as int);
    }
    let w0: i128 = m * m * m;
    let w1: i128 = 3 * (m * m * k);
    let w2: i128 = 3 * (m * k * k);
    let w3: i128 = k * k * k;
    let den: i128 = n * n * n;
    proof {
        assert(den > 0) by (nonlinear_arith)
            requires
                den == n * n * n,
                n > 0,
        ;
        lemma_product_bound(a0 as int, w0 as int, 0x8000_0000, 0x3_0000_0000_0000);
        lemma_product_bound(a1 as int, w1 as int, 0x8000_0000, 0x3_0000_0000_0000);
        lemma_product_bound(a2 as int, w2 as int, 0x8000_0000, 0x3_0000_0000_0000);
        lemma_product_bound(a3 as int, w3 as int, 0x8000_0000, 0x3_0000_0000_0000);
        assert(w0 * a0 == a0 * w0 && w1 * a1 == a1 * w1 && w2 * a2 == a2 * w2 && w3 * a3 == a3
            * w3) by (nonlinear_arith);
        lemma_blend_in_hull(a0 as int, a1 as int, a2 as int, a3 as int, k as int, n as int);
    }
    let num: i128 = w0 * (a0 as i128) + w1 * (a1 as i128) + w2 * (a2 as i128) + w3 * (a3 as i128);
    div_round(num, den) as i32
}

impl BezierCurve {
    /// The point of the curve at the parameter `step / steps`.
    #[verifier::inline]
    pub open spec fn spec_sample(&self, step: u16, steps: u16) -> Point
        recommends
            0 < steps,
            step <= steps,
    {
        Point {
            x: blend(
                self.p0.x as int,
                self.p1.x as int,
                self.p2.x as int,
                self.p3.x as int,
                step as int,
                steps as int,
            ) as i32,
            y: blend(
                self.p0.y as int,
                self.p1.y as int,
                self.p2.y as int,
                self.p3.y as int,
                step as int,
                steps as int,
            ) as i32,
        }
    }

    /// The points at the parameters `0 / steps`, `1 / steps`, up to
    /// `steps / steps`.
    pub open spec fn spec_polyline(&self, steps: u16) -> Seq<Point>
        recommends
            0 < steps,
    {
        Seq::new(steps as nat + 1, |i: int| self.spec_sample(i as u16, steps))
    }

    /// Evaluates the cubic Bézier polynomial at the parameter `step / steps`:
    /// the four Bernstein weights, summed against the control points
    /// coordinate by coordinate and rounded to the nearest unit.
    #[verifier::when_used_as_spec(spec_sample)]
    pub fn sample(&self, step: u16, steps: u16) -> (p: Point)
        requires
            0 < steps,
            step <= steps,
        ensures
            p == self.spec_sample(step, steps),
    {
        Point {
            x: blend_coord(self.p0.x, self.p1.x, self.p2.x, self.p3.x, step, steps),
            y: blend_coord(self.p0.y, self.p1.y, self.p2.y, self.p3.y, step, steps),
        }
    }

    /// Samples the curve at `steps + 1` uniformly spaced parameters, from the
    /// start to the end.
    pub fn polyline(&self, steps: u16) -> (points: Vec<Point>)
        requires
            0 < steps,
        ensures
            points@ == self.spec_polyline(steps),
    {
        let mut points: Vec<Point> = Vec::new();
        let mut i: u16 = 0;
        while i < steps
            invariant
                0 < steps,
                i <= steps,
                points@ == Seq::new(i as nat, |j: int| self.spec_sample(j as u16, steps)),
            decreases steps - i,
        {
            points.push(self.sample(i, steps));
            i = i + 1;
        }
        points.push(self.sample(steps, steps));
        points
    }

    /// Endpoints. The curve starts at `p0` and ends at `p3`, whatever the number
    /// of steps.
    pub proof fn lemma_endpoints(&self, steps: u16)
        requires
            0 < steps,
        ensures
            self.sample(0, steps) == self.p0,
            self.sample(steps, steps) == self.p3,
    {
        let n = steps as int;
        let c = *self;
        lemma_endpoint_blend(c.p0.x as int, c.p1.x as int, c.p2.x as int, c.p3.x as int, n);
        lemma_endpoint_blend(c.p0.y as int, c.p1.y as int, c.p2.y as int, c.p3.y as int, n);
    }

    /// Every sample lies in the bounding box of the four control points.
    pub proof fn lemma_sample_in_hull(&self, step: u16, steps: u16)
        requires
            0 < steps,
            step <= steps,
        ensures
            min4(self.p0.x as int, self.p1.x as int, self.p2.x as int, self.p3.x as int)
                <= self.sample(step, steps).x
                <= max4(self.p0.x as int, self.p1.x as int, self.p2.x as int, self.p3.x as int),
            min4(self.p0.y as int, self.p1.y as int, self.p2.y as int, self.p3.y as int)
                <= self.sample(step, steps).y
                <= max4(self.p0.y as int, self.p1.y as int, self.p2.y as int, self.p3.y as int),
    {
        lemma_blend_in_hull(
            self.p0.x as int,
            self.p1.x as int,
            self.p2.x as int,
            self.p3.x as int,
            step as int,
            steps as int,
        );
        lemma_blend_in_hull(
            self.p0.y as int,
            self.p1.y as int,
            self.p2.y as int,
            self.p3.y as int,
            step as int,
            steps as int,
        );
    }

    /// No jump. Neighbouring samples lie, in each coordinate, at most
    /// `1 + 3 * leg / steps` apart, where `leg` is the longest leg of the
    /// control polygon along that axis.
    pub proof fn lemma_no_jump(&self, step: u16, steps: u16)
        requires
            step < steps,
        ensures
            (steps as int) * gap(
                self.sample((step + 1) as u16, steps).x as int,
                self.sample(step, steps).x as int,
            ) <= steps + 3 * longest_leg(
                self.p0.x as int,
                self.p1.x as int,
                self.p2.x as int,
                self.p3.x as int,
            ),
            (steps as int) * gap(
                self.sample((step + 1) as u16, steps).y as int,
                self.sample(step, steps).y as int,
            ) <= steps + 3 * longest_leg(
                self.p0.y as int,
                self.p1.y as int,
                self.p2.y as int,
                self.p3.y as int,
            ),
    {
        let c = *self;
        let k = step as int;
        let n = steps as int;
        assert(((step + 1) as u16) as int == k + 1);
        lemma_blend_in_hull(c.p0.x as int, c.p1.x as int, c.p2.x as int, c.p3.x as int, k, n);
        lemma_blend_in_hull(c.p0.y as int, c.p1.y as int, c.p2.y as int, c.p3.y as int, k, n);
        lemma_blend_in_hull(c.p0.x as int, c.p1.x as int, c.p2.x as int, c.p3.x as int, k + 1, n);
        lemma_blend_in_hull(c.p0.y as int, c.p1.y as int, c.p2.y as int, c.p3.y as int, k + 1, n);
        lemma_blend_step(c.p0.x as int, c.p1.x as int, c.p2.x as int, c.p3.x as int, k, n);
        lemma_blend_step(c.p0.y as int, c.p1.y as int, c.p2.y as int, c.p3.y as int, k, n);
    }
}

} // verus!
