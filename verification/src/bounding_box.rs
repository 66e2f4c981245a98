//! Edge functions, barycentric weights and the pixel box of a triangle.
//!
//! The three weights of a point share one denominator, the triangle's edge
//! function. They are kept as three numerators and that denominator, all
//! exact integers, so that coverage is decided without rounding.
use crate::algebra::{
    lemma_cramer, lemma_cross_of_combination, lemma_expand, lemma_mul_sub, lemma_mul_sum3,
    lemma_negate_product, lemma_scale_cross, lemma_share_negative, lemma_share_positive,
    lemma_weighted_sum_above, lemma_weighted_sum_below,
};
use crate::fixed::{
    div_floor, floor_ratio, lemma_floor_ratio_between, saturate, saturate_i32, HALF, ONE,
};
use crate::vector::Vec3;
use vstd::prelude::*;

verus! {

/// The smallest of three scalars.
pub open spec fn min3(a: i32, b: i32, c: i32) -> i32 {
    if a <= b && a <= c {
        a
    } else if b <= c {
        b
    } else {
        c
    }
}

/// The greatest of three scalars.
pub open spec fn max3(a: i32, b: i32, c: i32) -> i32 {
    if a >= b && a >= c {
        a
    } else if b >= c {
        b
    } else {
        c
    }
}

/// The whole number of pixels at or below a coordinate, never negative.
pub open spec fn pixel_floor(v: i32) -> int {
    if v <= 0 {
        0
    } else {
        (v as int) / (ONE as int)
    }
}

/// The whole number of pixels at or above a coordinate, never negative.
pub open spec fn pixel_ceil(v: i32) -> int {
    if v <= 0 {
        0
    } else {
        (v + ONE - 1) / (ONE as int)
    }
}

fn floor_pixels(v: i32) -> (p: usize)
    ensures
        p == pixel_floor(v),
        p <= 32767,
{
    if v <= 0 {
        0
    } else {
        (v / 65536) as usize
    }
}

fn ceil_pixels(v: i32) -> (p: usize)
    ensures
        p == pixel_ceil(v),
        p <= 32768,
{
    if v <= 0 {
        0
    } else {
        (((v as i64) + 65535) / 65536) as usize
    }
}

fn least(a: i32, b: i32, c: i32) -> (m: i32)
    ensures
        m == min3(a, b, c),
{
    if a <= b && a <= c {
        a
    } else if b <= c {
        b
    } else {
        c
    }
}

fn greatest(a: i32, b: i32, c: i32) -> (m: i32)
    ensures
        m == max3(a, b, c),
{
    if a >= b && a >= c {
        a
    } else if b >= c {
        b
    } else {
        c
    }
}

/// The half-open pixel box `(min_x, min_y, max_x, max_y)` around three
/// screen positions, clamped to non-negative coordinates.
pub open spec fn bounding_box_spec(a: Vec3, b: Vec3, c: Vec3) -> (int, int, int, int) {
    (
        pixel_floor(min3(a.x, b.x, c.x)),
        pixel_floor(min3(a.y, b.y, c.y)),
        pixel_ceil(max3(a.x, b.x, c.x)),
        pixel_ceil(max3(a.y, b.y, c.y)),
    )
}

/// Computes the pixel box of a triangle: columns `min_x..max_x` and rows
/// `min_y..max_y`.
pub fn calculate_bounding_box(a: &Vec3, b: &Vec3, c: &Vec3) -> (bb: (usize, usize, usize, usize))
    ensures
        (bb.0 as int, bb.1 as int, bb.2 as int, bb.3 as int) == bounding_box_spec(*a, *b, *c),
        bb.0 <= bb.2 <= 32768,
        bb.1 <= bb.3 <= 32768,
{
    let min_x: usize = floor_pixels(least(a.x, b.x, c.x));
    let min_y: usize = floor_pixels(least(a.y, b.y, c.y));
    let max_x: usize = ceil_pixels(greatest(a.x, b.x, c.x));
    let max_y: usize = ceil_pixels(greatest(a.y, b.y, c.y));
    (min_x, min_y, max_x, max_y)
}

/// The edge function of `c` against the directed edge from `a` to `b`, over
/// the stored integers. Of a whole triangle it is twice the signed area.
pub open spec fn edge_spec(a: Vec3, b: Vec3, c: Vec3) -> int {
    (c.x - a.x) * (b.y - a.y) - (c.y - a.y) * (b.x - a.x)
}

/// Computes the edge function exactly.
pub fn edge_function(a: &Vec3, b: &Vec3, c: &Vec3) -> (e: i128)
    ensures
        e == edge_spec(*a, *b, *c),
        -0x2_0000_0000_0000_0000 <= e <= 0x2_0000_0000_0000_0000,
{
    let cx: i128 = (c.x as i128) - (a.x as i128);
    let by: i128 = (b.y as i128) - (a.y as i128);
    let cy: i128 = (c.y as i128) - (a.y as i128);
    let bx: i128 = (b.x as i128) - (a.x as i128);
    assert(-0x1_0000_0000_0000_0000 <= cx * by <= 0x1_0000_0000_0000_0000) by (nonlinear_arith)
        requires
            -0x1_0000_0000 <= cx <= 0x1_0000_0000,
            -0x1_0000_0000 <= by <= 0x1_0000_0000,
    ;
    assert(-0x1_0000_0000_0000_0000 <= cy * bx <= 0x1_0000_0000_0000_0000) by (nonlinear_arith)
        requires
            -0x1_0000_0000 <= cy <= 0x1_0000_0000,
            -0x1_0000_0000 <= bx <= 0x1_0000_0000,
    ;
    cx * by - cy * bx
}

/// The barycentric weights of a point against a triangle, as three
/// numerators over one denominator.
#[derive(Clone, Copy, Debug, PartialEq, Eq, Structural)]
pub struct Weights {
    /// Numerator of the weight of the first vertex.
    pub w1: i128,
    /// Numerator of the weight of the second vertex.
    pub w2: i128,
    /// Numerator of the weight of the third vertex.
    pub w3: i128,
    /// The common denominator: the triangle's edge function.
    pub area: i128,
}

/// The weights of `p` against the triangle `a`, `b`, `c`.
pub open spec fn weights_spec(p: Vec3, a: Vec3, b: Vec3, c: Vec3) -> (int, int, int, int) {
    (edge_spec(b, c, p), edge_spec(c, a, p), edge_spec(a, b, p), edge_spec(a, b, c))
}

impl Weights {
    /// The four integers of the weights.
    pub open spec fn view(self) -> (int, int, int, int) {
        (self.w1 as int, self.w2 as int, self.w3 as int, self.area as int)
    }

    /// Whether each numerator is small enough for a weighted sum of scalars
    /// to fit a wide integer. Edge functions of scalars always are.
    pub open spec fn bounded(self) -> bool {
        &&& -0x2_0000_0000_0000_0000 <= self.w1 <= 0x2_0000_0000_0000_0000
        &&& -0x2_0000_0000_0000_0000 <= self.w2 <= 0x2_0000_0000_0000_0000
        &&& -0x2_0000_0000_0000_0000 <= self.w3 <= 0x2_0000_0000_0000_0000
    }
}

/// Whether a weight `w / area` lies in the closed interval from zero to one.
pub open spec fn weight_in_unit(w: int, area: int) -> bool {
    if area > 0 {
        0 <= w <= area
    } else if area < 0 {
        area <= w <= 0
    } else {
        false
    }
}

/// Whether a weight `w / area` lies strictly between zero and one.
pub open spec fn weight_strictly_in_unit(w: int, area: int) -> bool {
    if area > 0 {
        0 < w < area
    } else if area < 0 {
        area < w < 0
    } else {
        false
    }
}

/// Whether weights cover their point: the triangle has area and all three
/// weights lie in the closed interval from zero to one.
pub open spec fn covers(w: (int, int, int, int)) -> bool {
    weight_in_unit(w.0, w.3) && weight_in_unit(w.1, w.3) && weight_in_unit(w.2, w.3)
}

/// Computes the barycentric weights of `p` against the triangle `a`, `b`,
/// `c`, whose edge function is `area`.
pub fn barycentric_coordinates(p: &Vec3, a: &Vec3, b: &Vec3, c: &Vec3, area: i128) -> (w: Weights)
    ensures
        w.w1 == edge_spec(*b, *c, *p),
        w.w2 == edge_spec(*c, *a, *p),
        w.w3 == edge_spec(*a, *b, *p),
        w.area == area,
        w.bounded(),
        area == edge_spec(*a, *b, *c) ==> w@ == weights_spec(*p, *a, *b, *c),
{
    let w1: i128 = edge_function(b, c, p);
    let w2: i128 = edge_function(c, a, p);
    let w3: i128 = edge_function(a, b, p);
    Weights { w1, w2, w3, area }
}

impl Weights {
    /// Decides whether the weights cover their point.
    pub fn covered(&self) -> (r: bool)
        ensures
            r == covers(self@),
    {
        if self.area > 0 {
            0 <= self.w1 && self.w1 <= self.area && 0 <= self.w2 && self.w2 <= self.area && 0
                <= self.w3 && self.w3 <= self.area
        } else if self.area < 0 {
            self.area <= self.w1 && self.w1 <= 0 && self.area <= self.w2 && self.w2 <= 0
                && self.area <= self.w3 && self.w3 <= 0
        } else {
            false
        }
    }

    /// Interpolates one attribute given at the three vertices: the sum of
    /// the three values, each times its weight. Without a denominator the
    /// result is zero.
    pub fn interpolate(&self, v1: i32, v2: i32, v3: i32) -> (r: i32)
        requires
            self.bounded(),
            self.area != i128::MIN,
        ensures
            r == interpolate_spec(self@, v1, v2, v3),
    {
        if self.area == 0 {
            return 0;
        }
        let t1: i128 = scale_weight(v1, self.w1);
        let t2: i128 = scale_weight(v2, self.w2);
        let t3: i128 = scale_weight(v3, self.w3);
        saturate_i32(div_floor(t1 + t2 + t3, self.area))
    }
}

fn scale_weight(v: i32, w: i128) -> (r: i128)
    requires
        -0x2_0000_0000_0000_0000 <= w <= 0x2_0000_0000_0000_0000,
    ensures
        r == v * w,
        -0x1_0000_0000_0000_0000_0000_0000 <= r <= 0x1_0000_0000_0000_0000_0000_0000,
{
    let x: i128 = v as i128;
    assert(-0x1_0000_0000_0000_0000_0000_0000 <= x * w <= 0x1_0000_0000_0000_0000_0000_0000)
        by (nonlinear_arith)
        requires
            -0x8000_0000 <= x <= 0x8000_0000,
            -0x2_0000_0000_0000_0000 <= w <= 0x2_0000_0000_0000_0000,
    ;
    x * w
}

/// The weighted sum of an attribute's three values, rounded down; zero
/// where the weights have no denominator.
pub open spec fn interpolate_spec(w: (int, int, int, int), v1: i32, v2: i32, v3: i32) -> i32 {
    saturate(floor_ratio(v1 * w.0 + v2 * w.1 + v3 * w.2, w.3))
}

/// The centre of pixel `(x, y)` as a screen position.
pub open spec fn pixel_center(x: int, y: int) -> Vec3 {
    Vec3 { x: (x * ONE + HALF) as i32, y: (y * ONE + HALF) as i32, z: 0 }
}

/// Computes the centre of a pixel.
pub fn center_of_pixel(x: usize, y: usize) -> (p: Vec3)
    requires
        x <= 32767,
        y <= 32767,
    ensures
        p == pixel_center(x as int, y as int),
        p.x == x * ONE + HALF,
        p.y == y * ONE + HALF,
{
    Vec3 { x: (x as i32) * 65536 + 32768, y: (y as i32) * 65536 + 32768, z: 0 }
}

/// The three barycentric weights of any point against any triangle sum to
/// one: the numerators sum to the denominator.
pub proof fn lemma_weights_sum_to_one(p: Vec3, a: Vec3, b: Vec3, c: Vec3)
    ensures
        weights_spec(p, a, b, c).0 + weights_spec(p, a, b, c).1 + weights_spec(p, a, b, c).2
            == weights_spec(p, a, b, c).3,
{
    lemma_edge_sum(
        p.x as int,
        p.y as int,
        a.x as int,
        a.y as int,
        b.x as int,
        b.y as int,
        c.x as int,
        c.y as int,
    );
}

/// The edge functions of a point against the three edges sum to the edge
/// function of the triangle.
proof fn lemma_edge_sum(px: int, py: int, ax: int, ay: int, bx: int, by: int, cx: int, cy: int)
    ensures
        ((px - bx) * (cy - by) - (py - by) * (cx - bx)) + ((px - cx) * (ay - cy) - (py - cy) * (ax
            - cx)) + ((px - ax) * (by - ay) - (py - ay) * (bx - ax)) == (cx - ax) * (by - ay) - (cy
            - ay) * (bx - ax),
{
    lemma_expand(px, bx, cy, by);
    lemma_expand(py, by, cx, bx);
    lemma_expand(px, cx, ay, cy);
    lemma_expand(py, cy, ax, cx);
    lemma_expand(px, ax, by, ay);
    lemma_expand(py, ay, bx, ax);
    lemma_expand(cx, ax, by, ay);
    lemma_expand(cy, ay, bx, ax);
}

/// An attribute interpolated at a covered point lies between the smallest
/// and the greatest of its three values, so it is never pinned.
pub proof fn lemma_interpolate_between(w: (int, int, int, int), v1: i32, v2: i32, v3: i32)
    requires
        covers(w),
        w.0 + w.1 + w.2 == w.3,
    ensures
        min3(v1, v2, v3) <= interpolate_spec(w, v1, v2, v3) <= max3(v1, v2, v3),
        interpolate_spec(w, v1, v2, v3) == floor_ratio(v1 * w.0 + v2 * w.1 + v3 * w.2, w.3),
{
    let lo = min3(v1, v2, v3) as int;
    let hi = max3(v1, v2, v3) as int;
    let n = v1 * w.0 + v2 * w.1 + v3 * w.2;
    let (e1, e2, e3, d) = w;
    if d > 0 {
        lemma_weighted_sum_above(lo, v1 as int, v2 as int, v3 as int, e1, e2, e3);
        lemma_weighted_sum_below(hi, v1 as int, v2 as int, v3 as int, e1, e2, e3);
    } else {
        // With a negative denominator the numerators are not positive:
        // their negatives are weights that sum to the denominator's negative.
        lemma_weighted_sum_above(lo, v1 as int, v2 as int, v3 as int, -e1, -e2, -e3);
        lemma_weighted_sum_below(hi, v1 as int, v2 as int, v3 as int, -e1, -e2, -e3);
        lemma_negate_product(v1 as int, e1);
        lemma_negate_product(v2 as int, e2);
        lemma_negate_product(v3 as int, e3);
        lemma_negate_product(lo, d);
        lemma_negate_product(hi, d);
    }
    lemma_floor_ratio_between(n, d, lo, hi);
}

/// Whether `p` is the centre of mass of the masses `l1`, `l2`, `l3` placed
/// at `a`, `b`, `c`.
pub open spec fn is_mass_centre(
    p: Vec3,
    a: Vec3,
    b: Vec3,
    c: Vec3,
    l1: int,
    l2: int,
    l3: int,
) -> bool {
    &&& (l1 + l2 + l3) * p.x == l1 * a.x + l2 * b.x + l3 * c.x
    &&& (l1 + l2 + l3) * p.y == l1 * a.y + l2 * b.y + l3 * c.y
}

/// Whether `p` lies strictly inside the triangle: it is the centre of three
/// positive masses at the vertices.
pub open spec fn strictly_inside(p: Vec3, a: Vec3, b: Vec3, c: Vec3) -> bool {
    exists|l1: int, l2: int, l3: int|
        l1 > 0 && l2 > 0 && l3 > 0 && #[trigger] is_mass_centre(p, a, b, c, l1, l2, l3)
}

/// Whether `p` lies inside the triangle or on its border: it is the centre
/// of three masses at the vertices, none negative and not all zero.
pub open spec fn inside_or_on_border(p: Vec3, a: Vec3, b: Vec3, c: Vec3) -> bool {
    exists|l1: int, l2: int, l3: int|
        l1 >= 0 && l2 >= 0 && l3 >= 0 && l1 + l2 + l3 > 0 && #[trigger] is_mass_centre(
            p,
            a,
            b,
            c,
            l1,
            l2,
            l3,
        )
}

/// The edge function is the same from whichever vertex it is taken.
proof fn lemma_edge_cyclic(ax: int, ay: int, bx: int, by: int, cx: int, cy: int)
    ensures
        (ax - bx) * (cy - by) - (ay - by) * (cx - bx) == (cx - ax) * (by - ay) - (cy - ay) * (bx
            - ax),
{
    lemma_expand(ax, bx, cy, by);
    lemma_expand(ay, by, cx, bx);
    lemma_expand(cx, ax, by, ay);
    lemma_expand(cy, ay, bx, ax);
}

/// The edge function of a centre of mass against the edge from `b` to `c`,
/// scaled by the total mass, is the mass at `a` times the triangle's edge
/// function.
proof fn lemma_edge_of_mass_centre(
    px: int,
    py: int,
    ax: int,
    ay: int,
    bx: int,
    by: int,
    cx: int,
    cy: int,
    l1: int,
    l2: int,
    l3: int,
)
    requires
        (l1 + l2 + l3) * px == l1 * ax + l2 * bx + l3 * cx,
        (l1 + l2 + l3) * py == l1 * ay + l2 * by + l3 * cy,
    ensures
        (l1 + l2 + l3) * ((px - bx) * (cy - by) - (py - by) * (cx - bx)) == l1 * ((cx - ax) * (by
            - ay) - (cy - ay) * (bx - ax)),
{
    let s = l1 + l2 + l3;
    let u = cy - by;
    let v = cx - bx;
    // Moved so that `b` is the origin, the centre is a combination of `a` and `c` alone.
    lemma_mul_sub(s, px, bx);
    lemma_mul_sum3(l1, l2, l3, bx);
    lemma_mul_sub(l1, ax, bx);
    lemma_mul_sub(l3, cx, bx);
    assert(s * (px - bx) == l1 * (ax - bx) + l3 * v);
    lemma_mul_sub(s, py, by);
    lemma_mul_sum3(l1, l2, l3, by);
    lemma_mul_sub(l1, ay, by);
    lemma_mul_sub(l3, cy, by);
    assert(s * (py - by) == l1 * (ay - by) + l3 * u);
    lemma_scale_cross(s, px - bx, u, py - by, v);
    lemma_cross_of_combination(l1, l3, ax - bx, ay - by, u, v);
    lemma_edge_cyclic(ax, ay, bx, by, cx, cy);
}

/// A weight whose numerator is a share `l / s` of the denominator, with
/// `0 < l < s`, lies strictly between zero and one.
proof fn lemma_share_strictly_in_unit(e: int, area: int, l: int, s: int)
    requires
        area != 0,
        0 < l < s,
        s * e == l * area,
    ensures
        weight_strictly_in_unit(e, area),
{
    if area > 0 {
        lemma_share_positive(e, area, l, s);
    } else {
        lemma_share_negative(e, area, l, s);
    }
}

/// At a point strictly inside a triangle with area, all three weights lie
/// strictly between zero and one.
pub proof fn lemma_inside_weights(p: Vec3, a: Vec3, b: Vec3, c: Vec3)
    requires
        edge_spec(a, b, c) != 0,
        strictly_inside(p, a, b, c),
    ensures
        weight_strictly_in_unit(weights_spec(p, a, b, c).0, weights_spec(p, a, b, c).3),
        weight_strictly_in_unit(weights_spec(p, a, b, c).1, weights_spec(p, a, b, c).3),
        weight_strictly_in_unit(weights_spec(p, a, b, c).2, weights_spec(p, a, b, c).3),
        covers(weights_spec(p, a, b, c)),
{
    let (l1, l2, l3) = choose|l1: int, l2: int, l3: int|
        l1 > 0 && l2 > 0 && l3 > 0 && #[trigger] is_mass_centre(p, a, b, c, l1, l2, l3);
    let s = l1 + l2 + l3;
    let area = edge_spec(a, b, c);
    let (px, py) = (p.x as int, p.y as int);
    let (ax, ay) = (a.x as int, a.y as int);
    let (bx, by) = (b.x as int, b.y as int);
    let (cx, cy) = (c.x as int, c.y as int);
    lemma_edge_cyclic(ax, ay, bx, by, cx, cy);
    lemma_edge_cyclic(bx, by, cx, cy, ax, ay);
    assert(l2 + l3 + l1 == s && l3 + l1 + l2 == s);
    lemma_edge_of_mass_centre(px, py, ax, ay, bx, by, cx, cy, l1, l2, l3);
    lemma_edge_of_mass_centre(px, py, bx, by, cx, cy, ax, ay, l2, l3, l1);
    lemma_edge_of_mass_centre(px, py, cx, cy, ax, ay, bx, by, l3, l1, l2);
    lemma_share_strictly_in_unit(edge_spec(b, c, p), area, l1, s);
    lemma_share_strictly_in_unit(edge_spec(c, a, p), area, l2, s);
    lemma_share_strictly_in_unit(edge_spec(a, b, p), area, l3, s);
}

/// One coordinate of the balance of a point's weights. The second
/// coordinates enter only through the three edge functions `e1`, `e2`, `e3`
/// and `area`, which are given moved so that `a` is the origin.
proof fn lemma_balance(
    e1: int,
    e2: int,
    e3: int,
    area: int,
    px: int,
    ax: int,
    bx: int,
    cx: int,
)
    requires
        e1 + e2 + e3 == area,
        area * (px - ax) == e2 * (bx - ax) + e3 * (cx - ax),
    ensures
        area * px == e1 * ax + e2 * bx + e3 * cx,
{
    lemma_mul_sub(area, px, ax);
    lemma_mul_sub(e2, bx, ax);
    lemma_mul_sub(e3, cx, ax);
    lemma_mul_sum3(e1, e2, e3, ax);
}

/// The point is the centre of its own weights: the numerators, placed as
/// masses at the vertices, balance at the point.
pub proof fn lemma_weights_balance(p: Vec3, a: Vec3, b: Vec3, c: Vec3)
    ensures
        is_mass_centre(
            p,
            a,
            b,
            c,
            weights_spec(p, a, b, c).0,
            weights_spec(p, a, b, c).1,
            weights_spec(p, a, b, c).2,
        ),
        weights_spec(p, a, b, c).0 + weights_spec(p, a, b, c).1 + weights_spec(p, a, b, c).2
            == weights_spec(p, a, b, c).3,
{
    lemma_weights_sum_to_one(p, a, b, c);
    let (px, py) = (p.x as int, p.y as int);
    let (ax, ay) = (a.x as int, a.y as int);
    let (bx, by) = (b.x as int, b.y as int);
    let (cx, cy) = (c.x as int, c.y as int);
    let e1 = edge_spec(b, c, p);
    let e2 = edge_spec(c, a, p);
    let e3 = edge_spec(a, b, p);
    let area = edge_spec(a, b, c);
    // With `a` as the origin: the vectors to `b`, `c` and `p`.
    let (ux, uy) = (bx - ax, by - ay);
    let (vx, vy) = (cx - ax, cy - ay);
    let (qx, qy) = (px - ax, py - ay);
    assert(area == vx * uy - vy * ux);
    assert(e3 == qx * uy - qy * ux);
    assert(e2 == qy * vx - qx * vy) by {
        lemma_expand(px, cx, ay, cy);
        lemma_expand(py, cy, ax, cx);
        lemma_expand(py, ay, cx, ax);
        lemma_expand(px, ax, cy, ay);
    }
    lemma_cramer(ux, uy, vx, vy, qx, qy);
    lemma_balance(e1, e2, e3, area, px, ax, bx, cx);
    lemma_balance(e1, e2, e3, area, py, ay, by, cy);
}

/// A covered point lies inside the triangle or on its border.
pub proof fn lemma_covered_is_inside(p: Vec3, a: Vec3, b: Vec3, c: Vec3)
    requires
        covers(weights_spec(p, a, b, c)),
    ensures
        inside_or_on_border(p, a, b, c),
{
    let (e1, e2, e3, area) = weights_spec(p, a, b, c);
    lemma_weights_balance(p, a, b, c);
    if area > 0 {
        assert(is_mass_centre(p, a, b, c, e1, e2, e3));
    } else {
        lemma_negate_masses(p, a, b, c, e1, e2, e3);
        assert(is_mass_centre(p, a, b, c, -e1, -e2, -e3));
    }
}

/// Masses may all change sign without moving their centre.
proof fn lemma_negate_masses(p: Vec3, a: Vec3, b: Vec3, c: Vec3, l1: int, l2: int, l3: int)
    requires
        is_mass_centre(p, a, b, c, l1, l2, l3),
    ensures
        is_mass_centre(p, a, b, c, -l1, -l2, -l3),
{
    lemma_mul_sub(p.x as int, 0, l1 + l2 + l3);
    lemma_mul_sub(a.x as int, 0, l1);
    lemma_mul_sub(b.x as int, 0, l2);
    lemma_mul_sub(c.x as int, 0, l3);
    lemma_mul_sub(p.y as int, 0, l1 + l2 + l3);
    lemma_mul_sub(a.y as int, 0, l1);
    lemma_mul_sub(b.y as int, 0, l2);
    lemma_mul_sub(c.y as int, 0, l3);
}

/// At a point that lies neither inside a triangle nor on its border, at
/// least one weight lies outside the closed interval from zero to one: the
/// point is not covered.
pub proof fn lemma_outside_weights(p: Vec3, a: Vec3, b: Vec3, c: Vec3)
    requires
        !inside_or_on_border(p, a, b, c),
    ensures
        !covers(weights_spec(p, a, b, c)),
{
    if covers(weights_spec(p, a, b, c)) {
        lemma_covered_is_inside(p, a, b, c);
    }
}

} // verus!
