//! Small identities of integer arithmetic that the proofs about edge
//! functions are assembled from.
use vstd::prelude::*;

verus! {

/// A product of two differences, multiplied out.
pub proof fn lemma_expand(x: int, y: int, z: int, w: int)
    ensures
        (x - y) * (z - w) == x * z - x * w - y * z + y * w,
{
    assert((x - y) * (z - w) == x * z - x * w - y * z + y * w) by (nonlinear_arith);
}

/// Multiplication distributes over a difference.
pub proof fn lemma_mul_sub(x: int, y: int, z: int)
    ensures
        x * (y - z) == x * y - x * z,
        (y - z) * x == y * x - z * x,
{
    assert(x * (y - z) == x * y - x * z) by (nonlinear_arith);
    assert((y - z) * x == y * x - z * x) by (nonlinear_arith);
}

/// Multiplication distributes over a sum of three.
pub proof fn lemma_mul_sum3(x: int, y: int, z: int, w: int)
    ensures
        (x + y + z) * w == x * w + y * w + z * w,
{
    assert((x + y + z) * w == x * w + y * w + z * w) by (nonlinear_arith);
}

/// A product of three factors, in the orders that the proofs below meet.
pub proof fn lemma_mul3(a: int, b: int, c: int)
    ensures
        (a * b) * c == a * (b * c),
        (a * b) * c == (c * b) * a,
        (a * b) * c == (a * c) * b,
        (a * b) * c == (b * a) * c,
{
    assert((a * b) * c == a * (b * c)) by (nonlinear_arith);
    assert((a * b) * c == (c * b) * a) by (nonlinear_arith);
    assert((a * b) * c == (a * c) * b) by (nonlinear_arith);
    assert((a * b) * c == (b * a) * c) by (nonlinear_arith);
}

/// Multiplication distributes over a sum.
pub proof fn lemma_mul_add(x: int, y: int, z: int)
    ensures
        (x + y) * z == x * z + y * z,
        z * (x + y) == z * x + z * y,
{
    assert((x + y) * z == x * z + y * z) by (nonlinear_arith);
    assert(z * (x + y) == z * x + z * y) by (nonlinear_arith);
}

/// A factor moves into a difference of two products.
pub proof fn lemma_scale_cross(s: int, x: int, u: int, y: int, v: int)
    ensures
        s * (x * u - y * v) == (s * x) * u - (s * y) * v,
{
    lemma_mul_sub(s, x * u, y * v);
    lemma_mul3(s, x, u);
    lemma_mul3(s, y, v);
}

/// The cross product is linear in its first vector, and the cross product
/// of a vector with itself vanishes.
pub proof fn lemma_cross_of_combination(l1: int, l3: int, ax: int, ay: int, u: int, v: int)
    ensures
        (l1 * ax + l3 * v) * u - (l1 * ay + l3 * u) * v == l1 * (ax * u - ay * v),
{
    lemma_mul_add(l1 * ax, l3 * v, u);
    lemma_mul_add(l1 * ay, l3 * u, v);
    lemma_mul3(l1, ax, u);
    lemma_mul3(l1, ay, v);
    lemma_mul3(l3, v, u);
    lemma_mul_sub(l1, ax * u, ay * v);
}

/// Cramer's rule in the plane: a vector is recovered from its cross products
/// with two others.
pub proof fn lemma_cramer(bx: int, by: int, cx: int, cy: int, px: int, py: int)
    ensures
        (cx * by - cy * bx) * px == (py * cx - px * cy) * bx + (px * by - py * bx) * cx,
        (cx * by - cy * bx) * py == (py * cx - px * cy) * by + (px * by - py * bx) * cy,
{
    lemma_mul_sub(px, cx * by, cy * bx);
    lemma_mul_sub(bx, py * cx, px * cy);
    lemma_mul_sub(cx, px * by, py * bx);
    lemma_mul3(cx, by, px);
    lemma_mul3(cy, bx, px);
    lemma_mul3(py, cx, bx);
    lemma_mul3(px, cy, bx);
    lemma_mul3(px, by, cx);
    lemma_mul3(py, bx, cx);

    lemma_mul_sub(py, cx * by, cy * bx);
    lemma_mul_sub(by, py * cx, px * cy);
    lemma_mul_sub(cy, px * by, py * bx);
    lemma_mul3(cx, by, py);
    lemma_mul3(cy, bx, py);
    lemma_mul3(py, cx, by);
    lemma_mul3(px, cy, by);
    lemma_mul3(px, by, cy);
    lemma_mul3(py, bx, cy);
}

/// A weighted sum, with weights that are not negative, of values that are
/// at least `lo` is at least `lo` times the sum of the weights.
pub proof fn lemma_weighted_sum_above(
    lo: int,
    v1: int,
    v2: int,
    v3: int,
    e1: int,
    e2: int,
    e3: int,
)
    requires
        lo <= v1,
        lo <= v2,
        lo <= v3,
        0 <= e1,
        0 <= e2,
        0 <= e3,
    ensures
        lo * (e1 + e2 + e3) <= v1 * e1 + v2 * e2 + v3 * e3,
{
    assert((v1 - lo) * e1 >= 0) by (nonlinear_arith)
        requires
            v1 - lo >= 0,
            e1 >= 0,
    ;
    assert((v2 - lo) * e2 >= 0) by (nonlinear_arith)
        requires
            v2 - lo >= 0,
            e2 >= 0,
    ;
    assert((v3 - lo) * e3 >= 0) by (nonlinear_arith)
        requires
            v3 - lo >= 0,
            e3 >= 0,
    ;
    lemma_mul_sub(e1, v1, lo);
    lemma_mul_sub(e2, v2, lo);
    lemma_mul_sub(e3, v3, lo);
    assert(lo * (e1 + e2 + e3) == lo * e1 + lo * e2 + lo * e3) by (nonlinear_arith);
}

/// The same from above: values that are at most `hi` sum to at most `hi`
/// times the sum of the weights.
pub proof fn lemma_weighted_sum_below(
    hi: int,
    v1: int,
    v2: int,
    v3: int,
    e1: int,
    e2: int,
    e3: int,
)
    requires
        v1 <= hi,
        v2 <= hi,
        v3 <= hi,
        0 <= e1,
        0 <= e2,
        0 <= e3,
    ensures
        v1 * e1 + v2 * e2 + v3 * e3 <= hi * (e1 + e2 + e3),
{
    lemma_weighted_sum_above(-hi, -v1, -v2, -v3, e1, e2, e3);
    lemma_negate_product(hi, e1 + e2 + e3);
    lemma_negate_product(v1, e1);
    lemma_negate_product(v2, e2);
    lemma_negate_product(v3, e3);
}

/// A sign moves out of a product.
pub proof fn lemma_negate_product(x: int, y: int)
    ensures
        (-x) * y == -(x * y),
        x * (-y) == -(x * y),
{
    assert((-x) * y == -(x * y)) by (nonlinear_arith);
    assert(x * (-y) == -(x * y)) by (nonlinear_arith);
}

/// With `s` positive, a product `s * e` that equals a share `l` of `area`
/// with `0 < l < s` puts `e` strictly between zero and `area`.
pub proof fn lemma_share_positive(e: int, area: int, l: int, s: int)
    requires
        area > 0,
        0 < l < s,
        s * e == l * area,
    ensures
        0 < e < area,
{
    assert(0 < e < area) by (nonlinear_arith)
        requires
            area > 0,
            0 < l < s,
            s * e == l * area,
    ;
}

/// The same for a negative `area`.
pub proof fn lemma_share_negative(e: int, area: int, l: int, s: int)
    requires
        area < 0,
        0 < l < s,
        s * e == l * area,
    ensures
        area < e < 0,
{
    assert(area < e < 0) by (nonlinear_arith)
        requires
            area < 0,
            0 < l < s,
            s * e == l * area,
    ;
}

} // verus!
