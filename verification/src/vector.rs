//! Vectors and matrices over 16.16 fixed-point scalars.
//!
//! A product of two scalars is kept exact in a wide integer until a whole sum
//! of products has been formed; only then is it rescaled and pinned into
//! range. So a dot product is rounded once, not once per term.
use crate::fixed::{
    div_floor, floor_ratio, int_sqrt, is_int_sqrt, isqrt, lemma_floor_ratio_between,
    lemma_int_sqrt_exists, narrow, saturate, saturate_i32, wide_product, ONE,
};
use vstd::prelude::*;

verus! {

/// A pair of scalars.
#[derive(Clone, Copy, Debug, PartialEq, Eq, Structural)]
pub struct Vec2 {
    pub x: i32,
    pub y: i32,
}

/// A triple of scalars.
#[derive(Clone, Copy, Debug, PartialEq, Eq, Structural)]
pub struct Vec3 {
    pub x: i32,
    pub y: i32,
    pub z: i32,
}

/// A homogeneous point or direction.
#[derive(Clone, Copy, Debug, PartialEq, Eq, Structural)]
pub struct Vec4 {
    pub x: i32,
    pub y: i32,
    pub z: i32,
    pub w: i32,
}

/// A 3×3 matrix, held by rows.
#[derive(Clone, Copy, Debug, PartialEq, Eq, Structural)]
pub struct Mat3 {
    pub r0: Vec3,
    pub r1: Vec3,
    pub r2: Vec3,
}

/// A 4×4 homogeneous transform, held by rows.
#[derive(Clone, Copy, Debug, PartialEq, Eq, Structural)]
pub struct Mat4 {
    pub r0: Vec4,
    pub r1: Vec4,
    pub r2: Vec4,
    pub r3: Vec4,
}

/// The sine and the cosine of an angle, as scalars. The library computes
/// no trigonometric function: whoever knows the angle supplies both.
#[derive(Clone, Copy, Debug, PartialEq, Eq, Structural)]
pub struct Angle {
    pub sin: i32,
    pub cos: i32,
}

impl Vec2 {
    pub fn new(x: i32, y: i32) -> (v: Vec2)
        ensures
            v == (Vec2 { x, y }),
    {
        Vec2 { x, y }
    }
}

impl Vec3 {
    pub fn new(x: i32, y: i32, z: i32) -> (v: Vec3)
        ensures
            v == (Vec3 { x, y, z }),
    {
        Vec3 { x, y, z }
    }

    /// The vector of three zeros.
    pub open spec fn zero_spec() -> Vec3 {
        Vec3 { x: 0, y: 0, z: 0 }
    }

    pub fn zeros() -> (v: Vec3)
        ensures
            v == Vec3::zero_spec(),
    {
        Vec3 { x: 0, y: 0, z: 0 }
    }

    /// The exact sum of the products of the stored integers, at twice the
    /// scale of a scalar.
    pub open spec fn dot_wide(self, other: Vec3) -> int {
        self.x * other.x + self.y * other.y + self.z * other.z
    }

    /// The dot product, rounded once.
    pub open spec fn dot_spec(self, other: Vec3) -> i32 {
        saturate(self.dot_wide(other) / (ONE as int))
    }

    /// The exact sum of products as a wide integer.
    pub fn wide_dot(&self, other: &Vec3) -> (d: i128)
        ensures
            d == self.dot_wide(*other),
            -0xc000_0000_0000_0000 < d <= 0xc000_0000_0000_0000,
    {
        let a: i128 = wide_product(self.x, other.x) as i128;
        let b: i128 = wide_product(self.y, other.y) as i128;
        let c: i128 = wide_product(self.z, other.z) as i128;
        a + b + c
    }

    pub fn dot(&self, other: &Vec3) -> (d: i32)
        ensures
            d == self.dot_spec(*other),
    {
        narrow(self.wide_dot(other))
    }

    /// The componentwise sum, each component pinned into range.
    pub open spec fn plus_spec(self, other: Vec3) -> Vec3 {
        Vec3 {
            x: saturate(self.x + other.x),
            y: saturate(self.y + other.y),
            z: saturate(self.z + other.z),
        }
    }

    pub fn plus(&self, other: &Vec3) -> (v: Vec3)
        ensures
            v == self.plus_spec(*other),
    {
        Vec3 {
            x: saturate_i32((self.x as i128) + (other.x as i128)),
            y: saturate_i32((self.y as i128) + (other.y as i128)),
            z: saturate_i32((self.z as i128) + (other.z as i128)),
        }
    }

    /// The componentwise difference, each component pinned into range.
    pub open spec fn minus_spec(self, other: Vec3) -> Vec3 {
        Vec3 {
            x: saturate(self.x - other.x),
            y: saturate(self.y - other.y),
            z: saturate(self.z - other.z),
        }
    }

    pub fn minus(&self, other: &Vec3) -> (v: Vec3)
        ensures
            v == self.minus_spec(*other),
    {
        Vec3 {
            x: saturate_i32((self.x as i128) - (other.x as i128)),
            y: saturate_i32((self.y as i128) - (other.y as i128)),
            z: saturate_i32((self.z as i128) - (other.z as i128)),
        }
    }

    /// The Euclidean length as a scalar, rounded down.
    pub open spec fn length_spec(self) -> int {
        int_sqrt(self.dot_wide(self))
    }

    pub fn length(&self) -> (len: u32)
        ensures
            len == self.length_spec(),
            is_int_sqrt(self.dot_wide(*self), len as int),
    {
        let d: i128 = self.wide_dot(self);
        assert(d >= 0) by (nonlinear_arith)
            requires
                d == self.x * self.x + self.y * self.y + self.z * self.z,
        ;
        isqrt(d as u64)
    }

    /// One component of a vector divided by the vector's length.
    pub open spec fn unit_component(c: i32, len: int) -> i32 {
        saturate(floor_ratio(c * (ONE as int), len))
    }

    /// The vector scaled to unit length. The zero vector, which has no
    /// direction, is left as it is.
    pub open spec fn normalize_spec(self) -> Vec3 {
        let len = self.length_spec();
        if len == 0 {
            self
        } else {
            Vec3 {
                x: Vec3::unit_component(self.x, len),
                y: Vec3::unit_component(self.y, len),
                z: Vec3::unit_component(self.z, len),
            }
        }
    }

    pub fn normalize(&self) -> (v: Vec3)
        ensures
            v == self.normalize_spec(),
    {
        let len: u32 = self.length();
        if len == 0 {
            *self
        } else {
            let l: i128 = len as i128;
            Vec3 {
                x: saturate_i32(div_floor((self.x as i128) * 65536, l)),
                y: saturate_i32(div_floor((self.y as i128) * 65536, l)),
                z: saturate_i32(div_floor((self.z as i128) * 65536, l)),
            }
        }
    }

    /// Every component of a normalized vector lies between minus one and one.
    pub proof fn lemma_normalize_bounded(self)
        requires
            self.length_spec() != 0,
        ensures
            -(ONE as int) <= self.normalize_spec().x <= ONE as int,
            -(ONE as int) <= self.normalize_spec().y <= ONE as int,
            -(ONE as int) <= self.normalize_spec().z <= ONE as int,
    {
        let d = self.dot_wide(self);
        assert(d >= 0) by (nonlinear_arith)
            requires
                d == self.x * self.x + self.y * self.y + self.z * self.z,
        ;
        lemma_int_sqrt_exists(d);
        let len = self.length_spec();
        assert(is_int_sqrt(d, len));
        lemma_component_within_length(self.x as int, self.y as int, self.z as int, len);
        lemma_component_within_length(self.y as int, self.x as int, self.z as int, len);
        lemma_component_within_length(self.z as int, self.x as int, self.y as int, len);
        lemma_unit_component_bounded(self.x, len);
        lemma_unit_component_bounded(self.y, len);
        lemma_unit_component_bounded(self.z, len);
    }
}

/// The magnitude of one component is at most the rounded-down length.
proof fn lemma_component_within_length(c: int, p: int, q: int, len: int)
    requires
        is_int_sqrt(c * c + p * p + q * q, len),
    ensures
        -len <= c <= len,
{
    assert(c * c < (len + 1) * (len + 1)) by (nonlinear_arith)
        requires
            c * c + p * p + q * q < (len + 1) * (len + 1),
    ;
    if c > len {
        assert(c * c >= (len + 1) * (len + 1)) by (nonlinear_arith)
            requires
                c >= len + 1,
                len >= 0,
        ;
    }
    if c < -len {
        assert(c * c >= (len + 1) * (len + 1)) by (nonlinear_arith)
            requires
                -c >= len + 1,
                len >= 0,
        ;
    }
}

/// A component no longer than the length divides to at most one.
proof fn lemma_unit_component_bounded(c: i32, len: int)
    requires
        len > 0,
        -len <= c <= len,
    ensures
        -(ONE as int) <= Vec3::unit_component(c, len) <= ONE as int,
{
    let n = c * (ONE as int);
    assert(-65536 * len <= n <= 65536 * len);
    lemma_floor_ratio_between(n, len, -65536, 65536);
}

impl Vec4 {
    pub fn new(x: i32, y: i32, z: i32, w: i32) -> (v: Vec4)
        ensures
            v == (Vec4 { x, y, z, w }),
    {
        Vec4 { x, y, z, w }
    }

    /// The exact sum of the products of the stored integers.
    pub open spec fn dot_wide(self, other: Vec4) -> int {
        self.x * other.x + self.y * other.y + self.z * other.z + self.w * other.w
    }

    /// The dot product, rounded once.
    pub open spec fn dot_spec(self, other: Vec4) -> i32 {
        saturate(self.dot_wide(other) / (ONE as int))
    }

    pub fn dot(&self, other: &Vec4) -> (d: i32)
        ensures
            d == self.dot_spec(*other),
    {
        let a: i128 = wide_product(self.x, other.x) as i128;
        let b: i128 = wide_product(self.y, other.y) as i128;
        let c: i128 = wide_product(self.z, other.z) as i128;
        let e: i128 = wide_product(self.w, other.w) as i128;
        narrow(a + b + c + e)
    }
}

/// The determinant of a 2×2 block of stored integers.
pub open spec fn minor_wide(p: i32, q: i32, r: i32, s: i32) -> int {
    p * s - q * r
}

fn minor(p: i32, q: i32, r: i32, s: i32) -> (m: i128)
    ensures
        m == minor_wide(p, q, r, s),
        -0x8000_0000_0000_0000 <= m <= 0x8000_0000_0000_0000,
{
    (wide_product(p, s) as i128) - (wide_product(q, r) as i128)
}

fn scale_minor(a: i32, m: i128) -> (r: i128)
    requires
        -0x8000_0000_0000_0000 <= m <= 0x8000_0000_0000_0000,
    ensures
        r == a * m,
        -0x4000_0000_0000_0000_0000_0000 <= r <= 0x4000_0000_0000_0000_0000_0000,
{
    let x: i128 = a as i128;
    assert(-0x4000_0000_0000_0000_0000_0000 <= x * m <= 0x4000_0000_0000_0000_0000_0000)
        by (nonlinear_arith)
        requires
            -0x8000_0000 <= x <= 0x8000_0000,
            -0x8000_0000_0000_0000 <= m <= 0x8000_0000_0000_0000,
    ;
    x * m
}

/// One entry of an inverse: a cofactor over the determinant, as a scalar.
pub open spec fn inverse_entry(cofactor: int, det: int) -> i32 {
    saturate(floor_ratio(cofactor * 0x1_0000_0000, det))
}

fn entry_of_inverse(cofactor: i128, det: i128) -> (e: i32)
    requires
        det != 0,
        -0x8000_0000_0000_0000 <= cofactor <= 0x8000_0000_0000_0000,
        -0x1_0000_0000_0000_0000_0000_0000 <= det <= 0x1_0000_0000_0000_0000_0000_0000,
    ensures
        e == inverse_entry(cofactor as int, det as int),
{
    saturate_i32(div_floor(cofactor * 0x1_0000_0000, det))
}

impl Mat3 {
    /// The matrix that leaves every vector as it is.
    pub open spec fn identity_spec() -> Mat3 {
        Mat3 {
            r0: Vec3 { x: ONE, y: 0, z: 0 },
            r1: Vec3 { x: 0, y: ONE, z: 0 },
            r2: Vec3 { x: 0, y: 0, z: ONE },
        }
    }

    pub fn identity() -> (m: Mat3)
        ensures
            m == Mat3::identity_spec(),
    {
        Mat3 {
            r0: Vec3 { x: ONE, y: 0, z: 0 },
            r1: Vec3 { x: 0, y: ONE, z: 0 },
            r2: Vec3 { x: 0, y: 0, z: ONE },
        }
    }

    /// Rows and columns exchanged.
    pub open spec fn transpose_spec(self) -> Mat3 {
        Mat3 {
            r0: Vec3 { x: self.r0.x, y: self.r1.x, z: self.r2.x },
            r1: Vec3 { x: self.r0.y, y: self.r1.y, z: self.r2.y },
            r2: Vec3 { x: self.r0.z, y: self.r1.z, z: self.r2.z },
        }
    }

    pub fn transpose(&self) -> (m: Mat3)
        ensures
            m == self.transpose_spec(),
    {
        Mat3 {
            r0: Vec3 { x: self.r0.x, y: self.r1.x, z: self.r2.x },
            r1: Vec3 { x: self.r0.y, y: self.r1.y, z: self.r2.y },
            r2: Vec3 { x: self.r0.z, y: self.r1.z, z: self.r2.z },
        }
    }

    /// The exact determinant of the stored integers, at three times the
    /// scale of a scalar.
    pub open spec fn det_wide(self) -> int {
        self.r0.x * minor_wide(self.r1.y, self.r1.z, self.r2.y, self.r2.z)
            - self.r0.y * minor_wide(self.r1.x, self.r1.z, self.r2.x, self.r2.z)
            + self.r0.z * minor_wide(self.r1.x, self.r1.y, self.r2.x, self.r2.y)
    }

    /// The inverse by cofactors over the determinant, or `None` for a
    /// matrix whose determinant is zero.
    pub open spec fn try_inverse_spec(self) -> Option<Mat3> {
        let det = self.det_wide();
        if det == 0 {
            None
        } else {
            Some(
                Mat3 {
                    r0: Vec3 {
                        x: inverse_entry(
                            minor_wide(self.r1.y, self.r1.z, self.r2.y, self.r2.z),
                            det,
                        ),
                        y: inverse_entry(
                            -minor_wide(self.r0.y, self.r0.z, self.r2.y, self.r2.z),
                            det,
                        ),
                        z: inverse_entry(
                            minor_wide(self.r0.y, self.r0.z, self.r1.y, self.r1.z),
                            det,
                        ),
                    },
                    r1: Vec3 {
                        x: inverse_entry(
                            -minor_wide(self.r1.x, self.r1.z, self.r2.x, self.r2.z),
                            det,
                        ),
                        y: inverse_entry(
                            minor_wide(self.r0.x, self.r0.z, self.r2.x, self.r2.z),
                            det,
                        ),
                        z: inverse_entry(
                            -minor_wide(self.r0.x, self.r0.z, self.r1.x, self.r1.z),
                            det,
                        ),
                    },
                    r2: Vec3 {
                        x: inverse_entry(
                            minor_wide(self.r1.x, self.r1.y, self.r2.x, self.r2.y),
                            det,
                        ),
                        y: inverse_entry(
                            -minor_wide(self.r0.x, self.r0.y, self.r2.x, self.r2.y),
                            det,
                        ),
                        z: inverse_entry(
                            minor_wide(self.r0.x, self.r0.y, self.r1.x, self.r1.y),
                            det,
                        ),
                    },
                },
            )
        }
    }

    pub fn try_inverse(&self) -> (r: Option<Mat3>)
        ensures
            r == self.try_inverse_spec(),
    {
        let c00: i128 = minor(self.r1.y, self.r1.z, self.r2.y, self.r2.z);
        let c01: i128 = minor(self.r1.x, self.r1.z, self.r2.x, self.r2.z);
        let c02: i128 = minor(self.r1.x, self.r1.y, self.r2.x, self.r2.y);
        let det: i128 = scale_minor(self.r0.x, c00) - scale_minor(self.r0.y, c01) + scale_minor(
            self.r0.z,
            c02,
        );
        if det == 0 {
            None
        } else {
            let c10: i128 = minor(self.r0.y, self.r0.z, self.r2.y, self.r2.z);
            let c11: i128 = minor(self.r0.x, self.r0.z, self.r2.x, self.r2.z);
            let c12: i128 = minor(self.r0.x, self.r0.y, self.r2.x, self.r2.y);
            let c20: i128 = minor(self.r0.y, self.r0.z, self.r1.y, self.r1.z);
            let c21: i128 = minor(self.r0.x, self.r0.z, self.r1.x, self.r1.z);
            let c22: i128 = minor(self.r0.x, self.r0.y, self.r1.x, self.r1.y);
            Some(
                Mat3 {
                    r0: Vec3 {
                        x: entry_of_inverse(c00, det),
                        y: entry_of_inverse(-c10, det),
                        z: entry_of_inverse(c20, det),
                    },
                    r1: Vec3 {
                        x: entry_of_inverse(-c01, det),
                        y: entry_of_inverse(c11, det),
                        z: entry_of_inverse(-c21, det),
                    },
                    r2: Vec3 {
                        x: entry_of_inverse(c02, det),
                        y: entry_of_inverse(-c12, det),
                        z: entry_of_inverse(c22, det),
                    },
                },
            )
        }
    }

    /// The matrix applied to a column vector.
    pub open spec fn transform_spec(self, v: Vec3) -> Vec3 {
        Vec3 { x: self.r0.dot_spec(v), y: self.r1.dot_spec(v), z: self.r2.dot_spec(v) }
    }

    pub fn transform(&self, v: &Vec3) -> (r: Vec3)
        ensures
            r == self.transform_spec(*v),
    {
        Vec3 { x: self.r0.dot(v), y: self.r1.dot(v), z: self.r2.dot(v) }
    }
}

impl Mat4 {
    /// The matrix that leaves every vector as it is.
    pub open spec fn identity_spec() -> Mat4 {
        Mat4 {
            r0: Vec4 { x: ONE, y: 0, z: 0, w: 0 },
            r1: Vec4 { x: 0, y: ONE, z: 0, w: 0 },
            r2: Vec4 { x: 0, y: 0, z: ONE, w: 0 },
            r3: Vec4 { x: 0, y: 0, z: 0, w: ONE },
        }
    }

    pub fn identity() -> (m: Mat4)
        ensures
            m == Mat4::identity_spec(),
    {
        Mat4 {
            r0: Vec4 { x: ONE, y: 0, z: 0, w: 0 },
            r1: Vec4 { x: 0, y: ONE, z: 0, w: 0 },
            r2: Vec4 { x: 0, y: 0, z: ONE, w: 0 },
            r3: Vec4 { x: 0, y: 0, z: 0, w: ONE },
        }
    }

    /// The first column.
    pub open spec fn col0(self) -> Vec4 {
        Vec4 { x: self.r0.x, y: self.r1.x, z: self.r2.x, w: self.r3.x }
    }

    /// The second column.
    pub open spec fn col1(self) -> Vec4 {
        Vec4 { x: self.r0.y, y: self.r1.y, z: self.r2.y, w: self.r3.y }
    }

    /// The third column.
    pub open spec fn col2(self) -> Vec4 {
        Vec4 { x: self.r0.z, y: self.r1.z, z: self.r2.z, w: self.r3.z }
    }

    /// The fourth column.
    pub open spec fn col3(self) -> Vec4 {
        Vec4 { x: self.r0.w, y: self.r1.w, z: self.r2.w, w: self.r3.w }
    }

    /// The matrix applied to a column vector.
    pub open spec fn transform_spec(self, v: Vec4) -> Vec4 {
        Vec4 {
            x: self.r0.dot_spec(v),
            y: self.r1.dot_spec(v),
            z: self.r2.dot_spec(v),
            w: self.r3.dot_spec(v),
        }
    }

    pub fn transform(&self, v: &Vec4) -> (r: Vec4)
        ensures
            r == self.transform_spec(*v),
    {
        Vec4 { x: self.r0.dot(v), y: self.r1.dot(v), z: self.r2.dot(v), w: self.r3.dot(v) }
    }

    /// One row of a product: a row of the left factor against each column
    /// of the right one.
    pub open spec fn row_times(row: Vec4, rhs: Mat4) -> Vec4 {
        Vec4 {
            x: row.dot_spec(rhs.col0()),
            y: row.dot_spec(rhs.col1()),
            z: row.dot_spec(rhs.col2()),
            w: row.dot_spec(rhs.col3()),
        }
    }

    /// The matrix product `self · rhs`, each entry rounded once.
    pub open spec fn times_spec(self, rhs: Mat4) -> Mat4 {
        Mat4 {
            r0: Mat4::row_times(self.r0, rhs),
            r1: Mat4::row_times(self.r1, rhs),
            r2: Mat4::row_times(self.r2, rhs),
            r3: Mat4::row_times(self.r3, rhs),
        }
    }

    pub fn times(&self, rhs: &Mat4) -> (m: Mat4)
        ensures
            m == self.times_spec(*rhs),
    {
        let c0: Vec4 = Vec4 { x: rhs.r0.x, y: rhs.r1.x, z: rhs.r2.x, w: rhs.r3.x };
        let c1: Vec4 = Vec4 { x: rhs.r0.y, y: rhs.r1.y, z: rhs.r2.y, w: rhs.r3.y };
        let c2: Vec4 = Vec4 { x: rhs.r0.z, y: rhs.r1.z, z: rhs.r2.z, w: rhs.r3.z };
        let c3: Vec4 = Vec4 { x: rhs.r0.w, y: rhs.r1.w, z: rhs.r2.w, w: rhs.r3.w };
        Mat4 {
            r0: Vec4 {
                x: self.r0.dot(&c0),
                y: self.r0.dot(&c1),
                z: self.r0.dot(&c2),
                w: self.r0.dot(&c3),
            },
            r1: Vec4 {
                x: self.r1.dot(&c0),
                y: self.r1.dot(&c1),
                z: self.r1.dot(&c2),
                w: self.r1.dot(&c3),
            },
            r2: Vec4 {
                x: self.r2.dot(&c0),
                y: self.r2.dot(&c1),
                z: self.r2.dot(&c2),
                w: self.r2.dot(&c3),
            },
            r3: Vec4 {
                x: self.r3.dot(&c0),
                y: self.r3.dot(&c1),
                z: self.r3.dot(&c2),
                w: self.r3.dot(&c3),
            },
        }
    }

    /// The upper-left 3×3 block: the linear part of the transform.
    pub open spec fn linear_part_spec(self) -> Mat3 {
        Mat3 {
            r0: Vec3 { x: self.r0.x, y: self.r0.y, z: self.r0.z },
            r1: Vec3 { x: self.r1.x, y: self.r1.y, z: self.r1.z },
            r2: Vec3 { x: self.r2.x, y: self.r2.y, z: self.r2.z },
        }
    }

    pub fn linear_part(&self) -> (m: Mat3)
        ensures
            m == self.linear_part_spec(),
    {
        Mat3 {
            r0: Vec3 { x: self.r0.x, y: self.r0.y, z: self.r0.z },
            r1: Vec3 { x: self.r1.x, y: self.r1.y, z: self.r1.z },
            r2: Vec3 { x: self.r2.x, y: self.r2.y, z: self.r2.z },
        }
    }

    /// The transform that moves every point by `t`.
    pub open spec fn translation_spec(t: Vec3) -> Mat4 {
        Mat4 {
            r0: Vec4 { x: ONE, y: 0, z: 0, w: t.x },
            r1: Vec4 { x: 0, y: ONE, z: 0, w: t.y },
            r2: Vec4 { x: 0, y: 0, z: ONE, w: t.z },
            r3: Vec4 { x: 0, y: 0, z: 0, w: ONE },
        }
    }

    pub fn translation(t: &Vec3) -> (m: Mat4)
        ensures
            m == Mat4::translation_spec(*t),
    {
        Mat4 {
            r0: Vec4 { x: ONE, y: 0, z: 0, w: t.x },
            r1: Vec4 { x: 0, y: ONE, z: 0, w: t.y },
            r2: Vec4 { x: 0, y: 0, z: ONE, w: t.z },
            r3: Vec4 { x: 0, y: 0, z: 0, w: ONE },
        }
    }

    /// The rotation about the x axis by an angle.
    pub open spec fn rotation_x_spec(a: Angle) -> Mat4 {
        Mat4 {
            r0: Vec4 { x: ONE, y: 0, z: 0, w: 0 },
            r1: Vec4 { x: 0, y: a.cos, z: saturate(-a.sin), w: 0 },
            r2: Vec4 { x: 0, y: a.sin, z: a.cos, w: 0 },
            r3: Vec4 { x: 0, y: 0, z: 0, w: ONE },
        }
    }

    pub fn rotation_x(a: &Angle) -> (m: Mat4)
        ensures
            m == Mat4::rotation_x_spec(*a),
    {
        Mat4 {
            r0: Vec4 { x: ONE, y: 0, z: 0, w: 0 },
            r1: Vec4 { x: 0, y: a.cos, z: saturate_i32(-(a.sin as i128)), w: 0 },
            r2: Vec4 { x: 0, y: a.sin, z: a.cos, w: 0 },
            r3: Vec4 { x: 0, y: 0, z: 0, w: ONE },
        }
    }

    /// The rotation about the y axis by an angle.
    pub open spec fn rotation_y_spec(a: Angle) -> Mat4 {
        Mat4 {
            r0: Vec4 { x: a.cos, y: 0, z: a.sin, w: 0 },
            r1: Vec4 { x: 0, y: ONE, z: 0, w: 0 },
            r2: Vec4 { x: saturate(-a.sin), y: 0, z: a.cos, w: 0 },
            r3: Vec4 { x: 0, y: 0, z: 0, w: ONE },
        }
    }

    pub fn rotation_y(a: &Angle) -> (m: Mat4)
        ensures
            m == Mat4::rotation_y_spec(*a),
    {
        Mat4 {
            r0: Vec4 { x: a.cos, y: 0, z: a.sin, w: 0 },
            r1: Vec4 { x: 0, y: ONE, z: 0, w: 0 },
            r2: Vec4 { x: saturate_i32(-(a.sin as i128)), y: 0, z: a.cos, w: 0 },
            r3: Vec4 { x: 0, y: 0, z: 0, w: ONE },
        }
    }

    /// The rotation about the z axis by an angle.
    pub open spec fn rotation_z_spec(a: Angle) -> Mat4 {
        Mat4 {
            r0: Vec4 { x: a.cos, y: saturate(-a.sin), z: 0, w: 0 },
            r1: Vec4 { x: a.sin, y: a.cos, z: 0, w: 0 },
            r2: Vec4 { x: 0, y: 0, z: ONE, w: 0 },
            r3: Vec4 { x: 0, y: 0, z: 0, w: ONE },
        }
    }

    pub fn rotation_z(a: &Angle) -> (m: Mat4)
        ensures
            m == Mat4::rotation_z_spec(*a),
    {
        Mat4 {
            r0: Vec4 { x: a.cos, y: saturate_i32(-(a.sin as i128)), z: 0, w: 0 },
            r1: Vec4 { x: a.sin, y: a.cos, z: 0, w: 0 },
            r2: Vec4 { x: 0, y: 0, z: ONE, w: 0 },
            r3: Vec4 { x: 0, y: 0, z: 0, w: ONE },
        }
    }

    /// The transform that scales all three axes by `s`.
    pub open spec fn scaling_spec(s: i32) -> Mat4 {
        Mat4 {
            r0: Vec4 { x: s, y: 0, z: 0, w: 0 },
            r1: Vec4 { x: 0, y: s, z: 0, w: 0 },
            r2: Vec4 { x: 0, y: 0, z: s, w: 0 },
            r3: Vec4 { x: 0, y: 0, z: 0, w: ONE },
        }
    }

    pub fn scaling(s: i32) -> (m: Mat4)
        ensures
            m == Mat4::scaling_spec(s),
    {
        Mat4 {
            r0: Vec4 { x: s, y: 0, z: 0, w: 0 },
            r1: Vec4 { x: 0, y: s, z: 0, w: 0 },
            r2: Vec4 { x: 0, y: 0, z: s, w: 0 },
            r3: Vec4 { x: 0, y: 0, z: 0, w: ONE },
        }
    }
}

/// A row of the identity picks one component of a vector.
proof fn lemma_unit_rows(v: Vec4)
    ensures
        (Vec4 { x: ONE, y: 0, z: 0, w: 0 }).dot_spec(v) == v.x,
        (Vec4 { x: 0, y: ONE, z: 0, w: 0 }).dot_spec(v) == v.y,
        (Vec4 { x: 0, y: 0, z: ONE, w: 0 }).dot_spec(v) == v.z,
        (Vec4 { x: 0, y: 0, z: 0, w: ONE }).dot_spec(v) == v.w,
        v.dot_spec(Vec4 { x: ONE, y: 0, z: 0, w: 0 }) == v.x,
        v.dot_spec(Vec4 { x: 0, y: ONE, z: 0, w: 0 }) == v.y,
        v.dot_spec(Vec4 { x: 0, y: 0, z: ONE, w: 0 }) == v.z,
        v.dot_spec(Vec4 { x: 0, y: 0, z: 0, w: ONE }) == v.w,
{
}

/// The identity leaves every vector as it is, exactly.
pub proof fn lemma_identity_transform(v: Vec4)
    ensures
        Mat4::identity_spec().transform_spec(v) == v,
{
    lemma_unit_rows(v);
}

/// The identity is neutral for the matrix product on either side, exactly.
pub proof fn lemma_identity_times(m: Mat4)
    ensures
        Mat4::identity_spec().times_spec(m) == m,
        m.times_spec(Mat4::identity_spec()) == m,
{
    lemma_unit_rows(m.col0());
    lemma_unit_rows(m.col1());
    lemma_unit_rows(m.col2());
    lemma_unit_rows(m.col3());
    lemma_unit_rows(m.r0);
    lemma_unit_rows(m.r1);
    lemma_unit_rows(m.r2);
    lemma_unit_rows(m.r3);
}

} // verus!
