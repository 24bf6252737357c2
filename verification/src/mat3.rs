//! Three-by-three matrices, stored row-major: `r0` is the top row, and
//! `mul_vec` treats its argument as a column on the right.
//!
//! The arithmetic is implemented for the `i64` instantiation [`Mat3I`].
//! Over the integers a matrix has an inverse exactly when its determinant
//! is nonzero and divides every adjugate entry; [`Matrix3::try_inverse`]
//! reports any other input as singular by returning `None`, and its
//! contract proves that what it does return is a true right inverse.

use vstd::prelude::*;

use crate::num::div_exact_i64;
use crate::num::divides;
use crate::num::lemma_mul_le;
use crate::num::tdiv;
use crate::ops::Determinant;
use crate::ops::Dot;
use crate::ops::Inverse;
use crate::ops::Transpose;
use crate::vec3::Vec3I;
use crate::vec3::Vector3;

verus! {

/// A fixed grid of nine elements, as three rows.
#[derive(Debug, Copy, Clone, PartialEq, Eq, Structural)]
pub struct Matrix3<T> {
    pub r0: Vector3<T>,
    pub r1: Vector3<T>,
    pub r2: Vector3<T>,
}

/// The integer instantiation that carries the verified arithmetic.
pub type Mat3I = Matrix3<i64>;

/// Entry bound under which a matrix product stays inside `i64` (the same
/// three-product sums as a vector dot product).
pub const MAT3_MUL_MAX: i64 = 1_500_000_000;

/// Entry bound under which the determinant, the adjugate and the inverse
/// stay inside `i64` (sums of six triple products).
pub const MAT3_DET_MAX: i64 = 1_000_000;

impl<T> Matrix3<T> {
    /// Assemble a matrix from its three rows, top to bottom.
    pub fn new(r0: Vector3<T>, r1: Vector3<T>, r2: Vector3<T>) -> (r: Matrix3<T>)
        ensures
            r.r0 == r0,
            r.r1 == r1,
            r.r2 == r2,
    {
        Matrix3 { r0, r1, r2 }
    }
}

impl<T: Copy> Transpose for Matrix3<T> {
    open spec fn spec_transpose(&self) -> Matrix3<T> {
        Matrix3 {
            r0: Vector3 { x: self.r0.x, y: self.r1.x, z: self.r2.x },
            r1: Vector3 { x: self.r0.y, y: self.r1.y, z: self.r2.y },
            r2: Vector3 { x: self.r0.z, y: self.r1.z, z: self.r2.z },
        }
    }

    fn transpose(&self) -> (r: Matrix3<T>) {
        Matrix3 {
            r0: Vector3 { x: self.r0.x, y: self.r1.x, z: self.r2.x },
            r1: Vector3 { x: self.r0.y, y: self.r1.y, z: self.r2.y },
            r2: Vector3 { x: self.r0.z, y: self.r1.z, z: self.r2.z },
        }
    }
}

/// Transposing twice gives the original matrix back, exactly, for every
/// matrix and every element type.
pub proof fn lemma_transpose_involutive3<T: Copy>(m: Matrix3<T>)
    ensures
        m.spec_transpose().spec_transpose() == m,
{
}

impl Matrix3<i64> {
    /// All nine entries of `self` are bounded by `b` in magnitude.
    pub open spec fn entries_bounded(self, b: int) -> bool {
        &&& self.r0.coords_bounded(b)
        &&& self.r1.coords_bounded(b)
        &&& self.r2.coords_bounded(b)
    }

    /// Column `j`, read as a vector.
    pub open spec fn spec_col(self, j: int) -> Vec3I {
        Vector3 { x: self.r0.spec_index(j), y: self.r1.spec_index(j), z: self.r2.spec_index(j) }
    }

    /// The multiplicative identity.
    pub open spec fn spec_identity() -> Matrix3<i64> {
        Matrix3 {
            r0: Vector3 { x: 1i64, y: 0i64, z: 0i64 },
            r1: Vector3 { x: 0i64, y: 1i64, z: 0i64 },
            r2: Vector3 { x: 0i64, y: 0i64, z: 1i64 },
        }
    }

    /// The multiplicative identity.
    pub fn identity() -> (r: Matrix3<i64>)
        ensures
            r == Matrix3::<i64>::spec_identity(),
    {
        Matrix3 {
            r0: Vector3 { x: 1i64, y: 0i64, z: 0i64 },
            r1: Vector3 { x: 0i64, y: 1i64, z: 0i64 },
            r2: Vector3 { x: 0i64, y: 0i64, z: 1i64 },
        }
    }

    /// The determinant as a mathematical integer: cofactor expansion
    /// along the top row.
    pub open spec fn det_int(self) -> int {
        self.r0.x * (self.r1.y * self.r2.z - self.r1.z * self.r2.y) - self.r0.y * (self.r1.x
            * self.r2.z - self.r1.z * self.r2.x) + self.r0.z * (self.r1.x * self.r2.y - self.r1.y
            * self.r2.x)
    }

    /// The matrix product, row by column.
    pub open spec fn spec_mul(self, rhs: Matrix3<i64>) -> Matrix3<i64> {
        Matrix3 {
            r0: Vector3 {
                x: self.r0.spec_dot(&rhs.spec_col(0)),
                y: self.r0.spec_dot(&rhs.spec_col(1)),
                z: self.r0.spec_dot(&rhs.spec_col(2)),
            },
            r1: Vector3 {
                x: self.r1.spec_dot(&rhs.spec_col(0)),
                y: self.r1.spec_dot(&rhs.spec_col(1)),
                z: self.r1.spec_dot(&rhs.spec_col(2)),
            },
            r2: Vector3 {
                x: self.r2.spec_dot(&rhs.spec_col(0)),
                y: self.r2.spec_dot(&rhs.spec_col(1)),
                z: self.r2.spec_dot(&rhs.spec_col(2)),
            },
        }
    }

    /// Matrix times matrix.  Multiplication is not commutative: `self` is
    /// the left factor.
    pub fn mul_mat(&self, rhs: &Matrix3<i64>) -> (r: Matrix3<i64>)
        requires
            self.entries_bounded(MAT3_MUL_MAX as int),
            rhs.entries_bounded(MAT3_MUL_MAX as int),
        ensures
            r == self.spec_mul(*rhs),
    {
        let c0 = Vector3::new(rhs.r0.x, rhs.r1.x, rhs.r2.x);
        let c1 = Vector3::new(rhs.r0.y, rhs.r1.y, rhs.r2.y);
        let c2 = Vector3::new(rhs.r0.z, rhs.r1.z, rhs.r2.z);
        Matrix3 {
            r0: Vector3 { x: self.r0.dot(&c0), y: self.r0.dot(&c1), z: self.r0.dot(&c2) },
            r1: Vector3 { x: self.r1.dot(&c0), y: self.r1.dot(&c1), z: self.r1.dot(&c2) },
            r2: Vector3 { x: self.r2.dot(&c0), y: self.r2.dot(&c1), z: self.r2.dot(&c2) },
        }
    }

    /// Matrix times column vector: the linear map applied to `v`.
    pub fn mul_vec(&self, v: &Vec3I) -> (r: Vec3I)
        requires
            self.entries_bounded(MAT3_MUL_MAX as int),
            v.coords_bounded(MAT3_MUL_MAX as int),
        ensures
            r.x == self.r0.spec_dot(v),
            r.y == self.r1.spec_dot(v),
            r.z == self.r2.spec_dot(v),
    {
        Vector3 { x: self.r0.dot(v), y: self.r1.dot(v), z: self.r2.dot(v) }
    }

    /// The adjugate (transposed cofactor matrix), entry by entry.
    pub open spec fn spec_adjugate(self) -> Matrix3<i64> {
        Matrix3 {
            r0: Vector3 {
                x: (self.r1.y * self.r2.z - self.r1.z * self.r2.y) as i64,
                y: (-(self.r0.y * self.r2.z - self.r0.z * self.r2.y)) as i64,
                z: (self.r0.y * self.r1.z - self.r0.z * self.r1.y) as i64,
            },
            r1: Vector3 {
                x: (-(self.r1.x * self.r2.z - self.r1.z * self.r2.x)) as i64,
                y: (self.r0.x * self.r2.z - self.r0.z * self.r2.x) as i64,
                z: (-(self.r0.x * self.r1.z - self.r0.z * self.r1.x)) as i64,
            },
            r2: Vector3 {
                x: (self.r1.x * self.r2.y - self.r1.y * self.r2.x) as i64,
                y: (-(self.r0.x * self.r2.y - self.r0.y * self.r2.x)) as i64,
                z: (self.r0.x * self.r1.y - self.r0.y * self.r1.x) as i64,
            },
        }
    }

    /// An inverse exists within the integers: nonzero determinant that
    /// divides every adjugate entry.
    pub open spec fn spec_invertible(self) -> bool {
        &&& self.det_int() != 0
        &&& divides(self.det_int(), self.spec_adjugate().r0.x as int)
        &&& divides(self.det_int(), self.spec_adjugate().r0.y as int)
        &&& divides(self.det_int(), self.spec_adjugate().r0.z as int)
        &&& divides(self.det_int(), self.spec_adjugate().r1.x as int)
        &&& divides(self.det_int(), self.spec_adjugate().r1.y as int)
        &&& divides(self.det_int(), self.spec_adjugate().r1.z as int)
        &&& divides(self.det_int(), self.spec_adjugate().r2.x as int)
        &&& divides(self.det_int(), self.spec_adjugate().r2.y as int)
        &&& divides(self.det_int(), self.spec_adjugate().r2.z as int)
    }

    /// The inverse: adjugate over determinant.
    pub open spec fn spec_inverse(self) -> Matrix3<i64> {
        Matrix3 {
            r0: Vector3 {
                x: tdiv(self.spec_adjugate().r0.x as int, self.det_int()) as i64,
                y: tdiv(self.spec_adjugate().r0.y as int, self.det_int()) as i64,
                z: tdiv(self.spec_adjugate().r0.z as int, self.det_int()) as i64,
            },
            r1: Vector3 {
                x: tdiv(self.spec_adjugate().r1.x as int, self.det_int()) as i64,
                y: tdiv(self.spec_adjugate().r1.y as int, self.det_int()) as i64,
                z: tdiv(self.spec_adjugate().r1.z as int, self.det_int()) as i64,
            },
            r2: Vector3 {
                x: tdiv(self.spec_adjugate().r2.x as int, self.det_int()) as i64,
                y: tdiv(self.spec_adjugate().r2.y as int, self.det_int()) as i64,
                z: tdiv(self.spec_adjugate().r2.z as int, self.det_int()) as i64,
            },
        }
    }

    /// Two-by-two determinant of the block `[[p, q], [r, s]]`, the
    /// building stone of cofactors.
    fn det2(p: i64, q: i64, r: i64, s: i64) -> (d: i64)
        requires
            -1_000_000 <= p <= 1_000_000,
            -1_000_000 <= q <= 1_000_000,
            -1_000_000 <= r <= 1_000_000,
            -1_000_000 <= s <= 1_000_000,
        ensures
            d == p * s - q * r,
            -2_000_000_000_000 <= d <= 2_000_000_000_000,
    {
        proof {
            lemma_mul_le(p as int, s as int, 1_000_000, 1_000_000);
            lemma_mul_le(q as int, r as int, 1_000_000, 1_000_000);
        }
        p * s - q * r
    }

    /// The adjugate, computed cofactor by cofactor.
    pub fn adjugate(&self) -> (r: Matrix3<i64>)
        requires
            self.entries_bounded(MAT3_DET_MAX as int),
        ensures
            r == self.spec_adjugate(),
    {
        Matrix3 {
            r0: Vector3 {
                x: Self::det2(self.r1.y, self.r1.z, self.r2.y, self.r2.z),
                y: -Self::det2(self.r0.y, self.r0.z, self.r2.y, self.r2.z),
                z: Self::det2(self.r0.y, self.r0.z, self.r1.y, self.r1.z),
            },
            r1: Vector3 {
                x: -Self::det2(self.r1.x, self.r1.z, self.r2.x, self.r2.z),
                y: Self::det2(self.r0.x, self.r0.z, self.r2.x, self.r2.z),
                z: -Self::det2(self.r0.x, self.r0.z, self.r1.x, self.r1.z),
            },
            r2: Vector3 {
                x: Self::det2(self.r1.x, self.r1.y, self.r2.x, self.r2.y),
                y: -Self::det2(self.r0.x, self.r0.y, self.r2.x, self.r2.y),
                z: Self::det2(self.r0.x, self.r0.y, self.r1.x, self.r1.y),
            },
        }
    }

    /// Inversion with singularity reported as a value: `None` exactly
    /// when no integer inverse exists, and a proved right inverse
    /// otherwise.
    pub fn try_inverse(&self) -> (r: Option<Matrix3<i64>>)
        requires
            self.entries_bounded(MAT3_DET_MAX as int),
        ensures
            r is Some <==> self.spec_invertible(),
            r is Some ==> r.unwrap() == self.spec_inverse(),
            r is Some ==> self.spec_mul(r.unwrap()) == Matrix3::<i64>::spec_identity(),
    {
        proof {
            lemma_det_adj_bounds(*self);
        }
        let det: i64 = self.determinant();
        if det == 0 {
            return None;
        }
        let adj: Matrix3<i64> = self.adjugate();
        let q00 = match div_exact_i64(adj.r0.x, det) {
            Some(q) => q,
            None => { return None; },
        };
        let q01 = match div_exact_i64(adj.r0.y, det) {
            Some(q) => q,
            None => { return None; },
        };
        let q02 = match div_exact_i64(adj.r0.z, det) {
            Some(q) => q,
            None => { return None; },
        };
        let q10 = match div_exact_i64(adj.r1.x, det) {
            Some(q) => q,
            None => { return None; },
        };
        let q11 = match div_exact_i64(adj.r1.y, det) {
            Some(q) => q,
            None => { return None; },
        };
        let q12 = match div_exact_i64(adj.r1.z, det) {
            Some(q) => q,
            None => { return None; },
        };
        let q20 = match div_exact_i64(adj.r2.x, det) {
            Some(q) => q,
            None => { return None; },
        };
        let q21 = match div_exact_i64(adj.r2.y, det) {
            Some(q) => q,
            None => { return None; },
        };
        let q22 = match div_exact_i64(adj.r2.z, det) {
            Some(q) => q,
            None => { return None; },
        };
        let inv = Matrix3 {
            r0: Vector3 { x: q00, y: q01, z: q02 },
            r1: Vector3 { x: q10, y: q11, z: q12 },
            r2: Vector3 { x: q20, y: q21, z: q22 },
        };
        proof {
            lemma_adjugate_cancels(*self, inv);
        }
        Some(inv)
    }
}

/// Bounds that make the determinant and adjugate entries of a
/// `MAT3_DET_MAX`-bounded matrix representable, and their `i64` casts
/// exact.
proof fn lemma_det_adj_bounds(m: Matrix3<i64>)
    requires
        m.entries_bounded(MAT3_DET_MAX as int),
    ensures
        -6_000_000_000_000_000_000 <= m.det_int() <= 6_000_000_000_000_000_000,
        m.spec_adjugate().r0.x == m.r1.y * m.r2.z - m.r1.z * m.r2.y,
        m.spec_adjugate().r0.y == -(m.r0.y * m.r2.z - m.r0.z * m.r2.y),
        m.spec_adjugate().r0.z == m.r0.y * m.r1.z - m.r0.z * m.r1.y,
        m.spec_adjugate().r1.x == -(m.r1.x * m.r2.z - m.r1.z * m.r2.x),
        m.spec_adjugate().r1.y == m.r0.x * m.r2.z - m.r0.z * m.r2.x,
        m.spec_adjugate().r1.z == -(m.r0.x * m.r1.z - m.r0.z * m.r1.x),
        m.spec_adjugate().r2.x == m.r1.x * m.r2.y - m.r1.y * m.r2.x,
        m.spec_adjugate().r2.y == -(m.r0.x * m.r2.y - m.r0.y * m.r2.x),
        m.spec_adjugate().r2.z == m.r0.x * m.r1.y - m.r0.y * m.r1.x,
        m.spec_determinant() == m.det_int(),
        m.spec_adjugate().entries_bounded(2_000_000_000_000),
{
    let b: int = MAT3_DET_MAX as int;
    lemma_mul_le(m.r1.y as int, m.r2.z as int, b, b);
    lemma_mul_le(m.r1.z as int, m.r2.y as int, b, b);
    lemma_mul_le(m.r0.y as int, m.r2.z as int, b, b);
    lemma_mul_le(m.r0.z as int, m.r2.y as int, b, b);
    lemma_mul_le(m.r0.y as int, m.r1.z as int, b, b);
    lemma_mul_le(m.r0.z as int, m.r1.y as int, b, b);
    lemma_mul_le(m.r1.x as int, m.r2.z as int, b, b);
    lemma_mul_le(m.r1.z as int, m.r2.x as int, b, b);
    lemma_mul_le(m.r0.x as int, m.r2.z as int, b, b);
    lemma_mul_le(m.r0.z as int, m.r2.x as int, b, b);
    lemma_mul_le(m.r0.x as int, m.r1.z as int, b, b);
    lemma_mul_le(m.r0.z as int, m.r1.x as int, b, b);
    lemma_mul_le(m.r1.x as int, m.r2.y as int, b, b);
    lemma_mul_le(m.r1.y as int, m.r2.x as int, b, b);
    lemma_mul_le(m.r0.x as int, m.r2.y as int, b, b);
    lemma_mul_le(m.r0.y as int, m.r2.x as int, b, b);
    lemma_mul_le(m.r0.x as int, m.r1.y as int, b, b);
    lemma_mul_le(m.r0.y as int, m.r1.x as int, b, b);
    lemma_mul_le(
        m.r0.x as int,
        m.r1.y * m.r2.z - m.r1.z * m.r2.y,
        b,
        2_000_000_000_000,
    );
    lemma_mul_le(
        m.r0.y as int,
        m.r1.x * m.r2.z - m.r1.z * m.r2.x,
        b,
        2_000_000_000_000,
    );
    lemma_mul_le(
        m.r0.z as int,
        m.r1.x * m.r2.y - m.r1.y * m.r2.x,
        b,
        2_000_000_000_000,
    );
}

/// Multiplying a three-term dot product by `w` rewrites each factor
/// through `y_k * w == t_k`.
proof fn lemma_row_col(
    x1: int, x2: int, x3: int,
    y1: int, y2: int, y3: int,
    w: int, t1: int, t2: int, t3: int,
)
    requires
        y1 * w == t1,
        y2 * w == t2,
        y3 * w == t3,
    ensures
        (x1 * y1 + x2 * y2 + x3 * y3) * w == x1 * t1 + x2 * t2 + x3 * t3,
{
    assert((x1 * y1 + x2 * y2 + x3 * y3) * w == (x1 * y1) * w + (x2 * y2) * w + (x3 * y3) * w)
        by (nonlinear_arith);
    assert((x1 * y1) * w == x1 * (y1 * w)) by (nonlinear_arith);
    assert((x2 * y2) * w == x2 * (y2 * w)) by (nonlinear_arith);
    assert((x3 * y3) * w == x3 * (y3 * w)) by (nonlinear_arith);
}

/// The heart of the inverse contract: when every entry of `inv` times the
/// determinant gives the matching adjugate entry, `m * inv` is the
/// identity.  Entry by entry: the sum times the determinant collapses to
/// the cofactor expansion, and the nonzero determinant cancels.
proof fn lemma_adjugate_cancels(m: Matrix3<i64>, inv: Matrix3<i64>)
    requires
        m.det_int() != 0,
        inv.r0.x * m.det_int() == m.r1.y * m.r2.z - m.r1.z * m.r2.y,
        inv.r0.y * m.det_int() == -(m.r0.y * m.r2.z - m.r0.z * m.r2.y),
        inv.r0.z * m.det_int() == m.r0.y * m.r1.z - m.r0.z * m.r1.y,
        inv.r1.x * m.det_int() == -(m.r1.x * m.r2.z - m.r1.z * m.r2.x),
        inv.r1.y * m.det_int() == m.r0.x * m.r2.z - m.r0.z * m.r2.x,
        inv.r1.z * m.det_int() == -(m.r0.x * m.r1.z - m.r0.z * m.r1.x),
        inv.r2.x * m.det_int() == m.r1.x * m.r2.y - m.r1.y * m.r2.x,
        inv.r2.y * m.det_int() == -(m.r0.x * m.r2.y - m.r0.y * m.r2.x),
        inv.r2.z * m.det_int() == m.r0.x * m.r1.y - m.r0.y * m.r1.x,
    ensures
        m.spec_mul(inv) == Matrix3::<i64>::spec_identity(),
{
    let a = m.r0.x as int;
    let b = m.r0.y as int;
    let c = m.r0.z as int;
    let d = m.r1.x as int;
    let e = m.r1.y as int;
    let f = m.r1.z as int;
    let g = m.r2.x as int;
    let h = m.r2.y as int;
    let i = m.r2.z as int;
    let p00 = inv.r0.x as int;
    let p01 = inv.r0.y as int;
    let p02 = inv.r0.z as int;
    let p10 = inv.r1.x as int;
    let p11 = inv.r1.y as int;
    let p12 = inv.r1.z as int;
    let p20 = inv.r2.x as int;
    let p21 = inv.r2.y as int;
    let p22 = inv.r2.z as int;
    let dd = m.det_int();
    assert(dd == a * (e * i - f * h) - b * (d * i - f * g) + c * (d * h - e * g));
    lemma_row_col(a, b, c, p00, p10, p20, dd, e * i - f * h, -(d * i - f * g), d * h - e * g);
    lemma_row_col(a, b, c, p01, p11, p21, dd, -(b * i - c * h), a * i - c * g, -(a * h - b * g));
    lemma_row_col(a, b, c, p02, p12, p22, dd, b * f - c * e, -(a * f - c * d), a * e - b * d);
    lemma_row_col(d, e, f, p00, p10, p20, dd, e * i - f * h, -(d * i - f * g), d * h - e * g);
    lemma_row_col(d, e, f, p01, p11, p21, dd, -(b * i - c * h), a * i - c * g, -(a * h - b * g));
    lemma_row_col(d, e, f, p02, p12, p22, dd, b * f - c * e, -(a * f - c * d), a * e - b * d);
    lemma_row_col(g, h, i, p00, p10, p20, dd, e * i - f * h, -(d * i - f * g), d * h - e * g);
    lemma_row_col(g, h, i, p01, p11, p21, dd, -(b * i - c * h), a * i - c * g, -(a * h - b * g));
    lemma_row_col(g, h, i, p02, p12, p22, dd, b * f - c * e, -(a * f - c * d), a * e - b * d);
    assert(a * (e * i - f * h) + b * (-(d * i - f * g)) + c * (d * h - e * g) == dd)
        by (nonlinear_arith)
        requires
            dd == a * (e * i - f * h) - b * (d * i - f * g) + c * (d * h - e * g),
    ;
    assert(a * (-(b * i - c * h)) + b * (a * i - c * g) + c * (-(a * h - b * g)) == 0)
        by (nonlinear_arith);
    assert(a * (b * f - c * e) + b * (-(a * f - c * d)) + c * (a * e - b * d) == 0)
        by (nonlinear_arith);
    assert(d * (e * i - f * h) + e * (-(d * i - f * g)) + f * (d * h - e * g) == 0)
        by (nonlinear_arith);
    assert(d * (-(b * i - c * h)) == -(b * (d * i)) + c * (d * h)) by (nonlinear_arith);
    assert(e * (a * i - c * g) == a * (e * i) - c * (e * g)) by (nonlinear_arith);
    assert(f * (-(a * h - b * g)) == -(a * (f * h)) + b * (f * g)) by (nonlinear_arith);
    assert(dd == a * (e * i) - a * (f * h) - b * (d * i) + b * (f * g) + c * (d * h) - c * (e * g))
        by (nonlinear_arith)
        requires
            dd == a * (e * i - f * h) - b * (d * i - f * g) + c * (d * h - e * g),
    ;
    assert(d * (-(b * i - c * h)) + e * (a * i - c * g) + f * (-(a * h - b * g)) == dd);
    assert(d * (b * f - c * e) + e * (-(a * f - c * d)) + f * (a * e - b * d) == 0)
        by (nonlinear_arith);
    assert(g * (e * i - f * h) + h * (-(d * i - f * g)) + i * (d * h - e * g) == 0)
        by (nonlinear_arith);
    assert(g * (-(b * i - c * h)) + h * (a * i - c * g) + i * (-(a * h - b * g)) == 0)
        by (nonlinear_arith);
    assert(g * (b * f - c * e) == b * (f * g) - c * (e * g)) by (nonlinear_arith);
    assert(h * (-(a * f - c * d)) == -(a * (f * h)) + c * (d * h)) by (nonlinear_arith);
    assert(i * (a * e - b * d) == a * (e * i) - b * (d * i)) by (nonlinear_arith);
    assert(g * (b * f - c * e) + h * (-(a * f - c * d)) + i * (a * e - b * d) == dd);
    assert(a * p00 + b * p10 + c * p20 == 1) by (nonlinear_arith)
        requires
            (a * p00 + b * p10 + c * p20) * dd == dd,
            dd != 0,
    ;
    assert(a * p01 + b * p11 + c * p21 == 0) by (nonlinear_arith)
        requires
            (a * p01 + b * p11 + c * p21) * dd == 0,
            dd != 0,
    ;
    assert(a * p02 + b * p12 + c * p22 == 0) by (nonlinear_arith)
        requires
            (a * p02 + b * p12 + c * p22) * dd == 0,
            dd != 0,
    ;
    assert(d * p00 + e * p10 + f * p20 == 0) by (nonlinear_arith)
        requires
            (d * p00 + e * p10 + f * p20) * dd == 0,
            dd != 0,
    ;
    assert(d * p01 + e * p11 + f * p21 == 1) by (nonlinear_arith)
        requires
            (d * p01 + e * p11 + f * p21) * dd == dd,
            dd != 0,
    ;
    assert(d * p02 + e * p12 + f * p22 == 0) by (nonlinear_arith)
        requires
            (d * p02 + e * p12 + f * p22) * dd == 0,
            dd != 0,
    ;
    assert(g * p00 + h * p10 + i * p20 == 0) by (nonlinear_arith)
        requires
            (g * p00 + h * p10 + i * p20) * dd == 0,
            dd != 0,
    ;
    assert(g * p01 + h * p11 + i * p21 == 0) by (nonlinear_arith)
        requires
            (g * p01 + h * p11 + i * p21) * dd == 0,
            dd != 0,
    ;
    assert(g * p02 + h * p12 + i * p22 == 1) by (nonlinear_arith)
        requires
            (g * p02 + h * p12 + i * p22) * dd == dd,
            dd != 0,
    ;
}

impl Determinant for Matrix3<i64> {
    type Output = i64;

    open spec fn determinant_req(&self) -> bool {
        self.entries_bounded(MAT3_DET_MAX as int)
    }

    open spec fn spec_determinant(&self) -> i64 {
        self.det_int() as i64
    }

    fn determinant(&self) -> (r: i64) {
        let m0: i64 = Self::det2(self.r1.y, self.r1.z, self.r2.y, self.r2.z);
        let m1: i64 = Self::det2(self.r1.x, self.r1.z, self.r2.x, self.r2.z);
        let m2: i64 = Self::det2(self.r1.x, self.r1.y, self.r2.x, self.r2.y);
        proof {
            lemma_mul_le(self.r0.x as int, m0 as int, MAT3_DET_MAX as int, 2_000_000_000_000);
            lemma_mul_le(self.r0.y as int, m1 as int, MAT3_DET_MAX as int, 2_000_000_000_000);
            lemma_mul_le(self.r0.z as int, m2 as int, MAT3_DET_MAX as int, 2_000_000_000_000);
        }
        self.r0.x * m0 - self.r0.y * m1 + self.r0.z * m2
    }
}

impl Inverse for Matrix3<i64> {
    open spec fn inverse_req(&self) -> bool {
        self.entries_bounded(MAT3_DET_MAX as int) && self.spec_invertible()
    }

    open spec fn spec_inverse(&self) -> Matrix3<i64> {
        Matrix3::spec_inverse(*self)
    }

    fn inverse(&self) -> (r: Matrix3<i64>) {
        match self.try_inverse() {
            Some(inv) => inv,
            None => vstd::pervasive::unreached(),
        }
    }
}

} // verus!
