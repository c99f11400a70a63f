//! 4x4 homogeneous transform matrices.
//!
//! A matrix is stored row by row: `identity[i][j]` is row `i`, column `j`.
//! A translation sits in the last row, so a point is a row vector that is
//! multiplied from the left, and `a.mult(b)` applies `a` first.

use vstd::prelude::*;
use crate::arithmetic::{
    cosine_of, difference_of, product_of, quotient_of, sine_of, sum_of, Arithmetic,
};
use crate::rotation::Rotation2D;
use crate::scalar::{Scalar, ONE_BITS, TWO_BITS, ZERO_BITS};
use crate::scale::Scale3D;
use crate::vector::Vector3D;

verus! {

/// `r` is `acc + a * b` as `ops` computed it.
pub open spec fn accumulated_of<A: Arithmetic>(
    ops: &A,
    acc: Scalar,
    a: Scalar,
    b: Scalar,
    r: Scalar,
) -> bool {
    exists|p: Scalar|
        #![trigger product_of(ops, a, b, p)]
        product_of(ops, a, b, p) && sum_of(ops, acc, p, r)
}

/// `r` is `n / (a - b)` as `ops` computed it.
pub open spec fn over_difference_of<A: Arithmetic>(
    ops: &A,
    n: Scalar,
    a: Scalar,
    b: Scalar,
    r: Scalar,
) -> bool {
    exists|d: Scalar|
        #![trigger difference_of(ops, a, b, d)]
        difference_of(ops, a, b, d) && quotient_of(ops, n, d, r)
}

/// `r` is `(a + b) / (c - d)` as `ops` computed it.
pub open spec fn sum_over_difference_of<A: Arithmetic>(
    ops: &A,
    a: Scalar,
    b: Scalar,
    c: Scalar,
    d: Scalar,
    r: Scalar,
) -> bool {
    exists|s: Scalar|
        #![trigger sum_of(ops, a, b, s)]
        sum_of(ops, a, b, s) && over_difference_of(ops, s, c, d, r)
}

fn accumulate<A: Arithmetic>(ops: &A, acc: Scalar, a: Scalar, b: Scalar) -> (r: Scalar)
    ensures
        accumulated_of(ops, acc, a, b, r),
{
    let p = ops.mul(a, b);
    let r = ops.add(acc, p);
    assert(product_of(ops, a, b, p));
    r
}

fn over_difference<A: Arithmetic>(ops: &A, n: Scalar, a: Scalar, b: Scalar) -> (r: Scalar)
    ensures
        over_difference_of(ops, n, a, b, r),
{
    let d = ops.sub(a, b);
    let r = ops.div(n, d);
    assert(difference_of(ops, a, b, d));
    r
}

fn sum_over_difference<A: Arithmetic>(
    ops: &A,
    a: Scalar,
    b: Scalar,
    c: Scalar,
    d: Scalar,
) -> (r: Scalar)
    ensures
        sum_over_difference_of(ops, a, b, c, d, r),
{
    let s = ops.add(a, b);
    let r = over_difference(ops, s, c, d);
    assert(sum_of(ops, a, b, s));
    r
}

/// The sixteen entries of a matrix, row after row.
pub open spec fn flattened(m: [[Scalar; 4]; 4]) -> Seq<Scalar> {
    Seq::new(16, |k: int| m[k / 4][k % 4])
}

/// A 4x4 matrix. `translation` is carried along and is zero in every matrix
/// that this module builds; the translation of a transform is in the last row
/// of `identity`.
#[derive(Clone, Copy, Debug)]
pub struct Matrix4x4 {
    pub identity: [[Scalar; 4]; 4],
    pub translation: Vector3D,
}

impl Matrix4x4 {
    /// The entry in row `i`, column `j`.
    pub open spec fn at(self, i: int, j: int) -> Scalar {
        self.identity[i][j]
    }

    /// The matrix with the given four rows and no separate translation.
    pub open spec fn of_rows(
        r0: Seq<Scalar>,
        r1: Seq<Scalar>,
        r2: Seq<Scalar>,
        r3: Seq<Scalar>,
        m: Matrix4x4,
    ) -> bool {
        &&& m.identity[0]@ =~= r0
        &&& m.identity[1]@ =~= r1
        &&& m.identity[2]@ =~= r2
        &&& m.identity[3]@ =~= r3
        &&& m.translation == Vector3D::of_zero()
    }

    /// Ones on the diagonal and zeros elsewhere, bit for bit.
    pub open spec fn is_unit(self) -> bool {
        forall|i: int, j: int|
            0 <= i < 4 && 0 <= j < 4 ==> #[trigger] self.at(i, j) == Scalar::of(
                if i == j {
                    ONE_BITS
                } else {
                    ZERO_BITS
                },
            )
    }

    /// Every diagonal entry equals `1.0` and every other entry equals `0.0`
    /// or `-0.0`.
    pub open spec fn equals_unit(self) -> bool {
        forall|i: int, j: int|
            0 <= i < 4 && 0 <= j < 4 ==> (#[trigger] self.at(i, j)).same_value(
                Scalar::of(
                    if i == j {
                        ONE_BITS
                    } else {
                        ZERO_BITS
                    },
                ),
            )
    }

    /// `r` is row `i` of `self` times column `j` of `other`, summed from
    /// `0.0` in the order of the index:
    /// `(((0 + a[i][0] * b[0][j]) + a[i][1] * b[1][j]) + a[i][2] * b[2][j]) + a[i][3] * b[3][j]`.
    pub open spec fn row_by_column<A: Arithmetic>(
        self,
        other: Matrix4x4,
        i: int,
        j: int,
        ops: &A,
        r: Scalar,
    ) -> bool {
        exists|s0: Scalar, s1: Scalar, s2: Scalar|
            #![trigger accumulated_of(ops, Scalar::of(ZERO_BITS), self.at(i, 0), other.at(0, j), s0), accumulated_of(ops, s0, self.at(i, 1), other.at(1, j), s1), accumulated_of(ops, s1, self.at(i, 2), other.at(2, j), s2)]
            accumulated_of(ops, Scalar::of(ZERO_BITS), self.at(i, 0), other.at(0, j), s0)
                && accumulated_of(ops, s0, self.at(i, 1), other.at(1, j), s1) && accumulated_of(
                ops,
                s1,
                self.at(i, 2),
                other.at(2, j),
                s2,
            ) && accumulated_of(ops, s2, self.at(i, 3), other.at(3, j), r)
    }

    /// `r` is the matrix product `self * other`: each entry is a row of
    /// `self` times a column of `other`.
    pub open spec fn product_is<A: Arithmetic>(
        self,
        other: Matrix4x4,
        ops: &A,
        r: Matrix4x4,
    ) -> bool {
        &&& forall|i: int, j: int|
            0 <= i < 4 && 0 <= j < 4 ==> self.row_by_column(other, i, j, ops, #[trigger] r.at(i, j))
        &&& r.translation == Vector3D::of_zero()
    }

    /// `r` is the matrix that scales each axis by its factor.
    pub open spec fn scales(scale: Scale3D, r: Matrix4x4) -> bool {
        let z = Scalar::of(ZERO_BITS);
        let o = Scalar::of(ONE_BITS);
        Matrix4x4::of_rows(
            seq![scale.x, z, z, z],
            seq![z, scale.y, z, z],
            seq![z, z, scale.z, z],
            seq![z, z, z, o],
            r,
        )
    }

    /// `r` is the matrix that moves a point by `(x, y, z)`.
    pub open spec fn translates(x: Scalar, y: Scalar, z: Scalar, r: Matrix4x4) -> bool {
        let n = Scalar::of(ZERO_BITS);
        let o = Scalar::of(ONE_BITS);
        Matrix4x4::of_rows(
            seq![o, n, n, n],
            seq![n, o, n, n],
            seq![n, n, o, n],
            seq![x, y, z, o],
            r,
        )
    }

    /// `r` is the rotation about the z axis with cosine `c` and sine `s`.
    pub open spec fn rotation_of(c: Scalar, s: Scalar, r: Matrix4x4) -> bool {
        let z = Scalar::of(ZERO_BITS);
        let o = Scalar::of(ONE_BITS);
        Matrix4x4::of_rows(
            seq![c, s, z, z],
            seq![s.negated(), c, z, z],
            seq![z, z, o, z],
            seq![z, z, z, o],
            r,
        )
    }

    /// `r` is the off-centre orthographic projection of the given volume.
    pub open spec fn orthographic_is<A: Arithmetic>(
        left: Scalar,
        right: Scalar,
        bottom: Scalar,
        top: Scalar,
        near: Scalar,
        far: Scalar,
        ops: &A,
        r: Matrix4x4,
    ) -> bool {
        let z = Scalar::of(ZERO_BITS);
        let o = Scalar::of(ONE_BITS);
        let two = Scalar::of(TWO_BITS);
        &&& Matrix4x4::of_rows(
            seq![r.at(0, 0), z, z, z],
            seq![z, r.at(1, 1), z, z],
            seq![z, z, r.at(2, 2), z],
            seq![r.at(3, 0), r.at(3, 1), r.at(3, 2), o],
            r,
        )
        &&& over_difference_of(ops, two, right, left, r.at(0, 0))
        &&& over_difference_of(ops, two, top, bottom, r.at(1, 1))
        &&& over_difference_of(ops, o, near, far, r.at(2, 2))
        &&& sum_over_difference_of(ops, left, right, left, right, r.at(3, 0))
        &&& sum_over_difference_of(ops, top, bottom, bottom, top, r.at(3, 1))
        &&& over_difference_of(ops, near, near, far, r.at(3, 2))
    }

    /// The identity matrix.
    pub fn new() -> (r: Matrix4x4)
        ensures
            r.is_unit(),
            r.translation == Vector3D::of_zero(),
    {
        let z = Scalar::from_bits(ZERO_BITS);
        let o = Scalar::from_bits(ONE_BITS);
        Matrix4x4 {
            identity: [[o, z, z, z], [z, o, z, z], [z, z, o, z], [z, z, z, o]],
            translation: Vector3D::new(),
        }
    }

    /// Whether the matrix equals the identity, entry by entry.
    pub fn is_identity(self) -> (r: bool)
        ensures
            r == self.equals_unit(),
    {
        let z = Scalar::from_bits(ZERO_BITS);
        let o = Scalar::from_bits(ONE_BITS);
        let m = &self.identity;
        let r = m[0][0] == o && m[1][1] == o && m[2][2] == o && m[3][3] == o && m[0][1] == z
            && m[0][2] == z && m[0][3] == z && m[1][0] == z && m[1][2] == z && m[1][3] == z
            && m[2][0] == z && m[2][1] == z && m[2][3] == z && m[3][0] == z && m[3][1] == z
            && m[3][2] == z;
        proof {
            if self.equals_unit() {
                assert(self.at(0, 0).same_value(o) && self.at(1, 1).same_value(o));
                assert(self.at(2, 2).same_value(o) && self.at(3, 3).same_value(o));
                assert(self.at(0, 1).same_value(z) && self.at(0, 2).same_value(z));
                assert(self.at(0, 3).same_value(z) && self.at(1, 0).same_value(z));
                assert(self.at(1, 2).same_value(z) && self.at(1, 3).same_value(z));
                assert(self.at(2, 0).same_value(z) && self.at(2, 1).same_value(z));
                assert(self.at(2, 3).same_value(z) && self.at(3, 0).same_value(z));
                assert(self.at(3, 1).same_value(z) && self.at(3, 2).same_value(z));
            }
        }
        r
    }

    fn cell<A: Arithmetic>(&self, other: &Matrix4x4, i: usize, j: usize, ops: &A) -> (r: Scalar)
        requires
            i < 4,
            j < 4,
        ensures
            self.row_by_column(*other, i as int, j as int, ops, r),
    {
        let a = &self.identity;
        let b = &other.identity;
        let s0 = accumulate(ops, Scalar::from_bits(ZERO_BITS), a[i][0], b[0][j]);
        let s1 = accumulate(ops, s0, a[i][1], b[1][j]);
        let s2 = accumulate(ops, s1, a[i][2], b[2][j]);
        let r = accumulate(ops, s2, a[i][3], b[3][j]);
        assert(accumulated_of(
            ops,
            Scalar::of(ZERO_BITS),
            self.at(i as int, 0),
            other.at(0, j as int),
            s0,
        ) && accumulated_of(ops, s0, self.at(i as int, 1), other.at(1, j as int), s1)
            && accumulated_of(ops, s1, self.at(i as int, 2), other.at(2, j as int), s2));
        r
    }

    fn row<A: Arithmetic>(&self, other: &Matrix4x4, i: usize, ops: &A) -> (r: [Scalar; 4])
        requires
            i < 4,
        ensures
            forall|j: int| 0 <= j < 4 ==> self.row_by_column(*other, i as int, j, ops, #[trigger] r[j]),
    {
        [
            self.cell(other, i, 0, ops),
            self.cell(other, i, 1, ops),
            self.cell(other, i, 2, ops),
            self.cell(other, i, 3, ops),
        ]
    }

    /// The matrix product `self * other`, row by column.
    pub fn mult<A: Arithmetic>(self, other: Matrix4x4, ops: &A) -> (r: Matrix4x4)
        ensures
            self.product_is(other, ops, r),
    {
        Matrix4x4 {
            identity: [
                self.row(&other, 0, ops),
                self.row(&other, 1, ops),
                self.row(&other, 2, ops),
                self.row(&other, 3, ops),
            ],
            translation: Vector3D::new(),
        }
    }

    /// The sixteen entries, row after row.
    pub fn array(self) -> (r: [Scalar; 16])
        ensures
            r@ =~= flattened(self.identity),
    {
        let m = &self.identity;
        [
            m[0][0],
            m[0][1],
            m[0][2],
            m[0][3],
            m[1][0],
            m[1][1],
            m[1][2],
            m[1][3],
            m[2][0],
            m[2][1],
            m[2][2],
            m[2][3],
            m[3][0],
            m[3][1],
            m[3][2],
            m[3][3],
        ]
    }

    /// The matrix whose entries, row after row, are `entries`.
    pub fn from_array(entries: [Scalar; 16]) -> (r: Matrix4x4)
        ensures
            flattened(r.identity) =~= entries@,
            r.translation == Vector3D::of_zero(),
    {
        let e = &entries;
        Matrix4x4 {
            identity: [
                [e[0], e[1], e[2], e[3]],
                [e[4], e[5], e[6], e[7]],
                [e[8], e[9], e[10], e[11]],
                [e[12], e[13], e[14], e[15]],
            ],
            translation: Vector3D::new(),
        }
    }

    /// The matrix that scales each axis by its factor.
    pub fn create_scale(scale: Scale3D) -> (r: Matrix4x4)
        ensures
            Matrix4x4::scales(scale, r),
    {
        let z = Scalar::from_bits(ZERO_BITS);
        let o = Scalar::from_bits(ONE_BITS);
        Matrix4x4 {
            identity: [[scale.x, z, z, z], [z, scale.y, z, z], [z, z, scale.z, z], [z, z, z, o]],
            translation: Vector3D::new(),
        }
    }

    /// The off-centre orthographic projection of the volume between the six
    /// planes. Where two opposite planes coincide, a division by zero gives
    /// infinities or NaNs, as the arithmetic has them.
    pub fn create_orthographic_off_center<A: Arithmetic>(
        left: Scalar,
        right: Scalar,
        bottom: Scalar,
        top: Scalar,
        near: Scalar,
        far: Scalar,
        ops: &A,
    ) -> (r: Matrix4x4)
        ensures
            Matrix4x4::orthographic_is(left, right, bottom, top, near, far, ops, r),
    {
        let z = Scalar::from_bits(ZERO_BITS);
        let o = Scalar::from_bits(ONE_BITS);
        let two = Scalar::from_bits(TWO_BITS);
        let sx = over_difference(ops, two, right, left);
        let sy = over_difference(ops, two, top, bottom);
        let sz = over_difference(ops, o, near, far);
        let tx = sum_over_difference(ops, left, right, left, right);
        let ty = sum_over_difference(ops, top, bottom, bottom, top);
        let tz = over_difference(ops, near, near, far);
        Matrix4x4 {
            identity: [[sx, z, z, z], [z, sy, z, z], [z, z, sz, z], [tx, ty, tz, o]],
            translation: Vector3D::new(),
        }
    }

    /// The matrix that moves a point by `(x, y, z)`: the identity with
    /// `(x, y, z, 1)` as its last row.
    pub fn create_tranlation(x: Scalar, y: Scalar, z: Scalar) -> (r: Matrix4x4)
        ensures
            Matrix4x4::translates(x, y, z, r),
    {
        let n = Scalar::from_bits(ZERO_BITS);
        let o = Scalar::from_bits(ONE_BITS);
        Matrix4x4 {
            identity: [[o, n, n, n], [n, o, n, n], [n, n, o, n], [x, y, z, o]],
            translation: Vector3D::new(),
        }
    }

    /// The rotation about the z axis by `rot`, from the cosine and the sine
    /// of its radians.
    pub fn create_rotation_z<A: Arithmetic>(rot: Rotation2D, ops: &A) -> (r: Matrix4x4)
        ensures
            cosine_of(ops, rot.radians(), r.at(0, 0)),
            sine_of(ops, rot.radians(), r.at(0, 1)),
            Matrix4x4::rotation_of(r.at(0, 0), r.at(0, 1), r),
    {
        let n = Scalar::from_bits(ZERO_BITS);
        let o = Scalar::from_bits(ONE_BITS);
        let c = ops.cos(rot.rad());
        let s = ops.sin(rot.rad());
        Matrix4x4 {
            identity: [[c, s, n, n], [s.neg(), c, n, n], [n, n, o, n], [n, n, n, o]],
            translation: Vector3D::new(),
        }
    }
}

} // verus!
