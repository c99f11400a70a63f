//! What holds of scalars as such, and of the vectors and matrices under an
//! arithmetic that behaves.
//!
//! The library takes its arithmetic from the caller and promises nothing of
//! it. Each law on it names what it needs of the arithmetic, as a predicate,
//! and proves the rest: that operands are paired as they should be. The
//! predicates all hold of IEEE-754 arithmetic in its default rounding mode;
//! none of them says which NaN an operation gives.

use vstd::prelude::*;
use crate::arithmetic::{difference_of, product_of, sum_of, Arithmetic};
use crate::matrix::{accumulated_of, flattened, Matrix4x4};
use crate::scalar::{Scalar, CHANNEL_MAX_BITS, ONE_BITS, ZERO_BITS};
use crate::vector::{minor_of, Vector2D, Vector3D};

verus! {

/// A sum, a difference or a product that is no NaN is a function of its
/// operands. (Which NaN comes of an operation is left open.)
pub open spec fn single_valued<A: Arithmetic>(ops: &A) -> bool {
    &&& forall|a: Scalar, b: Scalar, r: Scalar, s: Scalar|
        #![trigger sum_of(ops, a, b, r), sum_of(ops, a, b, s)]
        sum_of(ops, a, b, r) && sum_of(ops, a, b, s) && !r.nan() ==> r == s
    &&& forall|a: Scalar, b: Scalar, r: Scalar, s: Scalar|
        #![trigger difference_of(ops, a, b, r), difference_of(ops, a, b, s)]
        difference_of(ops, a, b, r) && difference_of(ops, a, b, s) && !r.nan() ==> r == s
    &&& forall|a: Scalar, b: Scalar, r: Scalar, s: Scalar|
        #![trigger product_of(ops, a, b, r), product_of(ops, a, b, s)]
        product_of(ops, a, b, r) && product_of(ops, a, b, s) && !r.nan() ==> r == s
}

/// A sum, a difference or a product of a NaN is a NaN.
pub open spec fn nan_spreads<A: Arithmetic>(ops: &A) -> bool {
    &&& forall|a: Scalar, b: Scalar, r: Scalar|
        #![trigger sum_of(ops, a, b, r)]
        sum_of(ops, a, b, r) && (a.nan() || b.nan()) ==> r.nan()
    &&& forall|a: Scalar, b: Scalar, r: Scalar|
        #![trigger difference_of(ops, a, b, r)]
        difference_of(ops, a, b, r) && (a.nan() || b.nan()) ==> r.nan()
    &&& forall|a: Scalar, b: Scalar, r: Scalar|
        #![trigger product_of(ops, a, b, r)]
        product_of(ops, a, b, r) && (a.nan() || b.nan()) ==> r.nan()
}

/// `b * a` is `a * b`, bit for bit, where that is no NaN.
pub open spec fn product_commutes<A: Arithmetic>(ops: &A) -> bool {
    forall|a: Scalar, b: Scalar, p: Scalar, q: Scalar|
        #![trigger product_of(ops, a, b, p), product_of(ops, b, a, q)]
        product_of(ops, a, b, p) && product_of(ops, b, a, q) && !p.nan() ==> p == q
}

/// `b - a` equals the negation of `a - b`, where that is no NaN.
pub open spec fn difference_turns<A: Arithmetic>(ops: &A) -> bool {
    forall|a: Scalar, b: Scalar, r: Scalar, t: Scalar|
        #![trigger difference_of(ops, a, b, r), difference_of(ops, b, a, t)]
        difference_of(ops, a, b, r) && difference_of(ops, b, a, t) && !r.nan() ==> t.same_value(
            r.negated(),
        )
}

/// A finite value plus its negation is a zero.
pub open spec fn sum_cancels<A: Arithmetic>(ops: &A) -> bool {
    forall|a: Scalar, s: Scalar|
        #![trigger sum_of(ops, a, a.negated(), s)]
        a.finite() && sum_of(ops, a, a.negated(), s) ==> s.zero()
}

/// One times a finite value, either way round, is that value bit for bit; a
/// zero times a finite value, either way round, is a zero; and a value that
/// is no NaN plus a zero, either way round, equals that value.
pub open spec fn units_are_exact<A: Arithmetic>(ops: &A) -> bool {
    &&& forall|x: Scalar, p: Scalar|
        #![trigger product_of(ops, Scalar::of(ONE_BITS), x, p)]
        x.finite() && product_of(ops, Scalar::of(ONE_BITS), x, p) ==> p == x
    &&& forall|x: Scalar, p: Scalar|
        #![trigger product_of(ops, x, Scalar::of(ONE_BITS), p)]
        x.finite() && product_of(ops, x, Scalar::of(ONE_BITS), p) ==> p == x
    &&& forall|a: Scalar, x: Scalar, p: Scalar|
        #![trigger product_of(ops, a, x, p)]
        a.finite() && x.finite() && (a.zero() || x.zero()) && product_of(ops, a, x, p)
            ==> p.zero()
    &&& forall|a: Scalar, b: Scalar, s: Scalar|
        #![trigger sum_of(ops, a, b, s)]
        !a.nan() && b.zero() && sum_of(ops, a, b, s) ==> s.same_value(a)
    &&& forall|a: Scalar, b: Scalar, s: Scalar|
        #![trigger sum_of(ops, a, b, s)]
        a.zero() && !b.nan() && sum_of(ops, a, b, s) ==> s.same_value(b)
}

/// Every entry of the matrix is finite.
pub open spec fn all_finite(m: Matrix4x4) -> bool {
    forall|i: int, j: int| 0 <= i < 4 && 0 <= j < 4 ==> (#[trigger] m.at(i, j)).finite()
}

/// Flipping the sign twice gives the value back, bit for bit.
pub proof fn lemma_negated_twice(a: Scalar)
    ensures
        a.negated().negated() == a,
{
}

/// The values of the bytes are in the order of the bytes, from `0.0` to
/// `255.0`.
pub proof fn lemma_of_byte_keeps_order(a: u8, b: u8)
    ensures
        !Scalar::of_byte(a).nan(),
        0 <= Scalar::of_byte(a).rank() <= Scalar::of(CHANNEL_MAX_BITS).rank(),
        a < b <==> Scalar::of_byte(a).less_than(Scalar::of_byte(b)),
{
}

/// Clamping lands inside the bounds, unless the value is a NaN.
pub proof fn lemma_clamped_in_bounds(a: Scalar, min: Scalar, max: Scalar)
    requires
        !a.nan(),
        !min.nan(),
        !max.nan(),
        min.rank() <= max.rank(),
    ensures
        min.rank() <= a.clamped(min, max).rank() <= max.rank(),
{
}

/// A vector with finite components plus its negation is the zero vector,
/// where sums cancel.
pub proof fn lemma_vector_plus_negation<A: Arithmetic>(v: Vector2D, ops: &A, r: Vector2D)
    requires
        sum_cancels(ops),
        v.x.finite(),
        v.y.finite(),
        sum_of(ops, v.x, v.x.negated(), r.x),
        sum_of(ops, v.y, v.y.negated(), r.y),
    ensures
        r.x.zero(),
        r.y.zero(),
{
}

/// A vector in space with finite components plus its negation is the zero
/// vector, where sums cancel.
pub proof fn lemma_vector3_plus_negation<A: Arithmetic>(v: Vector3D, ops: &A, r: Vector3D)
    requires
        sum_cancels(ops),
        v.x.finite(),
        v.y.finite(),
        v.z.finite(),
        sum_of(ops, v.x, v.x.negated(), r.x),
        sum_of(ops, v.y, v.y.negated(), r.y),
        sum_of(ops, v.z, v.z.negated(), r.z),
    ensures
        r.x.zero(),
        r.y.zero(),
        r.z.zero(),
{
}

/// The dot product of `w` and `v` is the dot product of `v` and `w`, bit for
/// bit, where that is no NaN, products commute, NaNs spread and the
/// arithmetic is single-valued.
pub proof fn lemma_dot_commutes<A: Arithmetic>(
    v: Vector2D,
    w: Vector2D,
    ops: &A,
    vw: Scalar,
    wv: Scalar,
)
    requires
        single_valued(ops),
        nan_spreads(ops),
        product_commutes(ops),
        v.dot_is(w, ops, vw),
        w.dot_is(v, ops, wv),
        !vw.nan(),
    ensures
        vw == wv,
{
    let (p, q) = choose|p: Scalar, q: Scalar|
        product_of(ops, v.x, w.x, p) && product_of(ops, v.y, w.y, q) && sum_of(ops, p, q, vw);
    let (p2, q2) = choose|p: Scalar, q: Scalar|
        product_of(ops, w.x, v.x, p) && product_of(ops, w.y, v.y, q) && sum_of(ops, p, q, wv);
    assert(!p.nan() && !q.nan());
    assert(p == p2);
    assert(q == q2);
}

/// The dot product of two vectors in space does not depend on their order,
/// where it is no NaN, products commute, NaNs spread and the arithmetic is
/// single-valued.
pub proof fn lemma_dot3_commutes<A: Arithmetic>(
    v: Vector3D,
    w: Vector3D,
    ops: &A,
    vw: Scalar,
    wv: Scalar,
)
    requires
        single_valued(ops),
        nan_spreads(ops),
        product_commutes(ops),
        v.dot_is(w, ops, vw),
        w.dot_is(v, ops, wv),
        !vw.nan(),
    ensures
        vw == wv,
{
    let (p, q, s, t) = choose|p: Scalar, q: Scalar, s: Scalar, t: Scalar|
        product_of(ops, v.x, w.x, p) && product_of(ops, v.y, w.y, q) && sum_of(ops, p, q, s)
            && product_of(ops, v.z, w.z, t) && sum_of(ops, s, t, vw);
    let (p2, q2, s2, t2) = choose|p: Scalar, q: Scalar, s: Scalar, t: Scalar|
        product_of(ops, w.x, v.x, p) && product_of(ops, w.y, v.y, q) && sum_of(ops, p, q, s)
            && product_of(ops, w.z, v.z, t) && sum_of(ops, s, t, wv);
    assert(!s.nan() && !t.nan());
    assert(!p.nan() && !q.nan());
    assert(p == p2);
    assert(q == q2);
    assert(s == s2);
    assert(t == t2);
}

/// `d * c - b * a` equals the negation of `a * b - c * d`, where that is no
/// NaN.
proof fn lemma_minor_turns<A: Arithmetic>(
    ops: &A,
    a: Scalar,
    b: Scalar,
    c: Scalar,
    d: Scalar,
    r: Scalar,
    t: Scalar,
)
    requires
        nan_spreads(ops),
        product_commutes(ops),
        difference_turns(ops),
        minor_of(ops, a, b, c, d, r),
        minor_of(ops, d, c, b, a, t),
        !r.nan(),
    ensures
        t.same_value(r.negated()),
{
    let (p, q) = choose|p: Scalar, q: Scalar|
        product_of(ops, a, b, p) && product_of(ops, c, d, q) && difference_of(ops, p, q, r);
    let (p2, q2) = choose|p: Scalar, q: Scalar|
        product_of(ops, d, c, p) && product_of(ops, b, a, q) && difference_of(ops, p, q, t);
    assert(!p.nan() && !q.nan());
    assert(q == p2);
    assert(p == q2);
}

/// The cross product of `w` and `v` equals the negation of the cross product
/// of `v` and `w`, component by component, where that has no NaN, products
/// commute, differences turn and NaNs spread.
pub proof fn lemma_cross_anticommutes<A: Arithmetic>(
    v: Vector3D,
    w: Vector3D,
    ops: &A,
    vw: Vector3D,
    wv: Vector3D,
)
    requires
        nan_spreads(ops),
        product_commutes(ops),
        difference_turns(ops),
        v.cross_is(w, ops, vw),
        w.cross_is(v, ops, wv),
        !vw.has_nan(),
    ensures
        wv.x.same_value(vw.x.negated()),
        wv.y.same_value(vw.y.negated()),
        wv.z.same_value(vw.z.negated()),
{
    lemma_minor_turns(ops, v.y, w.z, v.z, w.y, vw.x, wv.x);
    lemma_minor_turns(ops, v.z, w.x, v.x, w.z, vw.y, wv.y);
    lemma_minor_turns(ops, v.x, w.y, v.y, w.x, vw.z, wv.z);
}

/// A sum of four products of which all but one, the one at `k`, have a factor
/// zero and that one has a factor one, equals the other factor of that one.
proof fn lemma_single_term<A: Arithmetic>(
    ops: &A,
    a: Seq<Scalar>,
    b: Seq<Scalar>,
    k: int,
    left: bool,
    r: Scalar,
)
    requires
        units_are_exact(ops),
        a.len() == 4,
        b.len() == 4,
        0 <= k < 4,
        forall|n: int| 0 <= n < 4 ==> (#[trigger] a[n]).finite() && (#[trigger] b[n]).finite(),
        left ==> a[k] == Scalar::of(ONE_BITS) && forall|n: int|
            0 <= n < 4 && n != k ==> (#[trigger] a[n]).zero(),
        !left ==> b[k] == Scalar::of(ONE_BITS) && forall|n: int|
            0 <= n < 4 && n != k ==> (#[trigger] b[n]).zero(),
        exists|s0: Scalar, s1: Scalar, s2: Scalar|
            #![trigger accumulated_of(ops, Scalar::of(ZERO_BITS), a[0], b[0], s0), accumulated_of(ops, s0, a[1], b[1], s1), accumulated_of(ops, s1, a[2], b[2], s2)]
            accumulated_of(ops, Scalar::of(ZERO_BITS), a[0], b[0], s0) && accumulated_of(
                ops,
                s0,
                a[1],
                b[1],
                s1,
            ) && accumulated_of(ops, s1, a[2], b[2], s2) && accumulated_of(ops, s2, a[3], b[3], r),
    ensures
        r.same_value(if left { b[k] } else { a[k] }),
{
    let (s0, s1, s2) = choose|s0: Scalar, s1: Scalar, s2: Scalar|
        accumulated_of(ops, Scalar::of(ZERO_BITS), a[0], b[0], s0) && accumulated_of(
            ops,
            s0,
            a[1],
            b[1],
            s1,
        ) && accumulated_of(ops, s1, a[2], b[2], s2) && accumulated_of(ops, s2, a[3], b[3], r);
    let p0 = choose|p: Scalar| product_of(ops, a[0], b[0], p) && sum_of(ops, Scalar::of(ZERO_BITS), p, s0);
    let p1 = choose|p: Scalar| product_of(ops, a[1], b[1], p) && sum_of(ops, s0, p, s1);
    let p2 = choose|p: Scalar| product_of(ops, a[2], b[2], p) && sum_of(ops, s1, p, s2);
    let p3 = choose|p: Scalar| product_of(ops, a[3], b[3], p) && sum_of(ops, s2, p, r);
    let x = if left { b[k] } else { a[k] };
    assert(a[0].finite() && b[0].finite() && a[1].finite() && b[1].finite());
    assert(a[2].finite() && b[2].finite() && a[3].finite() && b[3].finite());
    assert(Scalar::of(ZERO_BITS).zero());
    assert(Scalar::of(ONE_BITS).finite());
    if left {
        assert(forall|n: int| 0 <= n < 4 && n != k ==> (#[trigger] a[n]).zero());
    } else {
        assert(forall|n: int| 0 <= n < 4 && n != k ==> (#[trigger] b[n]).zero());
    }
    assert(if k == 0 { p0 == x } else { p0.zero() });
    assert(if k == 1 { p1 == x } else { p1.zero() });
    assert(if k == 2 { p2 == x } else { p2.zero() });
    assert(if k == 3 { p3 == x } else { p3.zero() });
    assert(if k == 0 { s0.same_value(x) } else { s0.zero() });
    assert(if k <= 1 { s1.same_value(x) } else { s1.zero() });
    assert(if k <= 2 { s2.same_value(x) } else { s2.zero() });
}

/// The identity times a matrix with finite entries equals that matrix, entry
/// by entry, where the units of the arithmetic are exact.
pub proof fn lemma_identity_times<A: Arithmetic>(
    unit: Matrix4x4,
    m: Matrix4x4,
    ops: &A,
    r: Matrix4x4,
)
    requires
        units_are_exact(ops),
        unit.is_unit(),
        all_finite(m),
        unit.product_is(m, ops, r),
    ensures
        forall|i: int, j: int| 0 <= i < 4 && 0 <= j < 4 ==> (#[trigger] r.at(i, j)).same_value(m.at(i, j)),
{
    assert forall|i: int, j: int| 0 <= i < 4 && 0 <= j < 4 implies (#[trigger] r.at(i, j)).same_value(
        m.at(i, j),
    ) by {
        let a = seq![unit.at(i, 0), unit.at(i, 1), unit.at(i, 2), unit.at(i, 3)];
        let b = seq![m.at(0, j), m.at(1, j), m.at(2, j), m.at(3, j)];
        assert(unit.row_by_column(m, i, j, ops, r.at(i, j)));
        assert(Scalar::of(ONE_BITS).finite() && Scalar::of(ZERO_BITS).finite());
        assert(Scalar::of(ZERO_BITS).zero());
        lemma_single_term(ops, a, b, i, true, r.at(i, j));
    }
}

/// A matrix with finite entries times the identity equals that matrix, entry
/// by entry, where the units of the arithmetic are exact.
pub proof fn lemma_times_identity<A: Arithmetic>(
    m: Matrix4x4,
    unit: Matrix4x4,
    ops: &A,
    r: Matrix4x4,
)
    requires
        units_are_exact(ops),
        unit.is_unit(),
        all_finite(m),
        m.product_is(unit, ops, r),
    ensures
        forall|i: int, j: int| 0 <= i < 4 && 0 <= j < 4 ==> (#[trigger] r.at(i, j)).same_value(m.at(i, j)),
{
    assert forall|i: int, j: int| 0 <= i < 4 && 0 <= j < 4 implies (#[trigger] r.at(i, j)).same_value(
        m.at(i, j),
    ) by {
        let a = seq![m.at(i, 0), m.at(i, 1), m.at(i, 2), m.at(i, 3)];
        let b = seq![unit.at(0, j), unit.at(1, j), unit.at(2, j), unit.at(3, j)];
        assert(m.row_by_column(unit, i, j, ops, r.at(i, j)));
        assert(Scalar::of(ONE_BITS).finite() && Scalar::of(ZERO_BITS).finite());
        assert(Scalar::of(ZERO_BITS).zero());
        lemma_single_term(ops, a, b, j, false, r.at(i, j));
    }
}

/// A rotation about the z axis whose cosine is one and whose sine is a zero
/// equals the identity: the rotation by no angle, and by any angle that the
/// arithmetic wraps to none.
pub proof fn lemma_rotation_by_nothing(c: Scalar, s: Scalar, r: Matrix4x4)
    requires
        Matrix4x4::rotation_of(c, s, r),
        c == Scalar::of(ONE_BITS),
        s.zero(),
    ensures
        r.equals_unit(),
{
    assert forall|i: int, j: int| 0 <= i < 4 && 0 <= j < 4 implies (#[trigger] r.at(i, j)).same_value(
        Scalar::of(
            if i == j {
                ONE_BITS
            } else {
                ZERO_BITS
            },
        ),
    ) by {
        assert(r.identity[i]@[j] == r.at(i, j));
    }
}

/// Flattening a matrix and building one from the entries gives the same
/// sixteen entries back, bit for bit.
pub proof fn lemma_array_round_trip(m: Matrix4x4, a: [Scalar; 16], back: Matrix4x4)
    requires
        a@ =~= flattened(m.identity),
        flattened(back.identity) =~= a@,
    ensures
        forall|i: int, j: int| 0 <= i < 4 && 0 <= j < 4 ==> back.at(i, j) == m.at(i, j),
        back.identity@ =~= m.identity@,
{
    assert forall|i: int, j: int| 0 <= i < 4 && 0 <= j < 4 implies back.at(i, j) == m.at(i, j) by {
        let k = 4 * i + j;
        assert(k / 4 == i && k % 4 == j);
        assert(flattened(back.identity)[k] == back.at(i, j));
        assert(flattened(m.identity)[k] == m.at(i, j));
    }
    assert forall|i: int| 0 <= i < 4 implies back.identity@[i] == m.identity@[i] by {
        assert(back.identity[i]@ =~= m.identity[i]@) by {
            assert forall|j: int| 0 <= j < 4 implies back.identity[i]@[j] == m.identity[i]@[j] by {
                assert(back.at(i, j) == m.at(i, j));
            }
        }
    }
}

} // verus!
