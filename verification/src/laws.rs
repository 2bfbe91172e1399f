//! What holds of the operations for all vectors and matrices, proved over the
//! mathematical model.

use vstd::prelude::*;
use crate::mat4::Mat4;
use crate::model::{
    cross, dot3, dot4, look_at_depth, look_at_right, look_at_vertical, mat_apply, mat_identity,
    mat_look_at, mat_mul, mat_scale, mat_translate, vec_neg,
};
use crate::vec3::Vec3;

verus! {

/// The inner product of a vector of three components with itself is never
/// negative.
pub proof fn lemma_dot3_self_nonnegative(v: Seq<int>)
    ensures
        dot3(v, v) >= 0,
{
    let x = v[0];
    let y = v[1];
    let z = v[2];
    assert(x * x + y * y + z * z >= 0) by (nonlinear_arith);
}

/// The inner product of a vector of four components with itself is never
/// negative.
pub proof fn lemma_dot4_self_nonnegative(v: Seq<int>)
    ensures
        dot4(v, v) >= 0,
{
    let x = v[0];
    let y = v[1];
    let z = v[2];
    let w = v[3];
    assert(x * x + y * y + z * z + w * w >= 0) by (nonlinear_arith);
}

/// The inner product does not depend on the order of its operands.
pub proof fn lemma_dot_commutative(a: Seq<int>, b: Seq<int>)
    ensures
        dot3(a, b) == dot3(b, a),
        dot4(a, b) == dot4(b, a),
{
    assert(a[0] * b[0] == b[0] * a[0]) by (nonlinear_arith);
    assert(a[1] * b[1] == b[1] * a[1]) by (nonlinear_arith);
    assert(a[2] * b[2] == b[2] * a[2]) by (nonlinear_arith);
    assert(a[3] * b[3] == b[3] * a[3]) by (nonlinear_arith);
}

/// The cross product of a vector with a multiple of itself is zero; so it is
/// for parallel operands, for equal operands and when one operand is zero.
pub proof fn lemma_cross_parallel_is_zero(a: Vec3, k: int)
    ensures
        cross(a@, seq![k * a@[0], k * a@[1], k * a@[2]]) == seq![0int, 0int, 0int],
        cross(seq![k * a@[0], k * a@[1], k * a@[2]], a@) == seq![0int, 0int, 0int],
{
    let (a0, a1, a2) = (a@[0], a@[1], a@[2]);
    let b = seq![k * a0, k * a1, k * a2];
    assert(a1 * (k * a2) - a2 * (k * a1) == 0) by (nonlinear_arith);
    assert(a2 * (k * a0) - a0 * (k * a2) == 0) by (nonlinear_arith);
    assert(a0 * (k * a1) - a1 * (k * a0) == 0) by (nonlinear_arith);
    assert((k * a1) * a2 - (k * a2) * a1 == 0) by (nonlinear_arith);
    assert((k * a2) * a0 - (k * a0) * a2 == 0) by (nonlinear_arith);
    assert((k * a0) * a1 - (k * a1) * a0 == 0) by (nonlinear_arith);
    assert(cross(a@, b) =~= seq![0int, 0int, 0int]);
    assert(cross(b, a@) =~= seq![0int, 0int, 0int]);
}

/// The cross product is anti-commutative: exchanging the operands negates
/// every component.
pub proof fn lemma_cross_anticommutative(a: Vec3, b: Vec3)
    ensures
        cross(a@, b@) == vec_neg(cross(b@, a@)),
{
    let (a0, a1, a2) = (a@[0], a@[1], a@[2]);
    let (b0, b1, b2) = (b@[0], b@[1], b@[2]);
    assert(a1 * b2 - a2 * b1 == -(b1 * a2 - b2 * a1)) by (nonlinear_arith);
    assert(a2 * b0 - a0 * b2 == -(b2 * a0 - b0 * a2)) by (nonlinear_arith);
    assert(a0 * b1 - a1 * b0 == -(b0 * a1 - b1 * a0)) by (nonlinear_arith);
    assert(cross(a@, b@) =~= vec_neg(cross(b@, a@)));
}

/// The identity matrix is neutral for the matrix product, on either side.
pub proof fn lemma_mul_identity(m: Mat4)
    ensures
        mat_mul(mat_identity(), m@) == m@,
        mat_mul(m@, mat_identity()) == m@,
{
    let id = mat_identity();
    let left = mat_mul(id, m@);
    let right = mat_mul(m@, id);
    assert forall|c: int, r: int| 0 <= c < 4 && 0 <= r < 4 implies left[c][r] == m@[c][r]
        && right[c][r] == m@[c][r] by {
        lemma_dot4_unit(id[0][r], id[1][r], id[2][r], id[3][r], m@[c][0], m@[c][1], m@[c][2],
            m@[c][3]);
        lemma_dot4_unit(id[c][0], id[c][1], id[c][2], id[c][3], m@[0][r], m@[1][r], m@[2][r],
            m@[3][r]);
    }
    assert(left =~~= m@);
    assert(right =~~= m@);
}

/// A sum of four products in which every left factor is zero or one.
proof fn lemma_dot4_unit(u0: int, u1: int, u2: int, u3: int, x0: int, x1: int, x2: int, x3: int)
    requires
        u0 == 0 || u0 == 1,
        u1 == 0 || u1 == 1,
        u2 == 0 || u2 == 1,
        u3 == 0 || u3 == 1,
    ensures
        u0 * x0 + u1 * x1 + u2 * x2 + u3 * x3 == (if u0 == 1 { x0 } else { 0 }) + (if u1 == 1 {
            x1
        } else {
            0
        }) + (if u2 == 1 { x2 } else { 0 }) + (if u3 == 1 { x3 } else { 0 }),
        x0 * u0 + x1 * u1 + x2 * u2 + x3 * u3 == u0 * x0 + u1 * x1 + u2 * x2 + u3 * x3,
{
    assert(u0 * x0 == (if u0 == 1 { x0 } else { 0 }) && x0 * u0 == u0 * x0) by (nonlinear_arith)
        requires
            u0 == 0 || u0 == 1,
    ;
    assert(u1 * x1 == (if u1 == 1 { x1 } else { 0 }) && x1 * u1 == u1 * x1) by (nonlinear_arith)
        requires
            u1 == 0 || u1 == 1,
    ;
    assert(u2 * x2 == (if u2 == 1 { x2 } else { 0 }) && x2 * u2 == u2 * x2) by (nonlinear_arith)
        requires
            u2 == 0 || u2 == 1,
    ;
    assert(u3 * x3 == (if u3 == 1 { x3 } else { 0 }) && x3 * u3 == u3 * x3) by (nonlinear_arith)
        requires
            u3 == 0 || u3 == 1,
    ;
}

/// Summing over the middle index in either order gives the same total:
/// the entry of `(A * B) * C` and of `A * (B * C)`, written out.
proof fn lemma_regroup(a: Seq<int>, b: Seq<Seq<int>>, c: Seq<int>)
    ensures
        (a[0] * b[0][0] + a[1] * b[0][1] + a[2] * b[0][2] + a[3] * b[0][3]) * c[0] + (a[0]
            * b[1][0] + a[1] * b[1][1] + a[2] * b[1][2] + a[3] * b[1][3]) * c[1] + (a[0] * b[2][0]
            + a[1] * b[2][1] + a[2] * b[2][2] + a[3] * b[2][3]) * c[2] + (a[0] * b[3][0] + a[1]
            * b[3][1] + a[2] * b[3][2] + a[3] * b[3][3]) * c[3] == a[0] * (b[0][0] * c[0]
            + b[1][0] * c[1] + b[2][0] * c[2] + b[3][0] * c[3]) + a[1] * (b[0][1] * c[0] + b[1][1]
            * c[1] + b[2][1] * c[2] + b[3][1] * c[3]) + a[2] * (b[0][2] * c[0] + b[1][2] * c[1]
            + b[2][2] * c[2] + b[3][2] * c[3]) + a[3] * (b[0][3] * c[0] + b[1][3] * c[1] + b[2][3]
            * c[2] + b[3][3] * c[3]),
{
    lemma_regroup_ints(
        a[0], a[1], a[2], a[3],
        b[0][0], b[0][1], b[0][2], b[0][3],
        b[1][0], b[1][1], b[1][2], b[1][3],
        b[2][0], b[2][1], b[2][2], b[2][3],
        b[3][0], b[3][1], b[3][2], b[3][3],
        c[0], c[1], c[2], c[3],
    );
}

/// Multiplication distributes over a sum of four terms, from either side.
proof fn lemma_four_terms(a: int, p0: int, p1: int, p2: int, p3: int)
    by (nonlinear_arith)
    ensures
        (p0 + p1 + p2 + p3) * a == p0 * a + p1 * a + p2 * a + p3 * a,
        a * (p0 + p1 + p2 + p3) == a * p0 + a * p1 + a * p2 + a * p3,
{
}

/// Three factors may be grouped either way.
proof fn lemma_three_factors(a: int, b: int, c: int)
    by (nonlinear_arith)
    ensures
        (a * b) * c == a * (b * c),
{
}

/// The same regrouping, stated of twenty-four integers.
proof fn lemma_regroup_ints(
    a0: int, a1: int, a2: int, a3: int,
    b00: int, b01: int, b02: int, b03: int,
    b10: int, b11: int, b12: int, b13: int,
    b20: int, b21: int, b22: int, b23: int,
    b30: int, b31: int, b32: int, b33: int,
    c0: int, c1: int, c2: int, c3: int,
)
    ensures
        (a0 * b00 + a1 * b01 + a2 * b02 + a3 * b03) * c0 + (a0 * b10 + a1 * b11 + a2 * b12 + a3
            * b13) * c1 + (a0 * b20 + a1 * b21 + a2 * b22 + a3 * b23) * c2 + (a0 * b30 + a1 * b31
            + a2 * b32 + a3 * b33) * c3 == a0 * (b00 * c0 + b10 * c1 + b20 * c2 + b30 * c3) + a1
            * (b01 * c0 + b11 * c1 + b21 * c2 + b31 * c3) + a2 * (b02 * c0 + b12 * c1 + b22 * c2
            + b32 * c3) + a3 * (b03 * c0 + b13 * c1 + b23 * c2 + b33 * c3),
{
    lemma_four_terms(c0, a0 * b00, a1 * b01, a2 * b02, a3 * b03);
    lemma_four_terms(c1, a0 * b10, a1 * b11, a2 * b12, a3 * b13);
    lemma_four_terms(c2, a0 * b20, a1 * b21, a2 * b22, a3 * b23);
    lemma_four_terms(c3, a0 * b30, a1 * b31, a2 * b32, a3 * b33);
    lemma_four_terms(a0, b00 * c0, b10 * c1, b20 * c2, b30 * c3);
    lemma_four_terms(a1, b01 * c0, b11 * c1, b21 * c2, b31 * c3);
    lemma_four_terms(a2, b02 * c0, b12 * c1, b22 * c2, b32 * c3);
    lemma_four_terms(a3, b03 * c0, b13 * c1, b23 * c2, b33 * c3);
    lemma_three_factors(a0, b00, c0);
    lemma_three_factors(a1, b01, c0);
    lemma_three_factors(a2, b02, c0);
    lemma_three_factors(a3, b03, c0);
    lemma_three_factors(a0, b10, c1);
    lemma_three_factors(a1, b11, c1);
    lemma_three_factors(a2, b12, c1);
    lemma_three_factors(a3, b13, c1);
    lemma_three_factors(a0, b20, c2);
    lemma_three_factors(a1, b21, c2);
    lemma_three_factors(a2, b22, c2);
    lemma_three_factors(a3, b23, c2);
    lemma_three_factors(a0, b30, c3);
    lemma_three_factors(a1, b31, c3);
    lemma_three_factors(a2, b32, c3);
    lemma_three_factors(a3, b33, c3);
}

/// The matrix product is associative.
pub proof fn lemma_mul_associative(a: Mat4, b: Mat4, c: Mat4)
    ensures
        mat_mul(mat_mul(a@, b@), c@) == mat_mul(a@, mat_mul(b@, c@)),
{
    let ab = mat_mul(a@, b@);
    let bc = mat_mul(b@, c@);
    let left = mat_mul(ab, c@);
    let right = mat_mul(a@, bc);
    assert forall|col: int, row: int| 0 <= col < 4 && 0 <= row < 4 implies left[col][row]
        == right[col][row] by {
        let ar = seq![a@[0][row], a@[1][row], a@[2][row], a@[3][row]];
        lemma_regroup(ar, b@, c@[col]);
    }
    assert(left =~~= right);
}

/// Scaling by one along every axis is the identity.
pub proof fn lemma_scale_one_is_identity()
    ensures
        mat_scale(1, 1, 1) == mat_identity(),
{
}

/// Translating by zero is the identity.
pub proof fn lemma_translate_zero_is_identity()
    ensures
        mat_translate(0, 0, 0) == mat_identity(),
{
    assert(mat_translate(0, 0, 0) =~~= mat_identity());
}

/// The three axes of a look-at camera are perpendicular to one another.
pub proof fn lemma_look_at_axes_perpendicular(eye: Vec3, center: Vec3, up: Vec3)
    ensures
        dot3(look_at_right(eye@, center@, up@), look_at_depth(eye@, center@)) == 0,
        dot3(look_at_vertical(eye@, center@, up@), look_at_depth(eye@, center@)) == 0,
        dot3(look_at_vertical(eye@, center@, up@), look_at_right(eye@, center@, up@)) == 0,
{
    let z = look_at_depth(eye@, center@);
    let x = look_at_right(eye@, center@, up@);
    lemma_cross_perpendicular(up@, z);
    lemma_cross_perpendicular(z, x);
}

/// The cross product is perpendicular to both of its operands.
pub proof fn lemma_cross_perpendicular(a: Seq<int>, b: Seq<int>)
    ensures
        dot3(cross(a, b), a) == 0,
        dot3(cross(a, b), b) == 0,
{
    let (a0, a1, a2) = (a[0], a[1], a[2]);
    let (b0, b1, b2) = (b[0], b[1], b[2]);
    assert((a1 * b2 - a2 * b1) * a0 + (a2 * b0 - a0 * b2) * a1 + (a0 * b1 - a1 * b0) * a2 == 0)
        by (nonlinear_arith);
    assert((a1 * b2 - a2 * b1) * b0 + (a2 * b0 - a0 * b2) * b1 + (a0 * b1 - a1 * b0) * b2 == 0)
        by (nonlinear_arith);
}

/// The look-at matrix moves the eye to the origin: applied to the point
/// `eye`, it gives `(0, 0, 0, 1)`.
pub proof fn lemma_look_at_maps_eye_to_origin(eye: Vec3, center: Vec3, up: Vec3)
    ensures
        mat_apply(mat_look_at(eye@, center@, up@), seq![eye@[0], eye@[1], eye@[2], 1])
            == seq![0int, 0int, 0int, 1int],
{
    let m = mat_look_at(eye@, center@, up@);
    let p = seq![eye@[0], eye@[1], eye@[2], 1];
    let x = look_at_right(eye@, center@, up@);
    let y = look_at_vertical(eye@, center@, up@);
    let z = look_at_depth(eye@, center@);
    lemma_row_cancels(x, eye@);
    lemma_row_cancels(y, eye@);
    lemma_row_cancels(z, eye@);
    assert(mat_apply(m, p) =~= seq![0int, 0int, 0int, 1int]);
}

/// An axis followed by its negated inner product with a point, applied to
/// that point, gives zero.
proof fn lemma_row_cancels(axis: Seq<int>, p: Seq<int>)
    ensures
        axis[0] * p[0] + axis[1] * p[1] + axis[2] * p[2] + (-dot3(axis, p)) * 1 == 0,
        0 * p[0] + 0 * p[1] + 0 * p[2] + 1 * 1 == 1,
{
    let d = dot3(axis, p);
    assert((-d) * 1 == -d) by (nonlinear_arith);
    assert(0 * p[0] == 0 && 0 * p[1] == 0 && 0 * p[2] == 0) by (nonlinear_arith);
}

} // verus!
