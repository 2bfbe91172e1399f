//! The mathematical model: vectors are sequences of integers, a matrix is a
//! sequence of four columns of four integers each, written `m[column][row]`.
//! The contracts of the executable types are stated over these functions.

use vstd::prelude::*;
use crate::exact::fits;

verus! {

/// Every component of a vector of three components fits.
pub open spec fn fits3(v: Seq<int>) -> bool {
    fits(v[0]) && fits(v[1]) && fits(v[2])
}

/// Every component of a vector of four components fits.
pub open spec fn fits4(v: Seq<int>) -> bool {
    fits(v[0]) && fits(v[1]) && fits(v[2]) && fits(v[3])
}

/// The component-wise sum.
pub open spec fn vec_add(a: Seq<int>, b: Seq<int>) -> Seq<int> {
    Seq::new(a.len(), |i: int| a[i] + b[i])
}

/// The component-wise difference.
pub open spec fn vec_sub(a: Seq<int>, b: Seq<int>) -> Seq<int> {
    Seq::new(a.len(), |i: int| a[i] - b[i])
}

/// The component-wise negation.
pub open spec fn vec_neg(a: Seq<int>) -> Seq<int> {
    Seq::new(a.len(), |i: int| -a[i])
}

/// The inner product of two vectors of three components.
#[verifier::inline]
pub open spec fn dot3(a: Seq<int>, b: Seq<int>) -> int {
    a[0] * b[0] + a[1] * b[1] + a[2] * b[2]
}

/// The inner product of two vectors of four components.
#[verifier::inline]
pub open spec fn dot4(a: Seq<int>, b: Seq<int>) -> int {
    a[0] * b[0] + a[1] * b[1] + a[2] * b[2] + a[3] * b[3]
}

/// The right-handed cross product of two vectors of three components.
pub open spec fn cross(a: Seq<int>, b: Seq<int>) -> Seq<int> {
    seq![a[1] * b[2] - a[2] * b[1], a[2] * b[0] - a[0] * b[2], a[0] * b[1] - a[1] * b[0]]
}

/// A matrix has four columns of four rows.
pub open spec fn is_mat(m: Seq<Seq<int>>) -> bool {
    &&& m.len() == 4
    &&& forall|c: int| 0 <= c < 4 ==> (#[trigger] m[c]).len() == 4
}

/// Every entry of the matrix fits.
pub open spec fn mat_fits(m: Seq<Seq<int>>) -> bool {
    fits4(m[0]) && fits4(m[1]) && fits4(m[2]) && fits4(m[3])
}

/// Row `r` of the matrix, read across its four columns.
#[verifier::inline]
pub open spec fn mat_row(m: Seq<Seq<int>>, r: int) -> Seq<int> {
    seq![m[0][r], m[1][r], m[2][r], m[3][r]]
}

/// The matrix product `a * b`: the entry in column `c` and row `r` is the
/// inner product of row `r` of `a` with column `c` of `b`.
pub open spec fn mat_mul(a: Seq<Seq<int>>, b: Seq<Seq<int>>) -> Seq<Seq<int>> {
    Seq::new(4, |c: int| Seq::new(4, |r: int| dot4(mat_row(a, r), b[c])))
}

/// The matrix applied to a column vector: component `r` is the inner product
/// of row `r` of `m` with `v`.
pub open spec fn mat_apply(m: Seq<Seq<int>>, v: Seq<int>) -> Seq<int> {
    Seq::new(4, |r: int| dot4(mat_row(m, r), v))
}

/// The matrix with the given diagonal and zero elsewhere.
pub open spec fn mat_diagonal(x: int, y: int, z: int, w: int) -> Seq<Seq<int>> {
    seq![seq![x, 0, 0, 0], seq![0, y, 0, 0], seq![0, 0, z, 0], seq![0, 0, 0, w]]
}

/// The matrix of sixteen zeros.
pub open spec fn mat_zero() -> Seq<Seq<int>> {
    mat_diagonal(0, 0, 0, 0)
}

/// The identity matrix.
pub open spec fn mat_identity() -> Seq<Seq<int>> {
    mat_diagonal(1, 1, 1, 1)
}

/// The scaling by `x`, `y` and `z` along the three axes.
pub open spec fn mat_scale(x: int, y: int, z: int) -> Seq<Seq<int>> {
    mat_diagonal(x, y, z, 1)
}

/// The translation by `(x, y, z)`: the identity with the offset in the first
/// three rows of the last column.
pub open spec fn mat_translate(x: int, y: int, z: int) -> Seq<Seq<int>> {
    seq![seq![1, 0, 0, 0], seq![0, 1, 0, 0], seq![0, 0, 1, 0], seq![x, y, z, 1]]
}

/// The rotation about the X axis by the angle whose cosine and sine are given:
/// the Y axis turns towards the Z axis.
pub open spec fn mat_rotate_x(cos: int, sin: int) -> Seq<Seq<int>> {
    seq![seq![1, 0, 0, 0], seq![0, cos, sin, 0], seq![0, -sin, cos, 0], seq![0, 0, 0, 1]]
}

/// The rotation about the Y axis by the angle whose cosine and sine are given:
/// the Z axis turns towards the X axis.
pub open spec fn mat_rotate_y(cos: int, sin: int) -> Seq<Seq<int>> {
    seq![seq![cos, 0, -sin, 0], seq![0, 1, 0, 0], seq![sin, 0, cos, 0], seq![0, 0, 0, 1]]
}

/// The rotation about the Z axis by the angle whose cosine and sine are given:
/// the X axis turns towards the Y axis.
pub open spec fn mat_rotate_z(cos: int, sin: int) -> Seq<Seq<int>> {
    seq![seq![cos, sin, 0, 0], seq![-sin, cos, 0, 0], seq![0, 0, 1, 0], seq![0, 0, 0, 1]]
}

/// The depth axis of a camera at `eye` that looks towards `center`: it points
/// from the centre to the eye.
pub open spec fn look_at_depth(eye: Seq<int>, center: Seq<int>) -> Seq<int> {
    vec_sub(eye, center)
}

/// The right axis of that camera: perpendicular to `up` and to the depth axis.
pub open spec fn look_at_right(eye: Seq<int>, center: Seq<int>, up: Seq<int>) -> Seq<int> {
    cross(up, look_at_depth(eye, center))
}

/// The vertical axis of that camera: perpendicular to the depth axis and to
/// the right axis.
pub open spec fn look_at_vertical(eye: Seq<int>, center: Seq<int>, up: Seq<int>) -> Seq<int> {
    cross(look_at_depth(eye, center), look_at_right(eye, center, up))
}

/// The view matrix of that camera before its axes are brought to unit length.
/// Rows 0, 1 and 2 hold the right, vertical and depth axis, each followed by
/// the negated inner product of the axis with `eye`; row 3 is `(0, 0, 0, 1)`.
pub open spec fn mat_look_at(eye: Seq<int>, center: Seq<int>, up: Seq<int>) -> Seq<Seq<int>> {
    let x = look_at_right(eye, center, up);
    let y = look_at_vertical(eye, center, up);
    let z = look_at_depth(eye, center);
    seq![
        seq![x[0], y[0], z[0], 0],
        seq![x[1], y[1], z[1], 0],
        seq![x[2], y[2], z[2], 0],
        seq![-dot3(x, eye), -dot3(y, eye), -dot3(z, eye), 1],
    ]
}

} // verus!
