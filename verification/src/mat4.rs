//! The 4x4 matrix, stored column by column, and the transforms built from it.

use vstd::prelude::*;
use crate::exact::{fits, product};
use crate::model::{
    dot3, dot4, fits3, fits4, is_mat, look_at_depth, look_at_right, look_at_vertical, mat_apply,
    mat_fits, mat_identity, mat_look_at, mat_mul, mat_rotate_x, mat_rotate_y, mat_rotate_z,
    mat_row, mat_scale, mat_translate, mat_zero,
};
use crate::vec3::Vec3;
use crate::vec4::Vec4;

verus! {

/// A matrix of four columns of four rows: `self.0[column][row]`.
#[derive(Copy, Clone, Debug, Eq)]
pub struct Mat4(pub [[i64; 4]; 4]);

impl View for Mat4 {
    type V = Seq<Seq<int>>;

    /// The four columns, each as its four entries from row 0 to row 3.
    open spec fn view(&self) -> Seq<Seq<int>> {
        Seq::new(4, |c: int| Seq::new(4, |r: int| self.0[c][r] as int))
    }
}

impl Mat4 {
    /// The matrix that the model `m` describes, when `m` fits.
    pub open spec fn of(m: Seq<Seq<int>>) -> Mat4 {
        Mat4(
            [
                [m[0][0] as i64, m[0][1] as i64, m[0][2] as i64, m[0][3] as i64],
                [m[1][0] as i64, m[1][1] as i64, m[1][2] as i64, m[1][3] as i64],
                [m[2][0] as i64, m[2][1] as i64, m[2][2] as i64, m[2][3] as i64],
                [m[3][0] as i64, m[3][1] as i64, m[3][2] as i64, m[3][3] as i64],
            ],
        )
    }

    /// A matrix is determined by its view.
    pub proof fn lemma_view_injective(a: Mat4, b: Mat4)
        requires
            a@ == b@,
        ensures
            a == b,
    {
        assert forall|c: int| 0 <= c < 4 implies a.0[c] == b.0[c] by {
            assert forall|r: int| 0 <= r < 4 implies a.0[c][r] == b.0[c][r] by {
                assert(a@[c][r] == a.0[c][r] as int);
                assert(b@[c][r] == b.0[c][r] as int);
            }
            assert(a.0[c] =~= b.0[c]);
        }
        assert(a.0 =~= b.0);
    }

    /// `of` builds the matrix whose view is `m`.
    pub proof fn lemma_of_view(m: Seq<Seq<int>>)
        requires
            is_mat(m),
            mat_fits(m),
        ensures
            Mat4::of(m)@ == m,
    {
        let a = Mat4::of(m);
        assert forall|c: int| 0 <= c < 4 implies #[trigger] a@[c] == m[c] by {
            assert forall|r: int| 0 <= r < 4 implies a@[c][r] == m[c][r] by {
                assert(fits(m[c][r]));
            }
            assert(m[c].len() == 4);
            assert(a@[c] =~= m[c]);
        }
        assert(a@ =~= m);
    }

    /// The matrix of sixteen zeros.
    pub fn zero() -> (m: Mat4)
        ensures
            m@ == mat_zero(),
    {
        let m = Mat4([[0, 0, 0, 0], [0, 0, 0, 0], [0, 0, 0, 0], [0, 0, 0, 0]]);
        assert(m@ =~~= mat_zero());
        m
    }

    /// The identity matrix.
    pub fn identity() -> (m: Mat4)
        ensures
            m@ == mat_identity(),
    {
        let m = Mat4([[1, 0, 0, 0], [0, 1, 0, 0], [0, 0, 1, 0], [0, 0, 0, 1]]);
        assert(m@ =~~= mat_identity());
        m
    }

    /// The scaling by `x`, `y` and `z` along the three axes.
    pub fn scale(x: i64, y: i64, z: i64) -> (m: Mat4)
        ensures
            m@ == mat_scale(x as int, y as int, z as int),
    {
        let m = Mat4([[x, 0, 0, 0], [0, y, 0, 0], [0, 0, z, 0], [0, 0, 0, 1]]);
        assert(m@ =~~= mat_scale(x as int, y as int, z as int));
        m
    }

    /// The translation by `(x, y, z)`.
    pub fn translate(x: i64, y: i64, z: i64) -> (m: Mat4)
        ensures
            m@ == mat_translate(x as int, y as int, z as int),
    {
        let m = Mat4([[1, 0, 0, 0], [0, 1, 0, 0], [0, 0, 1, 0], [x, y, z, 1]]);
        assert(m@ =~~= mat_translate(x as int, y as int, z as int));
        m
    }

    /// The rotation about the X axis by the angle whose cosine and sine are
    /// given.
    pub fn rotate_x(cos: i64, sin: i64) -> (m: Mat4)
        requires
            fits(-sin),
        ensures
            m@ == mat_rotate_x(cos as int, sin as int),
    {
        let m = Mat4([[1, 0, 0, 0], [0, cos, sin, 0], [0, -sin, cos, 0], [0, 0, 0, 1]]);
        assert(m@ =~~= mat_rotate_x(cos as int, sin as int));
        m
    }

    /// The rotation about the Y axis by the angle whose cosine and sine are
    /// given.
    pub fn rotate_y(cos: i64, sin: i64) -> (m: Mat4)
        requires
            fits(-sin),
        ensures
            m@ == mat_rotate_y(cos as int, sin as int),
    {
        let m = Mat4([[cos, 0, -sin, 0], [0, 1, 0, 0], [sin, 0, cos, 0], [0, 0, 0, 1]]);
        assert(m@ =~~= mat_rotate_y(cos as int, sin as int));
        m
    }

    /// The rotation about the Z axis by the angle whose cosine and sine are
    /// given.
    pub fn rotate_z(cos: i64, sin: i64) -> (m: Mat4)
        requires
            fits(-sin),
        ensures
            m@ == mat_rotate_z(cos as int, sin as int),
    {
        let m = Mat4([[cos, sin, 0, 0], [-sin, cos, 0, 0], [0, 0, 1, 0], [0, 0, 0, 1]]);
        assert(m@ =~~= mat_rotate_z(cos as int, sin as int));
        m
    }

    /// Stores `value` in column `col`, row `row`.
    pub fn set(&mut self, col: usize, row: usize, value: i64)
        requires
            col < 4,
            row < 4,
        ensures
            final(self)@ == old(self)@.update(
                col as int,
                old(self)@[col as int].update(row as int, value as int),
            ),
    {
        self.0[col][row] = value;
        assert(self@ =~~= old(self)@.update(
            col as int,
            old(self)@[col as int].update(row as int, value as int),
        ));
    }

    /// The negated inner product of `a` and `b`.
    fn neg_dot(a: Vec3, b: Vec3) -> (r: i64)
        requires
            fits(-dot3(a@, b@)),
        ensures
            r == -dot3(a@, b@),
    {
        let p0 = product(a.0[0], b.0[0]);
        let p1 = product(a.0[1], b.0[1]);
        let p2 = product(a.0[2], b.0[2]);
        (-(p0 + p1 + p2)) as i64
    }

    /// The view matrix of a camera at `eye` that looks towards `center`, with
    /// `up` as the vertical direction, before its axes are brought to unit
    /// length. Dividing row 0, 1 and 2 by the length of the axis that the row
    /// holds gives the view matrix itself.
    pub fn look_at_unnormalized(eye: Vec3, center: Vec3, up: Vec3) -> (m: Mat4)
        requires
            mat_fits(mat_look_at(eye@, center@, up@)),
        ensures
            m@ == mat_look_at(eye@, center@, up@),
    {
        let ghost goal = mat_look_at(eye@, center@, up@);
        let ghost gx = look_at_right(eye@, center@, up@);
        let ghost gy = look_at_vertical(eye@, center@, up@);
        let ghost gz = look_at_depth(eye@, center@);
        proof {
            assert(fits3(gx));
            assert(fits3(gy));
            assert(fits3(gz));
        }
        let z = eye - center;
        let x = up.cross(z);
        let y = z.cross(x);
        let m = Mat4(
            [
                [x.0[0], y.0[0], z.0[0], 0],
                [x.0[1], y.0[1], z.0[1], 0],
                [x.0[2], y.0[2], z.0[2], 0],
                [Mat4::neg_dot(x, eye), Mat4::neg_dot(y, eye), Mat4::neg_dot(z, eye), 1],
            ],
        );
        proof {
            assert(x@[0] == x.0[0] && x@[1] == x.0[1] && x@[2] == x.0[2]);
            assert(y@[0] == y.0[0] && y@[1] == y.0[1] && y@[2] == y.0[2]);
            assert(z@[0] == z.0[0] && z@[1] == z.0[1] && z@[2] == z.0[2]);
            assert(m@ =~~= goal);
        }
        m
    }
}

impl PartialEq for Mat4 {
    /// Two matrices are equal when their entries are.
    fn eq(&self, other: &Mat4) -> (r: bool) {
        let mut same = true;
        for col in 0..4
            invariant
                same <==> forall|c: int, r: int|
                    0 <= c < col && 0 <= r < 4 ==> self.0[c][r] == other.0[c][r],
        {
            for row in 0..4
                invariant
                    col < 4,
                    same <==> forall|c: int, r: int|
                        (0 <= c < col && 0 <= r < 4) || (c == col && 0 <= r < row)
                            ==> self.0[c][r] == other.0[c][r],
            {
                if self.0[col][row] != other.0[col][row] {
                    same = false;
                }
            }
        }
        proof {
            if same {
                assert(self@ =~~= other@);
            } else {
                let (c, r) = choose|c: int, r: int|
                    0 <= c < 4 && 0 <= r < 4 && self.0[c][r] != other.0[c][r];
                assert(self@[c][r] != other@[c][r]);
            }
        }
        same
    }
}

impl vstd::std_specs::cmp::PartialEqSpecImpl for Mat4 {
    open spec fn obeys_eq_spec() -> bool {
        true
    }

    open spec fn eq_spec(&self, other: &Mat4) -> bool {
        self@ == other@
    }
}

impl core::ops::Index<usize> for Mat4 {
    type Output = [i64; 4];

    /// Column `col`.
    fn index(&self, col: usize) -> (r: &[i64; 4])
        ensures
            *r == self.0[col as int],
            forall|row: int| 0 <= row < 4 ==> (*r)[row] == self@[col as int][row],
    {
        &self.0[col]
    }
}

impl vstd::std_specs::core::IndexSpecImpl<usize> for Mat4 {
    open spec fn index_req(&self, col: &usize) -> bool {
        *col < 4
    }
}

impl core::ops::Mul<Mat4> for Mat4 {
    type Output = Mat4;

    /// The matrix product `self * other`: the transform that applies `other`
    /// first and `self` second.
    fn mul(self, other: Mat4) -> (m: Mat4)
        ensures
            m@ == mat_mul(self@, other@),
    {
        let ghost goal = mat_mul(self@, other@);
        let mut result = Mat4::zero();
        for col in 0..4
            invariant
                goal == mat_mul(self@, other@),
                mat_fits(goal),
                forall|c: int, r: int| 0 <= c < col && 0 <= r < 4 ==> result.0[c][r] == goal[c][r],
        {
            for row in 0..4
                invariant
                    col < 4,
                    goal == mat_mul(self@, other@),
                    mat_fits(goal),
                    forall|c: int, r: int|
                        (0 <= c < col && 0 <= r < 4) || (c == col && 0 <= r < row)
                            ==> result.0[c][r] == goal[c][r],
            {
                let ghost prev = result;
                proof {
                    assert(fits(goal[col as int][row as int]));
                    assert(goal[col as int][row as int] == dot4(
                        mat_row(self@, row as int),
                        other@[col as int],
                    ));
                }
                let p0 = product(self.0[0][row], other.0[col][0]);
                let p1 = product(self.0[1][row], other.0[col][1]);
                let p2 = product(self.0[2][row], other.0[col][2]);
                let p3 = product(self.0[3][row], other.0[col][3]);
                result.0[col][row] = (p0 + p1 + p2 + p3) as i64;
                assert forall|c: int, r: int|
                    (0 <= c < col && 0 <= r < 4) || (c == col && 0 <= r < row + 1)
                        implies result.0[c][r] == goal[c][r] by {
                    if !(c == col && r == row) {
                        assert(result.0[c][r] == prev.0[c][r]);
                    }
                }
            }
        }
        proof {
            assert(result@ =~~= goal);
            Mat4::lemma_of_view(goal);
            Mat4::lemma_view_injective(result, Mat4::of(goal));
        }
        result
    }
}

impl vstd::std_specs::ops::MulSpecImpl<Mat4> for Mat4 {
    open spec fn obeys_mul_spec() -> bool {
        true
    }

    open spec fn mul_req(self, other: Mat4) -> bool {
        mat_fits(mat_mul(self@, other@))
    }

    open spec fn mul_spec(self, other: Mat4) -> Mat4 {
        Mat4::of(mat_mul(self@, other@))
    }
}

impl core::ops::Mul<Vec4> for Mat4 {
    type Output = Vec4;

    /// The matrix applied to the column vector `vec`.
    fn mul(self, vec: Vec4) -> (v: Vec4)
        ensures
            v@ == mat_apply(self@, vec@),
    {
        let ghost goal = mat_apply(self@, vec@);
        let mut result = Vec4::zero();
        for row in 0..4
            invariant
                goal == mat_apply(self@, vec@),
                fits4(goal),
                forall|r: int| 0 <= r < row ==> result.0[r] == goal[r],
        {
            let ghost prev = result;
            proof {
                assert(fits(goal[row as int]));
                assert(goal[row as int] == dot4(mat_row(self@, row as int), vec@));
            }
            let p0 = product(self.0[0][row], vec.0[0]);
            let p1 = product(self.0[1][row], vec.0[1]);
            let p2 = product(self.0[2][row], vec.0[2]);
            let p3 = product(self.0[3][row], vec.0[3]);
            result.0[row] = (p0 + p1 + p2 + p3) as i64;
            assert forall|r: int| 0 <= r < row + 1 implies result.0[r] == goal[r] by {
                if r < row {
                    assert(result.0[r] == prev.0[r]);
                }
            }
        }
        proof {
            assert(result@ =~= goal);
            Vec4::lemma_of_view(goal);
            Vec4::lemma_view_injective(result, Vec4::of(goal));
        }
        result
    }
}

impl vstd::std_specs::ops::MulSpecImpl<Vec4> for Mat4 {
    open spec fn obeys_mul_spec() -> bool {
        true
    }

    open spec fn mul_req(self, vec: Vec4) -> bool {
        fits4(mat_apply(self@, vec@))
    }

    open spec fn mul_spec(self, vec: Vec4) -> Vec4 {
        Vec4::of(mat_apply(self@, vec@))
    }
}

} // verus!
