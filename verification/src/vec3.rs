//! Column vectors of three components.

use vstd::prelude::*;
use crate::exact::{fits, product};
use crate::model::{cross, dot3, fits3, vec_add, vec_sub};

verus! {

/// A column vector of three components.
#[derive(Copy, Clone, Debug, Eq)]
pub struct Vec3(pub [i64; 3]);

impl View for Vec3 {
    type V = Seq<int>;

    /// The three components, as mathematical integers.
    open spec fn view(&self) -> Seq<int> {
        Seq::new(3, |i: int| self.0[i] as int)
    }
}

impl Vec3 {
    /// The vector that the model `v` describes, when `v` fits.
    pub open spec fn of(v: Seq<int>) -> Vec3 {
        Vec3([v[0] as i64, v[1] as i64, v[2] as i64])
    }

    /// A vector is determined by its view.
    pub proof fn lemma_view_injective(a: Vec3, b: Vec3)
        requires
            a@ == b@,
        ensures
            a == b,
    {
        assert forall|i: int| 0 <= i < 3 implies a.0[i] == b.0[i] by {
            assert(a@[i] == a.0[i] as int);
            assert(b@[i] == b.0[i] as int);
        }
        assert(a.0 =~= b.0);
    }

    /// `of` builds the vector whose view is `v`.
    pub proof fn lemma_of_view(v: Seq<int>)
        requires
            v.len() == 3,
            fits3(v),
        ensures
            Vec3::of(v)@ == v,
    {
        assert(Vec3::of(v)@ =~= v);
    }

    /// The vector with all three components zero.
    pub fn zero() -> (r: Vec3)
        ensures
            r@ == seq![0int, 0int, 0int],
    {
        let r = Vec3([0, 0, 0]);
        assert(r@ =~= seq![0int, 0int, 0int]);
        r
    }

    /// Stores `value` as component `i`.
    pub fn set(&mut self, i: usize, value: i64)
        requires
            i < 3,
        ensures
            final(self)@ == old(self)@.update(i as int, value as int),
    {
        self.0[i] = value;
        assert(self@ =~= old(self)@.update(i as int, value as int));
    }

    /// The inner product with `other`.
    pub fn dot(self, other: Vec3) -> (r: i64)
        requires
            fits(dot3(self@, other@)),
        ensures
            r == dot3(self@, other@),
    {
        let p0 = product(self.0[0], other.0[0]);
        let p1 = product(self.0[1], other.0[1]);
        let p2 = product(self.0[2], other.0[2]);
        (p0 + p1 + p2) as i64
    }

    /// The square of the length: the inner product of the vector with itself.
    pub fn length_squared(self) -> (r: i64)
        requires
            fits(dot3(self@, self@)),
        ensures
            r == dot3(self@, self@),
            r >= 0,
    {
        proof {
            crate::laws::lemma_dot3_self_nonnegative(self@);
        }
        self.dot(self)
    }

    /// The right-handed cross product with `other`.
    pub fn cross(self, other: Vec3) -> (r: Vec3)
        requires
            fits3(cross(self@, other@)),
        ensures
            r@ == cross(self@, other@),
    {
        let ghost c = cross(self@, other@);
        let x = product(self.0[1], other.0[2]) - product(self.0[2], other.0[1]);
        let y = product(self.0[2], other.0[0]) - product(self.0[0], other.0[2]);
        let z = product(self.0[0], other.0[1]) - product(self.0[1], other.0[0]);
        let r = Vec3([x as i64, y as i64, z as i64]);
        assert(r@ =~= c);
        r
    }
}

impl PartialEq for Vec3 {
    /// Two vectors are equal when their components are.
    fn eq(&self, other: &Vec3) -> (r: bool) {
        let r = self.0[0] == other.0[0] && self.0[1] == other.0[1] && self.0[2] == other.0[2];
        proof {
            if r {
                assert(self@ =~= other@);
            } else {
                assert(self@[0] != other@[0] || self@[1] != other@[1] || self@[2] != other@[2]);
            }
        }
        r
    }
}

impl vstd::std_specs::cmp::PartialEqSpecImpl for Vec3 {
    open spec fn obeys_eq_spec() -> bool {
        true
    }

    open spec fn eq_spec(&self, other: &Vec3) -> bool {
        self@ == other@
    }
}

impl core::ops::Index<usize> for Vec3 {
    type Output = i64;

    /// Component `i`.
    fn index(&self, i: usize) -> (r: &i64)
        ensures
            *r == self@[i as int],
    {
        &self.0[i]
    }
}

impl vstd::std_specs::core::IndexSpecImpl<usize> for Vec3 {
    open spec fn index_req(&self, i: &usize) -> bool {
        *i < 3
    }
}

impl core::ops::Add for Vec3 {
    type Output = Vec3;

    /// The component-wise sum.
    fn add(self, other: Vec3) -> (r: Vec3)
        ensures
            r@ == vec_add(self@, other@),
    {
        let ghost sum = vec_add(self@, other@);
        let mut result = Vec3::zero();
        for i in 0..3
            invariant
                fits3(sum),
                sum == vec_add(self@, other@),
                forall|k: int| 0 <= k < i ==> result@[k] == sum[k],
        {
            let ghost prev = result;
            result.0[i] = self.0[i] + other.0[i];
            assert forall|k: int| 0 <= k < i + 1 implies result@[k] == sum[k] by {
                if k < i {
                    assert(result@[k] == prev@[k]);
                }
            }
        }
        assert(result@ =~= sum);
        proof {
            Vec3::lemma_of_view(sum);
            Vec3::lemma_view_injective(result, Vec3::of(sum));
        }
        result
    }
}

impl vstd::std_specs::ops::AddSpecImpl for Vec3 {
    open spec fn obeys_add_spec() -> bool {
        true
    }

    open spec fn add_req(self, other: Vec3) -> bool {
        fits3(vec_add(self@, other@))
    }

    open spec fn add_spec(self, other: Vec3) -> Vec3 {
        Vec3::of(vec_add(self@, other@))
    }
}

impl core::ops::Sub for Vec3 {
    type Output = Vec3;

    /// The component-wise difference.
    fn sub(self, other: Vec3) -> (r: Vec3)
        ensures
            r@ == vec_sub(self@, other@),
    {
        let ghost diff = vec_sub(self@, other@);
        let mut result = Vec3::zero();
        for i in 0..3
            invariant
                fits3(diff),
                diff == vec_sub(self@, other@),
                forall|k: int| 0 <= k < i ==> result@[k] == diff[k],
        {
            let ghost prev = result;
            result.0[i] = self.0[i] - other.0[i];
            assert forall|k: int| 0 <= k < i + 1 implies result@[k] == diff[k] by {
                if k < i {
                    assert(result@[k] == prev@[k]);
                }
            }
        }
        assert(result@ =~= diff);
        proof {
            Vec3::lemma_of_view(diff);
            Vec3::lemma_view_injective(result, Vec3::of(diff));
        }
        result
    }
}

impl vstd::std_specs::ops::SubSpecImpl for Vec3 {
    open spec fn obeys_sub_spec() -> bool {
        true
    }

    open spec fn sub_req(self, other: Vec3) -> bool {
        fits3(vec_sub(self@, other@))
    }

    open spec fn sub_spec(self, other: Vec3) -> Vec3 {
        Vec3::of(vec_sub(self@, other@))
    }
}

} // verus!
