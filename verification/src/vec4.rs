//! Column vectors of four components: points and directions in homogeneous
//! coordinates.

use vstd::prelude::*;
use crate::exact::{fits, product};
use crate::model::{dot4, fits4, vec_add, vec_sub};

verus! {

/// A column vector of four components.
#[derive(Copy, Clone, Debug, Eq)]
pub struct Vec4(pub [i64; 4]);

impl View for Vec4 {
    type V = Seq<int>;

    /// The four components, as mathematical integers.
    open spec fn view(&self) -> Seq<int> {
        Seq::new(4, |i: int| self.0[i] as int)
    }
}

impl Vec4 {
    /// The vector that the model `v` describes, when `v` fits.
    pub open spec fn of(v: Seq<int>) -> Vec4 {
        Vec4([v[0] as i64, v[1] as i64, v[2] as i64, v[3] as i64])
    }

    /// A vector is determined by its view.
    pub proof fn lemma_view_injective(a: Vec4, b: Vec4)
        requires
            a@ == b@,
        ensures
            a == b,
    {
        assert forall|i: int| 0 <= i < 4 implies a.0[i] == b.0[i] by {
            assert(a@[i] == a.0[i] as int);
            assert(b@[i] == b.0[i] as int);
        }
        assert(a.0 =~= b.0);
    }

    /// `of` builds the vector whose view is `v`.
    pub proof fn lemma_of_view(v: Seq<int>)
        requires
            v.len() == 4,
            fits4(v),
        ensures
            Vec4::of(v)@ == v,
    {
        assert(Vec4::of(v)@ =~= v);
    }

    /// The vector with all four components zero.
    pub fn zero() -> (r: Vec4)
        ensures
            r@ == seq![0int, 0int, 0int, 0int],
    {
        let r = Vec4([0, 0, 0, 0]);
        assert(r@ =~= seq![0int, 0int, 0int, 0int]);
        r
    }

    /// Stores `value` as component `i`.
    pub fn set(&mut self, i: usize, value: i64)
        requires
            i < 4,
        ensures
            final(self)@ == old(self)@.update(i as int, value as int),
    {
        self.0[i] = value;
        assert(self@ =~= old(self)@.update(i as int, value as int));
    }

    /// The inner product with `other`.
    pub fn dot(self, other: Vec4) -> (r: i64)
        requires
            fits(dot4(self@, other@)),
        ensures
            r == dot4(self@, other@),
    {
        let p0 = product(self.0[0], other.0[0]);
        let p1 = product(self.0[1], other.0[1]);
        let p2 = product(self.0[2], other.0[2]);
        let p3 = product(self.0[3], other.0[3]);
        (p0 + p1 + p2 + p3) as i64
    }

    /// The square of the length: the inner product of the vector with itself.
    pub fn length_squared(self) -> (r: i64)
        requires
            fits(dot4(self@, self@)),
        ensures
            r == dot4(self@, self@),
            r >= 0,
    {
        proof {
            crate::laws::lemma_dot4_self_nonnegative(self@);
        }
        self.dot(self)
    }
}

impl PartialEq for Vec4 {
    /// Two vectors are equal when their components are.
    fn eq(&self, other: &Vec4) -> (r: bool) {
        let r = self.0[0] == other.0[0] && self.0[1] == other.0[1] && self.0[2] == other.0[2]
            && self.0[3] == other.0[3];
        proof {
            if r {
                assert(self@ =~= other@);
            } else {
                assert(self@[0] != other@[0] || self@[1] != other@[1] || self@[2] != other@[2]
                    || self@[3] != other@[3]);
            }
        }
        r
    }
}

impl vstd::std_specs::cmp::PartialEqSpecImpl for Vec4 {
    open spec fn obeys_eq_spec() -> bool {
        true
    }

    open spec fn eq_spec(&self, other: &Vec4) -> bool {
        self@ == other@
    }
}

impl core::ops::Index<usize> for Vec4 {
    type Output = i64;

    /// Component `i`.
    fn index(&self, i: usize) -> (r: &i64)
        ensures
            *r == self@[i as int],
    {
        &self.0[i]
    }
}

impl vstd::std_specs::core::IndexSpecImpl<usize> for Vec4 {
    open spec fn index_req(&self, i: &usize) -> bool {
        *i < 4
    }
}

impl core::ops::Add for Vec4 {
    type Output = Vec4;

    /// The component-wise sum.
    fn add(self, other: Vec4) -> (r: Vec4)
        ensures
            r@ == vec_add(self@, other@),
    {
        let ghost sum = vec_add(self@, other@);
        let mut result = Vec4::zero();
        for i in 0..4
            invariant
                fits4(sum),
                sum == vec_add(self@, other@),
                forall|k: int| 0 <= k < i ==> result@[k] == sum[k],
        {
            let ghost prev = result;
            result.0[i] = self.0[i] + other.0[i];
            assert forall|k: int| 0 <= k < i + 1 implies result@[k] == sum[k] by {
                if k < i {
                    assert(result@[k] == prev@[k]);
                }
            }
        }
        assert(result@ =~= sum);
        proof {
            Vec4::lemma_of_view(sum);
            Vec4::lemma_view_injective(result, Vec4::of(sum));
        }
        result
    }
}

impl vstd::std_specs::ops::AddSpecImpl for Vec4 {
    open spec fn obeys_add_spec() -> bool {
        true
    }

    open spec fn add_req(self, other: Vec4) -> bool {
        fits4(vec_add(self@, other@))
    }

    open spec fn add_spec(self, other: Vec4) -> Vec4 {
        Vec4::of(vec_add(self@, other@))
    }
}

impl core::ops::Sub for Vec4 {
    type Output = Vec4;

    /// The component-wise difference.
    fn sub(self, other: Vec4) -> (r: Vec4)
        ensures
            r@ == vec_sub(self@, other@),
    {
        let ghost diff = vec_sub(self@, other@);
        let mut result = Vec4::zero();
        for i in 0..4
            invariant
                fits4(diff),
                diff == vec_sub(self@, other@),
                forall|k: int| 0 <= k < i ==> result@[k] == diff[k],
        {
            let ghost prev = result;
            result.0[i] = self.0[i] - other.0[i];
            assert forall|k: int| 0 <= k < i + 1 implies result@[k] == diff[k] by {
                if k < i {
                    assert(result@[k] == prev@[k]);
                }
            }
        }
        assert(result@ =~= diff);
        proof {
            Vec4::lemma_of_view(diff);
            Vec4::lemma_view_injective(result, Vec4::of(diff));
        }
        result
    }
}

impl vstd::std_specs::ops::SubSpecImpl for Vec4 {
    open spec fn obeys_sub_spec() -> bool {
        true
    }

    open spec fn sub_req(self, other: Vec4) -> bool {
        fits4(vec_sub(self@, other@))
    }

    open spec fn sub_spec(self, other: Vec4) -> Vec4 {
        Vec4::of(vec_sub(self@, other@))
    }
}

} // verus!
