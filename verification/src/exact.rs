//! Scalars: which integers a component can hold, and products of two
//! components computed without loss.

use vstd::prelude::*;

verus! {

/// An integer fits when a component can hold it.
#[verifier::inline]
pub open spec fn fits(x: int) -> bool {
    i64::MIN <= x <= i64::MAX
}

/// The smallest product of two components: `i64::MIN * i64::MAX`.
pub open spec fn product_min() -> int {
    -0x3fff_ffff_ffff_ffff_8000_0000_0000_0000
}

/// The largest product of two components: `i64::MIN * i64::MIN`.
pub open spec fn product_max() -> int {
    0x4000_0000_0000_0000_0000_0000_0000_0000
}

/// The product of two components lies between `product_min()` and
/// `product_max()`, so sums of a few of them stay far inside `i128` as soon as
/// the total is known to be small.
pub proof fn lemma_product_bounds(a: i64, b: i64)
    ensures
        product_min() <= a * b <= product_max(),
{
    let lo: int = i64::MIN as int;
    let hi: int = i64::MAX as int;
    let x: int = a as int;
    let y: int = b as int;
    assert(x * y <= lo * lo && x * y >= lo * hi) by (nonlinear_arith)
        requires
            lo <= x <= hi,
            lo <= y <= hi,
            lo < 0,
            hi == -lo - 1,
    ;
    assert(lo * lo == product_max()) by (nonlinear_arith)
        requires
            lo == -0x8000_0000_0000_0000,
    ;
    assert(lo * hi == product_min()) by (nonlinear_arith)
        requires
            lo == -0x8000_0000_0000_0000,
            hi == 0x7fff_ffff_ffff_ffff,
    ;
}

/// The exact product of two components, in a type wide enough for it.
pub(crate) fn product(a: i64, b: i64) -> (p: i128)
    ensures
        p == a * b,
        product_min() <= p <= product_max(),
{
    proof {
        lemma_product_bounds(a, b);
    }
    (a as i128) * (b as i128)
}

} // verus!
