use gl_math::{Vec3, Vec4};

#[test]
fn zero_has_zero_components() {
    assert_eq!(Vec3::zero(), Vec3([0, 0, 0]));
    assert_eq!(Vec4::zero(), Vec4([0, 0, 0, 0]));
}

#[test]
fn dot_sums_the_products() {
    assert_eq!(Vec3([1, 2, 3]).dot(Vec3([4, -5, 6])), 12);
    assert_eq!(Vec4([1, 2, 3, 4]).dot(Vec4([4, -5, 6, 7])), 40);
}

#[test]
fn dot_is_commutative() {
    let a = Vec3([3, -7, 11]);
    let b = Vec3([-2, 5, 13]);
    assert_eq!(a.dot(b), b.dot(a));
    assert_eq!(a.dot(b), 102);
}

#[test]
fn length_squared_is_dot_with_itself() {
    let v = Vec3([2, -3, 6]);
    assert_eq!(v.length_squared(), 49);
    assert_eq!(v.length_squared(), v.dot(v));
    let w = Vec4([1, 2, 2, 4]);
    assert_eq!(w.length_squared(), 25);
    assert_eq!(w.length_squared(), w.dot(w));
}

#[test]
fn length_squared_of_zero_is_zero() {
    assert_eq!(Vec3::zero().length_squared(), 0);
    assert_eq!(Vec4::zero().length_squared(), 0);
}

#[test]
fn add_and_sub_work_component_by_component() {
    let a = Vec3([1, 2, 3]);
    let b = Vec3([10, -20, 30]);
    assert_eq!(a + b, Vec3([11, -18, 33]));
    assert_eq!(a - b, Vec3([-9, 22, -27]));
    let c = Vec4([1, 2, 3, 4]);
    let d = Vec4([10, -20, 30, -40]);
    assert_eq!(c + d, Vec4([11, -18, 33, -36]));
    assert_eq!(c - d, Vec4([-9, 22, -27, 44]));
}

#[test]
fn add_reaches_the_largest_component() {
    let a = Vec3([i64::MAX - 1, i64::MIN + 1, 0]);
    let b = Vec3([1, -1, 0]);
    assert_eq!(a + b, Vec3([i64::MAX, i64::MIN, 0]));
}

#[test]
fn cross_of_the_axes_is_right_handed() {
    let x = Vec3([1, 0, 0]);
    let y = Vec3([0, 1, 0]);
    let z = Vec3([0, 0, 1]);
    assert_eq!(x.cross(y), z);
    assert_eq!(y.cross(z), x);
    assert_eq!(z.cross(x), y);
}

#[test]
fn cross_follows_the_formula() {
    let a = Vec3([2, 3, 4]);
    let b = Vec3([5, 6, 7]);
    assert_eq!(a.cross(b), Vec3([3 * 7 - 4 * 6, 4 * 5 - 2 * 7, 2 * 6 - 3 * 5]));
    assert_eq!(a.cross(b), Vec3([-3, 6, -3]));
}

#[test]
fn cross_is_anticommutative() {
    let a = Vec3([2, 3, 4]);
    let b = Vec3([5, 6, 7]);
    let ab = a.cross(b);
    let ba = b.cross(a);
    for i in 0..3 {
        assert_eq!(ab[i], -ba[i]);
    }
}

#[test]
fn cross_of_parallel_vectors_is_zero() {
    let a = Vec3([2, -3, 4]);
    assert_eq!(a.cross(Vec3([-6, 9, -12])), Vec3::zero());
    assert_eq!(a.cross(a), Vec3::zero());
    assert_eq!(a.cross(Vec3::zero()), Vec3::zero());
}

#[test]
fn cross_is_perpendicular_to_its_operands() {
    let a = Vec3([2, 3, 4]);
    let b = Vec3([5, 6, 7]);
    let c = a.cross(b);
    assert_eq!(c.dot(a), 0);
    assert_eq!(c.dot(b), 0);
}

#[test]
fn cross_of_large_components_is_exact() {
    // each product is near 2^80, and only their difference fits
    let big = 1i64 << 40;
    let a = Vec3([0, big + 1, big]);
    let b = Vec3([0, big, big - 1]);
    assert_eq!(a.cross(b), Vec3([-1, 0, 0]));
}

#[test]
fn dot_of_large_components_is_exact() {
    let big = 1i64 << 40;
    let a = Vec4([big, big, 3, 0]);
    let b = Vec4([big, -big, 5, 1]);
    assert_eq!(a.dot(b), 15);
}

#[test]
fn index_reads_a_component() {
    let v = Vec3([7, 8, 9]);
    assert_eq!(v[0], 7);
    assert_eq!(v[2], 9);
    let w = Vec4([7, 8, 9, 10]);
    assert_eq!(w[3], 10);
}

#[test]
fn set_replaces_one_component() {
    let mut v = Vec3([7, 8, 9]);
    v.set(1, -8);
    assert_eq!(v, Vec3([7, -8, 9]));
    let mut w = Vec4::zero();
    w.set(3, 1);
    assert_eq!(w, Vec4([0, 0, 0, 1]));
}

#[test]
fn copies_are_independent() {
    let a = Vec3([1, 2, 3]);
    let mut b = a;
    b.set(0, 100);
    assert_eq!(a, Vec3([1, 2, 3]));
    assert_eq!(b, Vec3([100, 2, 3]));
}

#[test]
fn vectors_differ_in_one_component() {
    assert!(Vec3([1, 2, 3]) != Vec3([1, 2, 4]));
    assert!(Vec4([1, 2, 3, 4]) != Vec4([0, 2, 3, 4]));
    assert!(Vec4([1, 2, 3, 4]) == Vec4([1, 2, 3, 4]));
}
