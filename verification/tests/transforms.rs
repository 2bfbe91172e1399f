use gl_math::{Mat4, Vec3, Vec4};

#[test]
fn test_math() {
    let scale = Mat4::scale(2, 2, 2);
    let trans = Mat4::translate(1, 2, 3);
    let combined = trans * scale;

    let original = Vec4([3, 3, 3, 1]);
    let expected = Vec4([7, 8, 9, 1]);

    assert_eq!(expected, combined * original);
}

#[test]
fn zero_matrix_has_sixteen_zeros() {
    assert_eq!(Mat4::zero(), Mat4([[0; 4]; 4]));
}

#[test]
fn identity_has_ones_on_the_diagonal() {
    let m = Mat4::identity();
    for col in 0..4 {
        for row in 0..4 {
            assert_eq!(m[col][row], if col == row { 1 } else { 0 });
        }
    }
}

#[test]
fn scale_fills_the_diagonal() {
    assert_eq!(
        Mat4::scale(2, 3, 4),
        Mat4([[2, 0, 0, 0], [0, 3, 0, 0], [0, 0, 4, 0], [0, 0, 0, 1]])
    );
}

#[test]
fn translate_fills_the_last_column() {
    let m = Mat4::translate(5, 6, 7);
    assert_eq!(m, Mat4([[1, 0, 0, 0], [0, 1, 0, 0], [0, 0, 1, 0], [5, 6, 7, 1]]));
    assert_eq!(m[3], [5, 6, 7, 1]);
}

#[test]
fn scale_by_one_is_identity() {
    assert_eq!(Mat4::scale(1, 1, 1), Mat4::identity());
}

#[test]
fn translate_by_zero_is_identity() {
    assert_eq!(Mat4::translate(0, 0, 0), Mat4::identity());
}

fn sample() -> Mat4 {
    Mat4([[1, 2, 3, 4], [5, 6, 7, 8], [9, 10, 11, 12], [13, 14, 15, 16]])
}

#[test]
fn identity_is_neutral_on_both_sides() {
    let m = sample();
    assert_eq!(Mat4::identity() * m, m);
    assert_eq!(m * Mat4::identity(), m);
}

#[test]
fn matrix_product_entry_by_entry() {
    let a = sample();
    let b = Mat4([[1, 0, 2, 0], [0, 1, 0, 3], [-1, 0, 1, 0], [2, -2, 0, 1]]);
    let p = a * b;
    assert_eq!(
        p,
        Mat4([
            [19, 22, 25, 28],
            [44, 48, 52, 56],
            [8, 8, 8, 8],
            [5, 6, 7, 8],
        ])
    );
}

#[test]
fn matrix_product_is_not_commutative() {
    let t = Mat4::translate(1, 2, 3);
    let s = Mat4::scale(2, 2, 2);
    assert_eq!(t * s, Mat4([[2, 0, 0, 0], [0, 2, 0, 0], [0, 0, 2, 0], [1, 2, 3, 1]]));
    assert_eq!(s * t, Mat4([[2, 0, 0, 0], [0, 2, 0, 0], [0, 0, 2, 0], [2, 4, 6, 1]]));
}

#[test]
fn matrix_product_is_associative() {
    let a = sample();
    let b = Mat4([[1, 0, 2, 0], [0, 1, 0, 3], [-1, 0, 1, 0], [2, -2, 0, 1]]);
    let c = Mat4::translate(3, -1, 4) * Mat4::rotate_z(0, 1);
    assert_eq!((a * b) * c, a * (b * c));
}

#[test]
fn matrix_times_vector_row_by_row() {
    let m = sample();
    let v = Vec4([1, -1, 2, 3]);
    assert_eq!(m * v, Vec4([53, 58, 63, 68]));
}

#[test]
fn translation_leaves_directions_alone() {
    let t = Mat4::translate(1, 2, 3);
    assert_eq!(t * Vec4([4, 5, 6, 0]), Vec4([4, 5, 6, 0]));
    assert_eq!(t * Vec4([4, 5, 6, 1]), Vec4([5, 7, 9, 1]));
}

#[test]
fn quarter_turn_about_x_takes_y_to_z() {
    let r = Mat4::rotate_x(0, 1);
    assert_eq!(r, Mat4([[1, 0, 0, 0], [0, 0, 1, 0], [0, -1, 0, 0], [0, 0, 0, 1]]));
    assert_eq!(r * Vec4([0, 1, 0, 1]), Vec4([0, 0, 1, 1]));
    assert_eq!(r * Vec4([0, 0, 1, 1]), Vec4([0, -1, 0, 1]));
    assert_eq!(r * Vec4([1, 0, 0, 1]), Vec4([1, 0, 0, 1]));
}

#[test]
fn quarter_turn_about_y_takes_z_to_x() {
    let r = Mat4::rotate_y(0, 1);
    assert_eq!(r, Mat4([[0, 0, -1, 0], [0, 1, 0, 0], [1, 0, 0, 0], [0, 0, 0, 1]]));
    assert_eq!(r * Vec4([0, 0, 1, 1]), Vec4([1, 0, 0, 1]));
    assert_eq!(r * Vec4([1, 0, 0, 1]), Vec4([0, 0, -1, 1]));
    assert_eq!(r * Vec4([0, 1, 0, 1]), Vec4([0, 1, 0, 1]));
}

#[test]
fn quarter_turn_about_z_takes_x_to_y() {
    let r = Mat4::rotate_z(0, 1);
    assert_eq!(r, Mat4([[0, 1, 0, 0], [-1, 0, 0, 0], [0, 0, 1, 0], [0, 0, 0, 1]]));
    assert_eq!(r * Vec4([1, 0, 0, 1]), Vec4([0, 1, 0, 1]));
    assert_eq!(r * Vec4([0, 1, 0, 1]), Vec4([-1, 0, 0, 1]));
    assert_eq!(r * Vec4([0, 0, 1, 1]), Vec4([0, 0, 1, 1]));
}

#[test]
fn rotation_by_zero_is_identity() {
    assert_eq!(Mat4::rotate_x(1, 0), Mat4::identity());
    assert_eq!(Mat4::rotate_y(1, 0), Mat4::identity());
    assert_eq!(Mat4::rotate_z(1, 0), Mat4::identity());
}

#[test]
fn four_quarter_turns_are_a_full_turn() {
    let r = Mat4::rotate_z(0, 1);
    assert_eq!(r * r * r * r, Mat4::identity());
    assert_eq!(r * r, Mat4::rotate_z(-1, 0));
}

#[test]
fn look_at_down_the_negative_z_axis() {
    let eye = Vec3([0, 0, 5]);
    let m = Mat4::look_at_unnormalized(eye, Vec3([0, 0, 0]), Vec3([0, 1, 0]));
    assert_eq!(
        m,
        Mat4([[5, 0, 0, 0], [0, 25, 0, 0], [0, 0, 5, 0], [0, 0, -25, 1]])
    );
    let moved = m * Vec4([0, 0, 5, 1]);
    assert_eq!(moved[0], 0);
    assert_eq!(moved[1], 0);
    assert_eq!(moved, Vec4([0, 0, 0, 1]));
}

#[test]
fn look_at_from_a_corner() {
    let eye = Vec3([1, 2, 3]);
    let center = Vec3([0, 0, 1]);
    let up = Vec3([0, 1, 0]);
    let m = Mat4::look_at_unnormalized(eye, center, up);
    // depth axis (1, 2, 2), right axis (2, 0, -1), vertical axis (-2, 5, -4)
    assert_eq!(
        m,
        Mat4([[2, -2, 1, 0], [0, 5, 2, 0], [-1, -4, 2, 0], [1, 4, -11, 1]])
    );
    assert_eq!(m * Vec4([1, 2, 3, 1]), Vec4([0, 0, 0, 1]));
    // the centre lies straight ahead, on the negative depth axis
    assert_eq!(m * Vec4([0, 0, 1, 1]), Vec4([0, 0, -9, 1]));
}

#[test]
fn set_replaces_one_entry() {
    let mut m = Mat4::zero();
    m.set(2, 3, -1);
    assert_eq!(m[2][3], -1);
    assert_eq!(m, Mat4([[0, 0, 0, 0], [0, 0, 0, 0], [0, 0, 0, -1], [0, 0, 0, 0]]));
}

#[test]
fn matrices_differ_in_one_entry() {
    let mut m = sample();
    assert!(m == sample());
    m.set(3, 0, 0);
    assert!(m != sample());
}
