use linmath::{Matrix2, Matrix3, Matrix4, Vector2, Vector3, Vector4};

#[test]
fn dims_of_each_type() {
    assert_eq!(Vector2::<f32>::dims(), 2);
    assert_eq!(Vector3::<f32>::dims(), 3);
    assert_eq!(Vector4::<f32>::dims(), 4);
    assert_eq!(Matrix2::<i32>::dims(), 2);
    assert_eq!(Matrix3::<i32>::dims(), 3);
    assert_eq!(Matrix4::<i32>::dims(), 4);
}

#[test]
fn elem_matches_named_fields() {
    let v = Vector4::new(1.0f32, 2.0, 3.0, 4.0);
    assert_eq!(v.elem(0), v.x);
    assert_eq!(v.elem(1), v.y);
    assert_eq!(v.elem(2), v.z);
    assert_eq!(v.elem(3), v.w);
    assert_eq!(v.as_array(), [1.0, 2.0, 3.0, 4.0]);
}

#[test]
fn set_elem_replaces_one_component() {
    let mut v = Vector3::new(1, 2, 3);
    v.set_elem(1, 20);
    assert_eq!(v, Vector3::new(1, 20, 3));
}

#[test]
fn col_and_row_views_agree() {
    let m = Matrix4::from_components_row_major(
        1, 2, 3, 4, 5, 6, 7, 8, 9, 10, 11, 12, 13, 14, 15, 16,
    );
    for r in 0..4 {
        for c in 0..4 {
            assert_eq!(m.col(c).elem(r), m.row(r).elem(c));
            assert_eq!(m.col_elem(c, r), m.row_elem(r, c));
            assert_eq!(*m.row_elem_ref(r, c), m.row(r).elem(c));
        }
    }
    assert_eq!(m.row_elem(1, 2), 7);
    assert_eq!(m.as_arrays()[2], [3, 7, 11, 15]);
}

#[test]
fn from_diagonal_of_each_size() {
    let m2 = Matrix2::from_diagonal(Vector2::new(5, 6));
    assert_eq!(m2, Matrix2::from_components_row_major(5, 0, 0, 6));
    let m4 = Matrix4::from_diagonal(Vector4::new(1.0f32, 2.0, 3.0, 4.0));
    assert_eq!(m4.row(2), Vector4::new(0.0, 0.0, 3.0, 0.0));
    assert_eq!(Matrix4::<f32>::identity(), Matrix4::from_diagonal(Vector4::one()));
}

#[test]
fn componentwise_operations() {
    let a = Vector4::new(1.0f32, -2.0, 3.0, -4.0);
    let b = Vector4::new(2.0f32, 2.0, -3.0, -8.0);
    assert_eq!(a.cw_min(b), Vector4::new(1.0, -2.0, -3.0, -8.0));
    assert_eq!(a.cw_max(b), Vector4::new(2.0, 2.0, 3.0, -4.0));
    assert_eq!(a.cw_abs(), Vector4::new(1.0, 2.0, 3.0, 4.0));
    assert_eq!(a * b, Vector4::new(2.0, -4.0, -9.0, 32.0));
    assert_eq!(b / a, Vector4::new(2.0, -1.0, -1.0, 2.0));
    assert_eq!(-a, Vector4::new(-1.0, 2.0, -3.0, 4.0));
    assert_eq!(a.dot(b), 21.0);
    assert_eq!(Vector2::new(-3i32, 4).cw_abs(), Vector2::new(3, 4));
}

#[test]
fn wdiv_divides_by_w() {
    let v = Vector4::new(2.0f32, 4.0, 6.0, 2.0);
    assert_eq!(v.wdiv(), Vector3::new(1.0, 2.0, 3.0));
}

#[test]
fn matrix_times_vector() {
    let m = Matrix3::from_components_row_major(1, 2, 3, 4, 5, 6, 7, 8, 9);
    assert_eq!(m * Vector3::new(1, 0, -1), Vector3::new(-2, -2, -2));
    let m4 = Matrix4::<f32>::new_translation(1.0, 2.0, 3.0);
    assert_eq!(m4 * Vector4::new(1.0, 1.0, 1.0, 1.0), Vector4::new(2.0, 3.0, 4.0, 1.0));
}

#[test]
fn inverse_of_singular_is_none() {
    let s = Matrix3::from_components_row_major(1.0f32, 2.0, 3.0, 4.0, 5.0, 6.0, 7.0, 8.0, 9.0);
    assert_eq!(s.inverse(), None);
    let s4 = Matrix4::<f64>::zero();
    assert_eq!(s4.inverse(), None);
    assert_eq!(s4.inverse1(), None);
}

#[test]
fn inverse_on_exact_values() {
    let m = Matrix3::from_diagonal(Vector3::new(2.0f64, 4.0, 8.0));
    assert_eq!(m.inverse(), Some(Matrix3::from_diagonal(Vector3::new(0.5, 0.25, 0.125))));
    let m4 = Matrix4::from_diagonal(Vector4::new(2.0f64, 4.0, 8.0, 0.5));
    let expected = Matrix4::from_diagonal(Vector4::new(0.5, 0.25, 0.125, 2.0));
    assert_eq!(m4.inverse(), Some(expected));
    assert_eq!(m4.inverse1(), Some(expected));
    let t = Matrix4::new_translation(1.0f64, -2.0, 4.0);
    assert_eq!(t.inverse1(), Some(Matrix4::new_translation(-1.0, 2.0, -4.0)));
}

#[test]
fn normal_matrix_is_transposed_inverse() {
    let m = Matrix3::from_components_row_major(1.0f64, 2.0, 0.0, 0.0, 1.0, 0.0, 0.0, 0.0, 2.0);
    let n = Matrix3::new_normal_matrix(&m).unwrap();
    assert_eq!(n, Matrix3::from_components_row_major(1.0, 0.0, 0.0, -2.0, 1.0, 0.0, 0.0, 0.0, 0.5));
    let s = Matrix3::<f64>::one();
    assert_eq!(Matrix3::new_normal_matrix(&s), None);
}

#[test]
fn upper_left_block_of_matrix4() {
    let m = Matrix4::from_components_row_major(
        1, 2, 3, 4, 5, 6, 7, 8, 9, 10, 11, 12, 13, 14, 15, 16,
    );
    let b: Matrix3<i32> = Matrix3::from(m);
    assert_eq!(b, Matrix3::from_components_row_major(1, 2, 3, 5, 6, 7, 9, 10, 11));
}

#[test]
fn translation_and_scale() {
    let t = Matrix4::new_translation_from_vector(Vector3::new(1.0f32, 2.0, 3.0));
    assert_eq!(t.col(3), Vector4::new(1.0, 2.0, 3.0, 1.0));
    assert_eq!(t, Matrix4::new_translation(1.0, 2.0, 3.0));
    let s = Matrix4::new_scale_from_vector(Vector3::new(2.0f32, 3.0, 4.0));
    assert_eq!(s, Matrix4::from_diagonal(Vector4::new(2.0, 3.0, 4.0, 1.0)));
    assert_eq!(Matrix4::new_scale_uniform(5.0f32), Matrix4::new_scale(5.0, 5.0, 5.0));
}

#[test]
fn rotations_from_cosine_and_sine() {
    let rz = Matrix4::new_rotation_z_cos_sin(0.0f32, 1.0);
    assert_eq!(rz * Vector4::new(1.0, 0.0, 0.0, 1.0), Vector4::new(0.0, 1.0, 0.0, 1.0));
    let rx = Matrix4::new_rotation_x_cos_sin(0.0f32, 1.0);
    assert_eq!(rx * Vector4::new(0.0, 1.0, 0.0, 1.0), Vector4::new(0.0, 0.0, 1.0, 1.0));
    let ry = Matrix4::new_rotation_y_cos_sin(0.0f32, 1.0);
    assert_eq!(ry * Vector4::new(0.0, 0.0, 1.0, 1.0), Vector4::new(1.0, 0.0, 0.0, 1.0));
    let r = Matrix4::new_rotation_cos_sin(Vector3::new(0.0f32, 0.0, 1.0), 0.0, 1.0);
    assert_eq!(r, rz);
}

#[test]
fn projections_on_exact_values() {
    let o = Matrix4::new_orthographic_from_bounds(-2.0f32, 2.0, -1.0, 1.0, 1.0, 3.0);
    assert_eq!(
        o,
        Matrix4::from_components_row_major(
            0.5, 0.0, 0.0, 0.0, 0.0, 1.0, 0.0, 0.0, 0.0, 0.0, -1.0, -2.0, 0.0, 0.0, 0.0, 1.0,
        )
    );
    let od = Matrix4::new_orthographic_from_dimensions(4.0f32, 2.0, 1.0, 3.0);
    assert_eq!(od, o);
    let p = Matrix4::new_perspective_from_bounds(-1.0f32, 1.0, -1.0, 1.0, 1.0, 3.0);
    assert_eq!(
        p,
        Matrix4::from_components_row_major(
            1.0, 0.0, 0.0, 0.0, 0.0, 1.0, 0.0, 0.0, 0.0, 0.0, -2.0, -3.0, 0.0, 0.0, -1.0, 0.0,
        )
    );
}

#[test]
fn look_at_from_axis_aligned_basis() {
    let eye = Vector3::new(1.0f32, 2.0, 3.0);
    let s = Vector3::new(1.0f32, 0.0, 0.0);
    let u = Vector3::new(0.0f32, 1.0, 0.0);
    let f = Vector3::new(0.0f32, 0.0, -1.0);
    let v = Matrix4::new_look_at_from_basis(eye, s, u, f);
    assert_eq!(v, Matrix4::new_translation(-1.0, -2.0, -3.0));
}

#[test]
fn scalar_on_the_left() {
    assert_eq!(Vector2::scalar_mul(3, Vector2::new(1, 2)), Vector2::new(3, 6));
    assert_eq!(Vector4::scalar_div(12, Vector4::new(1, 2, 3, 4)), Vector4::new(12, 6, 4, 3));
}

#[test]
fn compound_assignment_on_integers() {
    let mut v = Vector3::new(10i32, 20, 30);
    v.div_assign(Vector3::new(2, 4, 5));
    assert_eq!(v, Vector3::new(5, 5, 6));
    v.mul_assign(Vector3::new(2, 3, 4));
    assert_eq!(v, Vector3::new(10, 15, 24));
    v.div_assign_scalar(5);
    assert_eq!(v, Vector3::new(2, 3, 4));
}

#[test]
fn writes_through_mutable_references() {
    let mut v = Vector4::new(1, 2, 3, 4);
    *v.elem_mut(2) = 30;
    assert_eq!(v, Vector4::new(1, 2, 30, 4));
    let mut m = Matrix2::from_components_row_major(1, 2, 3, 4);
    *m.row_elem_mut(0, 1) = 20;
    *m.col_elem_mut(0, 1) = 30;
    assert_eq!(m, Matrix2::from_components_row_major(1, 20, 30, 4));
}
