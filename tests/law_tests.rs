use linmath::{IndexOutOfRange, Matrix2, Matrix3, Matrix4, Vector2, Vector3, Vector4};

#[test]
fn vector_add_zero_is_identity() {
    let v2 = Vector2::new(1.5f32, -2.0);
    let v3 = Vector3::new(1.5f32, -2.0, 7.25);
    let v4 = Vector4::new(3i32, -9, 0, 12);
    assert_eq!(v2 + Vector2::zero(), v2);
    assert_eq!(v3 + Vector3::zero(), v3);
    assert_eq!(v4 + Vector4::zero(), v4);
}

#[test]
fn matrix_mul_identity_is_identity() {
    let m2 = Matrix2::from_components_row_major(1.0f32, 2.0, 3.0, 4.0);
    assert_eq!(m2 * Matrix2::identity(), m2);
    assert_eq!(Matrix2::identity() * m2, m2);
    let m3 = Matrix3::from_components_row_major(2i64, 5, 2, 3, -3, 1, 1, 4, -4);
    assert_eq!(m3 * Matrix3::identity(), m3);
    assert_eq!(Matrix3::identity() * m3, m3);
    let m4 = Matrix4::from_components_row_major(
        1.0f64, -2.0, 3.0, 4.0, -2.0, 3.0, 4.0, 5.0, 3.0, 4.0, 5.0, 6.0, 4.0, 5.0, 6.0, 7.0,
    );
    assert_eq!(m4 * Matrix4::identity(), m4);
    assert_eq!(Matrix4::identity() * m4, m4);
}

#[test]
fn transpose_twice_gives_back() {
    let m3 = Matrix3::from_components_row_major(1, 2, 3, 4, 5, 6, 7, 8, 9);
    assert_eq!(m3.transpose().transpose(), m3);
    assert_ne!(m3.transpose(), m3);
    let m4 = Matrix4::from_components_col_major(
        1i16, 2, 3, 4, 5, 6, 7, 8, 9, 10, 11, 12, 13, 14, 15, 16,
    );
    assert_eq!(m4.transpose().transpose(), m4);
    assert_eq!(m4.transpose().row(0), Vector4::new(1, 2, 3, 4));
}

#[test]
fn cross_is_orthogonal_to_both() {
    let a = Vector3::new(3i64, -7, 2);
    let b = Vector3::new(-5i64, 4, 11);
    let c = a.cross(b);
    assert_eq!(c, Vector3::new(-85, -43, -23));
    assert_eq!(c.dot(a), 0);
    assert_eq!(c.dot(b), 0);
}

#[test]
fn determinant_concrete_cases_on_integers() {
    let m = Matrix3::from_components_row_major(2i32, 5, 2, 3, -3, 1, 1, 4, -4);
    assert_eq!(m.det(), 111);
    let s = Matrix3::from_components_row_major(1i32, 2, 3, 4, 5, 6, 7, 8, 9);
    assert_eq!(s.det(), 0);
    let m4 = Matrix4::from_components_row_major(
        1i64, -2, 3, 4, -2, 3, 4, 5, 3, 4, 5, 6, 4, 5, 6, 7,
    );
    assert_eq!(m4.det(), 16);
}

#[test]
fn matrix_multiply_concrete_case_on_integers() {
    let m = Matrix3::from_components_row_major(1i32, 2, 3, 4, 5, 6, 7, 8, 9);
    let r = Matrix3::from_components_row_major(30i32, 36, 42, 66, 81, 96, 102, 126, 150);
    assert_eq!(m * m, r);
}

#[test]
fn index_at_dimension_is_an_error() {
    let v2 = Vector2::new(1.0f32, 2.0);
    let v3 = Vector3::new(1.0f32, 2.0, 3.0);
    let v4 = Vector4::new(1.0f32, 2.0, 3.0, 4.0);
    assert_eq!(v2.elem_checked(2), Err(IndexOutOfRange { index: 2, len: 2 }));
    assert_eq!(v3.elem_checked(3), Err(IndexOutOfRange { index: 3, len: 3 }));
    assert_eq!(v4.elem_checked(4), Err(IndexOutOfRange { index: 4, len: 4 }));
    assert_eq!(v4.elem_checked(3), Ok(4.0));
    let m2 = Matrix2::<f32>::identity();
    let m3 = Matrix3::<f32>::identity();
    let m4 = Matrix4::<f32>::identity();
    assert_eq!(m2.col_checked(2), Err(IndexOutOfRange { index: 2, len: 2 }));
    assert_eq!(m2.row_checked(2), Err(IndexOutOfRange { index: 2, len: 2 }));
    assert_eq!(m3.col_checked(3), Err(IndexOutOfRange { index: 3, len: 3 }));
    assert_eq!(m3.row_checked(3), Err(IndexOutOfRange { index: 3, len: 3 }));
    assert_eq!(m4.col_checked(4), Err(IndexOutOfRange { index: 4, len: 4 }));
    assert_eq!(m4.row_checked(4), Err(IndexOutOfRange { index: 4, len: 4 }));
    assert_eq!(m4.row_checked(usize::MAX), Err(IndexOutOfRange { index: usize::MAX, len: 4 }));
    assert_eq!(m4.col_checked(3), Ok(Vector4::new(0.0, 0.0, 0.0, 1.0)));
}

#[test]
fn inverse_round_trip_on_unimodular_integers() {
    let m = Matrix3::from_components_row_major(2i64, 1, 0, 1, 1, 0, 0, 0, 1);
    let inv = m.inverse().unwrap();
    assert_eq!(inv, Matrix3::from_components_row_major(1, -1, 0, -1, 2, 0, 0, 0, 1));
    assert_eq!(m * inv, Matrix3::identity());
    assert_eq!(inv * m, Matrix3::identity());
}

#[test]
fn identity_has_determinant_one() {
    assert_eq!(Matrix3::<i64>::identity().det(), 1);
    assert_eq!(Matrix4::<i64>::identity().det(), 1);
    assert_eq!(Matrix4::<f64>::identity().det(), 1.0);
    let d = Matrix3::from_diagonal(Vector3::new(1i64, 2, 3));
    assert_eq!(d, Matrix3::from_components_row_major(1, 0, 0, 0, 2, 0, 0, 0, 3));
}
