use vstd::prelude::*;

verus! {

use crate::matrix::{Matrix2, Matrix3, Matrix4};
use crate::scalar::{spec_zero, units_act_on, Base};
use crate::vector::{Vector2, Vector3, Vector4};

/// Zero and one act as identities on every `i64`.
pub proof fn lemma_units_act_on_i64(e: i64)
    ensures
        units_act_on(e),
        units_act_on(spec_zero::<i64>()),
{
}

/// Adding the zero vector leaves a 2-vector unchanged, wherever zero acts as the
/// identity on its components.
pub proof fn lemma_vector2_add_zero<T: Base>(v: Vector2<T>)
    requires
        units_act_on(v.x),
        units_act_on(v.y),
    ensures
        v.spec_add(Vector2::spec_splat(spec_zero::<T>())) == Some(v),
{
}

/// Adding the zero vector leaves a 3-vector unchanged, wherever zero acts as the
/// identity on its components.
pub proof fn lemma_vector3_add_zero<T: Base>(v: Vector3<T>)
    requires
        units_act_on(v.x),
        units_act_on(v.y),
        units_act_on(v.z),
    ensures
        v.spec_add(Vector3::spec_splat(spec_zero::<T>())) == Some(v),
{
}

/// Adding the zero vector leaves a 4-vector unchanged, wherever zero acts as the
/// identity on its components.
pub proof fn lemma_vector4_add_zero<T: Base>(v: Vector4<T>)
    requires
        units_act_on(v.x),
        units_act_on(v.y),
        units_act_on(v.z),
        units_act_on(v.w),
    ensures
        v.spec_add(Vector4::spec_splat(spec_zero::<T>())) == Some(v),
{
}

/// Multiplying by the identity, on either side, leaves a 2×2 matrix unchanged,
/// wherever zero and one act as identities on its elements and on zero.
pub proof fn lemma_matrix2_mul_identity<T: Base>(m: Matrix2<T>)
    requires
        units_act_on(spec_zero::<T>()),
        units_act_on(m.m00),
        units_act_on(m.m10),
        units_act_on(m.m01),
        units_act_on(m.m11),
    ensures
        m.spec_mul(Matrix2::spec_identity()) == Some(m),
        Matrix2::spec_identity().spec_mul(m) == Some(m),
{
}

/// Transposing a 2×2 matrix twice gives it back.
pub proof fn lemma_matrix2_transpose_involution<T: Base>(m: Matrix2<T>)
    ensures
        m.spec_transpose().spec_transpose() == m,
{
}

/// Multiplying by the identity, on either side, leaves a 3×3 matrix unchanged,
/// wherever zero and one act as identities on its elements and on zero.
pub proof fn lemma_matrix3_mul_identity<T: Base>(m: Matrix3<T>)
    requires
        units_act_on(spec_zero::<T>()),
        units_act_on(m.m00),
        units_act_on(m.m10),
        units_act_on(m.m20),
        units_act_on(m.m01),
        units_act_on(m.m11),
        units_act_on(m.m21),
        units_act_on(m.m02),
        units_act_on(m.m12),
        units_act_on(m.m22),
    ensures
        m.spec_mul(Matrix3::spec_identity()) == Some(m),
        Matrix3::spec_identity().spec_mul(m) == Some(m),
{
}

/// Transposing a 3×3 matrix twice gives it back.
pub proof fn lemma_matrix3_transpose_involution<T: Base>(m: Matrix3<T>)
    ensures
        m.spec_transpose().spec_transpose() == m,
{
}

/// Multiplying by the identity, on either side, leaves a 4×4 matrix unchanged,
/// wherever zero and one act as identities on its elements and on zero.
pub proof fn lemma_matrix4_mul_identity<T: Base>(m: Matrix4<T>)
    requires
        units_act_on(spec_zero::<T>()),
        units_act_on(m.m00),
        units_act_on(m.m10),
        units_act_on(m.m20),
        units_act_on(m.m30),
        units_act_on(m.m01),
        units_act_on(m.m11),
        units_act_on(m.m21),
        units_act_on(m.m31),
        units_act_on(m.m02),
        units_act_on(m.m12),
        units_act_on(m.m22),
        units_act_on(m.m32),
        units_act_on(m.m03),
        units_act_on(m.m13),
        units_act_on(m.m23),
        units_act_on(m.m33),
    ensures
        m.spec_mul(Matrix4::spec_identity()) == Some(m),
        Matrix4::spec_identity().spec_mul(m) == Some(m),
{
}

/// Transposing a 4×4 matrix twice gives it back.
pub proof fn lemma_matrix4_transpose_involution<T: Base>(m: Matrix4<T>)
    ensures
        m.spec_transpose().spec_transpose() == m,
{
}

/// Column and row views of a 2×2 matrix read one store: element `r` of column `c` is
/// element `c` of row `r`.
pub proof fn lemma_matrix2_col_row_agree<T: Base>(m: Matrix2<T>, r: int, c: int)
    requires
        0 <= r < 2,
        0 <= c < 2,
    ensures
        m.spec_col(c)@[r] == m.spec_row(r)@[c],
{
}

/// Column and row views of a 3×3 matrix read one store: element `r` of column `c` is
/// element `c` of row `r`.
pub proof fn lemma_matrix3_col_row_agree<T: Base>(m: Matrix3<T>, r: int, c: int)
    requires
        0 <= r < 3,
        0 <= c < 3,
    ensures
        m.spec_col(c)@[r] == m.spec_row(r)@[c],
{
}

/// Column and row views of a 4×4 matrix read one store: element `r` of column `c` is
/// element `c` of row `r`.
pub proof fn lemma_matrix4_col_row_agree<T: Base>(m: Matrix4<T>, r: int, c: int)
    requires
        0 <= r < 4,
        0 <= c < 4,
    ensures
        m.spec_col(c)@[r] == m.spec_row(r)@[c],
{
}

/// The cross product of two vectors is orthogonal to each of them: both dot products
/// are zero, wherever the integer arithmetic involved does not overflow.
pub proof fn lemma_cross_orthogonal(a: Vector3<i64>, b: Vector3<i64>)
    requires
        a.spec_cross(b) is Some,
        a.spec_cross(b)->0.spec_dot(a) is Some,
        a.spec_cross(b)->0.spec_dot(b) is Some,
    ensures
        a.spec_cross(b)->0.spec_dot(a) == Some(0i64),
        a.spec_cross(b)->0.spec_dot(b) == Some(0i64),
{
    let (ax, ay, az) = (a.x as int, a.y as int, a.z as int);
    let (bx, by, bz) = (b.x as int, b.y as int, b.z as int);
    let c = a.spec_cross(b)->0;
    assert(c.x as int == ay * bz - az * by);
    assert(c.y as int == az * bx - ax * bz);
    assert(c.z as int == ax * by - ay * bx);
    assert((ay * bz - az * by) * ax + (az * bx - ax * bz) * ay + (ax * by - ay * bx) * az == 0)
        by (nonlinear_arith);
    assert((ay * bz - az * by) * bx + (az * bx - ax * bz) * by + (ax * by - ay * bx) * bz == 0)
        by (nonlinear_arith);
}

/// `d` on the diagonal and zero elsewhere, over `i64`.
pub open spec fn scaled_identity3(d: i64) -> Matrix3<i64> {
    Matrix3 { m00: d, m10: 0, m20: 0, m01: 0, m11: d, m21: 0, m02: 0, m12: 0, m22: d }
}

/// The cofactor formula of `Matrix3::inverse` is the adjugate: taken with the factor one in place
/// of one over the determinant, it multiplies `m` into the determinant times the identity,
/// wherever the integer arithmetic involved does not overflow.
pub proof fn lemma_matrix3_inverse_adjugate(m: Matrix3<i64>)
    requires
        m.spec_det() is Some,
        m.spec_inverse_of(Some(1i64)) is Some,
        m.spec_mul(m.spec_inverse_of(Some(1i64))->0) is Some,
    ensures
        m.spec_mul(m.spec_inverse_of(Some(1i64))->0) == Some(scaled_identity3(m.spec_det()->0)),
{
    let m00 = m.m00 as int;
    let m01 = m.m01 as int;
    let m02 = m.m02 as int;
    let m10 = m.m10 as int;
    let m11 = m.m11 as int;
    let m12 = m.m12 as int;
    let m20 = m.m20 as int;
    let m21 = m.m21 as int;
    let m22 = m.m22 as int;
    let adj = m.spec_inverse_of(Some(1i64))->0;
    assert(m20 * m11 * m02 == m02 * m11 * m20) by (nonlinear_arith);
    assert(m21 * m12 * m00 == m00 * m12 * m21) by (nonlinear_arith);
    assert(m22 * m10 * m01 == m01 * m10 * m22) by (nonlinear_arith);
    assert(m.spec_det()->0 as int == m00 * m11 * m22 + m01 * m12 * m20 + m02 * m10 * m21 - m02 * m11 * m20 - m00 * m12 * m21 - m01 * m10 * m22);
    assert(adj.m00 as int == m11 * m22 - m12 * m21);
    assert(adj.m01 as int == m02 * m21 - m01 * m22);
    assert(adj.m02 as int == m01 * m12 - m02 * m11);
    assert(adj.m10 as int == m12 * m20 - m10 * m22);
    assert(adj.m11 as int == m00 * m22 - m02 * m20);
    assert(adj.m12 as int == m02 * m10 - m00 * m12);
    assert(adj.m20 as int == m10 * m21 - m11 * m20);
    assert(adj.m21 as int == m01 * m20 - m00 * m21);
    assert(adj.m22 as int == m00 * m11 - m01 * m10);
    assert(m00 * (m11 * m22 - m12 * m21) == m00 * m11 * m22 - m00 * m12 * m21) by (nonlinear_arith);
    assert(m01 * (m12 * m20 - m10 * m22) == m01 * m12 * m20 - m01 * m10 * m22) by (nonlinear_arith);
    assert(m02 * (m10 * m21 - m11 * m20) == m02 * m10 * m21 - m02 * m11 * m20) by (nonlinear_arith);
    assert((m00 * m11 * m22 - m00 * m12 * m21) + (m01 * m12 * m20 - m01 * m10 * m22) + (m02 * m10 * m21 - m02 * m11 * m20) == m00 * m11 * m22 + m01 * m12 * m20 + m02 * m10 * m21 - m02 * m11 * m20 - m00 * m12 * m21 - m01 * m10 * m22);
    assert(m00 * (m02 * m21 - m01 * m22) == m00 * m02 * m21 - m00 * m01 * m22) by (nonlinear_arith);
    assert(m01 * (m00 * m22 - m02 * m20) == m00 * m01 * m22 - m01 * m02 * m20) by (nonlinear_arith);
    assert(m02 * (m01 * m20 - m00 * m21) == m01 * m02 * m20 - m00 * m02 * m21) by (nonlinear_arith);
    assert((m00 * m02 * m21 - m00 * m01 * m22) + (m00 * m01 * m22 - m01 * m02 * m20) + (m01 * m02 * m20 - m00 * m02 * m21) == 0);
    assert(m00 * (m01 * m12 - m02 * m11) == m00 * m01 * m12 - m00 * m02 * m11) by (nonlinear_arith);
    assert(m01 * (m02 * m10 - m00 * m12) == m01 * m02 * m10 - m00 * m01 * m12) by (nonlinear_arith);
    assert(m02 * (m00 * m11 - m01 * m10) == m00 * m02 * m11 - m01 * m02 * m10) by (nonlinear_arith);
    assert((m00 * m01 * m12 - m00 * m02 * m11) + (m01 * m02 * m10 - m00 * m01 * m12) + (m00 * m02 * m11 - m01 * m02 * m10) == 0);
    assert(m10 * (m11 * m22 - m12 * m21) == m10 * m11 * m22 - m10 * m12 * m21) by (nonlinear_arith);
    assert(m11 * (m12 * m20 - m10 * m22) == m11 * m12 * m20 - m10 * m11 * m22) by (nonlinear_arith);
    assert(m12 * (m10 * m21 - m11 * m20) == m10 * m12 * m21 - m11 * m12 * m20) by (nonlinear_arith);
    assert((m10 * m11 * m22 - m10 * m12 * m21) + (m11 * m12 * m20 - m10 * m11 * m22) + (m10 * m12 * m21 - m11 * m12 * m20) == 0);
    assert(m10 * (m02 * m21 - m01 * m22) == m02 * m10 * m21 - m01 * m10 * m22) by (nonlinear_arith);
    assert(m11 * (m00 * m22 - m02 * m20) == m00 * m11 * m22 - m02 * m11 * m20) by (nonlinear_arith);
    assert(m12 * (m01 * m20 - m00 * m21) == m01 * m12 * m20 - m00 * m12 * m21) by (nonlinear_arith);
    assert((m02 * m10 * m21 - m01 * m10 * m22) + (m00 * m11 * m22 - m02 * m11 * m20) + (m01 * m12 * m20 - m00 * m12 * m21) == m00 * m11 * m22 + m01 * m12 * m20 + m02 * m10 * m21 - m02 * m11 * m20 - m00 * m12 * m21 - m01 * m10 * m22);
    assert(m10 * (m01 * m12 - m02 * m11) == m01 * m10 * m12 - m02 * m10 * m11) by (nonlinear_arith);
    assert(m11 * (m02 * m10 - m00 * m12) == m02 * m10 * m11 - m00 * m11 * m12) by (nonlinear_arith);
    assert(m12 * (m00 * m11 - m01 * m10) == m00 * m11 * m12 - m01 * m10 * m12) by (nonlinear_arith);
    assert((m01 * m10 * m12 - m02 * m10 * m11) + (m02 * m10 * m11 - m00 * m11 * m12) + (m00 * m11 * m12 - m01 * m10 * m12) == 0);
    assert(m20 * (m11 * m22 - m12 * m21) == m11 * m20 * m22 - m12 * m20 * m21) by (nonlinear_arith);
    assert(m21 * (m12 * m20 - m10 * m22) == m12 * m20 * m21 - m10 * m21 * m22) by (nonlinear_arith);
    assert(m22 * (m10 * m21 - m11 * m20) == m10 * m21 * m22 - m11 * m20 * m22) by (nonlinear_arith);
    assert((m11 * m20 * m22 - m12 * m20 * m21) + (m12 * m20 * m21 - m10 * m21 * m22) + (m10 * m21 * m22 - m11 * m20 * m22) == 0);
    assert(m20 * (m02 * m21 - m01 * m22) == m02 * m20 * m21 - m01 * m20 * m22) by (nonlinear_arith);
    assert(m21 * (m00 * m22 - m02 * m20) == m00 * m21 * m22 - m02 * m20 * m21) by (nonlinear_arith);
    assert(m22 * (m01 * m20 - m00 * m21) == m01 * m20 * m22 - m00 * m21 * m22) by (nonlinear_arith);
    assert((m02 * m20 * m21 - m01 * m20 * m22) + (m00 * m21 * m22 - m02 * m20 * m21) + (m01 * m20 * m22 - m00 * m21 * m22) == 0);
    assert(m20 * (m01 * m12 - m02 * m11) == m01 * m12 * m20 - m02 * m11 * m20) by (nonlinear_arith);
    assert(m21 * (m02 * m10 - m00 * m12) == m02 * m10 * m21 - m00 * m12 * m21) by (nonlinear_arith);
    assert(m22 * (m00 * m11 - m01 * m10) == m00 * m11 * m22 - m01 * m10 * m22) by (nonlinear_arith);
    assert((m01 * m12 * m20 - m02 * m11 * m20) + (m02 * m10 * m21 - m00 * m12 * m21) + (m00 * m11 * m22 - m01 * m10 * m22) == m00 * m11 * m22 + m01 * m12 * m20 + m02 * m10 * m21 - m02 * m11 * m20 - m00 * m12 * m21 - m01 * m10 * m22);
}

/// `x` times a sum of three terms less three more, distributed.
proof fn lemma_mul_distributes_3_3(x: int, a: int, b: int, c: int, d: int, e: int, f: int)
    ensures
        x * (a + b + c - d - e - f) == x * a + x * b + x * c - x * d - x * e - x * f,
{
    assert(x * (a + b + c - d - e - f) == x * a + x * b + x * c - x * d - x * e - x * f)
        by (nonlinear_arith);
}


/// `d` on the diagonal and zero elsewhere, over `i64`.
pub open spec fn scaled_identity4(d: i64) -> Matrix4<i64> {
    Matrix4 { m00: d, m10: 0, m20: 0, m30: 0, m01: 0, m11: d, m21: 0, m31: 0, m02: 0, m12: 0, m22: d, m32: 0, m03: 0, m13: 0, m23: 0, m33: d }
}

/// The cofactor formula of `Matrix4::inverse` is the adjugate: taken with the factor one in place
/// of one over the determinant, it multiplies `m` into the determinant times the identity,
/// wherever the integer arithmetic involved does not overflow.
pub proof fn lemma_matrix4_inverse_adjugate(m: Matrix4<i64>)
    requires
        m.spec_det() is Some,
        m.spec_inverse_of(Some(1i64)) is Some,
        m.spec_mul(m.spec_inverse_of(Some(1i64))->0) is Some,
    ensures
        m.spec_mul(m.spec_inverse_of(Some(1i64))->0) == Some(scaled_identity4(m.spec_det()->0)),
{
    let m00 = m.m00 as int;
    let m01 = m.m01 as int;
    let m02 = m.m02 as int;
    let m03 = m.m03 as int;
    let m10 = m.m10 as int;
    let m11 = m.m11 as int;
    let m12 = m.m12 as int;
    let m13 = m.m13 as int;
    let m20 = m.m20 as int;
    let m21 = m.m21 as int;
    let m22 = m.m22 as int;
    let m23 = m.m23 as int;
    let m30 = m.m30 as int;
    let m31 = m.m31 as int;
    let m32 = m.m32 as int;
    let m33 = m.m33 as int;
    let adj = m.spec_inverse_of(Some(1i64))->0;
    assert(m.spec_det()->0 as int == m00 * m11 * m22 * m33 + m00 * m12 * m23 * m31 + m00 * m13 * m21 * m32 + m01 * m10 * m23 * m32 + m01 * m12 * m20 * m33 + m01 * m13 * m22 * m30 + m02 * m10 * m21 * m33 + m02 * m11 * m23 * m30 + m02 * m13 * m20 * m31 + m03 * m10 * m22 * m31 + m03 * m11 * m20 * m32 + m03 * m12 * m21 * m30 - m00 * m11 * m23 * m32 - m00 * m12 * m21 * m33 - m00 * m13 * m22 * m31 - m01 * m10 * m22 * m33 - m01 * m12 * m23 * m30 - m01 * m13 * m20 * m32 - m02 * m10 * m23 * m31 - m02 * m11 * m20 * m33 - m02 * m13 * m21 * m30 - m03 * m10 * m21 * m32 - m03 * m11 * m22 * m30 - m03 * m12 * m20 * m31);
    assert(adj.m00 as int == m11 * m22 * m33 + m12 * m23 * m31 + m13 * m21 * m32 - m11 * m23 * m32 - m12 * m21 * m33 - m13 * m22 * m31);
    assert(adj.m01 as int == m01 * m23 * m32 + m02 * m21 * m33 + m03 * m22 * m31 - m01 * m22 * m33 - m02 * m23 * m31 - m03 * m21 * m32);
    assert(adj.m02 as int == m01 * m12 * m33 + m02 * m13 * m31 + m03 * m11 * m32 - m01 * m13 * m32 - m02 * m11 * m33 - m03 * m12 * m31);
    assert(adj.m03 as int == m01 * m13 * m22 + m02 * m11 * m23 + m03 * m12 * m21 - m01 * m12 * m23 - m02 * m13 * m21 - m03 * m11 * m22);
    assert(adj.m10 as int == m10 * m23 * m32 + m12 * m20 * m33 + m13 * m22 * m30 - m10 * m22 * m33 - m12 * m23 * m30 - m13 * m20 * m32);
    assert(adj.m11 as int == m00 * m22 * m33 + m02 * m23 * m30 + m03 * m20 * m32 - m00 * m23 * m32 - m02 * m20 * m33 - m03 * m22 * m30);
    assert(adj.m12 as int == m00 * m13 * m32 + m02 * m10 * m33 + m03 * m12 * m30 - m00 * m12 * m33 - m02 * m13 * m30 - m03 * m10 * m32);
    assert(adj.m13 as int == m00 * m12 * m23 + m02 * m13 * m20 + m03 * m10 * m22 - m00 * m13 * m22 - m02 * m10 * m23 - m03 * m12 * m20);
    assert(adj.m20 as int == m10 * m21 * m33 + m11 * m23 * m30 + m13 * m20 * m31 - m10 * m23 * m31 - m11 * m20 * m33 - m13 * m21 * m30);
    assert(adj.m21 as int == m00 * m23 * m31 + m01 * m20 * m33 + m03 * m21 * m30 - m00 * m21 * m33 - m01 * m23 * m30 - m03 * m20 * m31);
    assert(adj.m22 as int == m00 * m11 * m33 + m01 * m13 * m30 + m03 * m10 * m31 - m00 * m13 * m31 - m01 * m10 * m33 - m03 * m11 * m30);
    assert(adj.m23 as int == m00 * m13 * m21 + m01 * m10 * m23 + m03 * m11 * m20 - m00 * m11 * m23 - m01 * m13 * m20 - m03 * m10 * m21);
    assert(adj.m30 as int == m10 * m22 * m31 + m11 * m20 * m32 + m12 * m21 * m30 - m10 * m21 * m32 - m11 * m22 * m30 - m12 * m20 * m31);
    assert(adj.m31 as int == m00 * m21 * m32 + m01 * m22 * m30 + m02 * m20 * m31 - m00 * m22 * m31 - m01 * m20 * m32 - m02 * m21 * m30);
    assert(adj.m32 as int == m00 * m12 * m31 + m01 * m10 * m32 + m02 * m11 * m30 - m00 * m11 * m32 - m01 * m12 * m30 - m02 * m10 * m31);
    assert(adj.m33 as int == m00 * m11 * m22 + m01 * m12 * m20 + m02 * m10 * m21 - m00 * m12 * m21 - m01 * m10 * m22 - m02 * m11 * m20);
    lemma_mul_distributes_3_3(m00, m11 * m22 * m33, m12 * m23 * m31, m13 * m21 * m32, m11 * m23 * m32, m12 * m21 * m33, m13 * m22 * m31);
    assert(m00 * (m11 * m22 * m33) == m00 * m11 * m22 * m33) by (nonlinear_arith);
    assert(m00 * (m12 * m23 * m31) == m00 * m12 * m23 * m31) by (nonlinear_arith);
    assert(m00 * (m13 * m21 * m32) == m00 * m13 * m21 * m32) by (nonlinear_arith);
    assert(m00 * (m11 * m23 * m32) == m00 * m11 * m23 * m32) by (nonlinear_arith);
    assert(m00 * (m12 * m21 * m33) == m00 * m12 * m21 * m33) by (nonlinear_arith);
    assert(m00 * (m13 * m22 * m31) == m00 * m13 * m22 * m31) by (nonlinear_arith);
    lemma_mul_distributes_3_3(m01, m10 * m23 * m32, m12 * m20 * m33, m13 * m22 * m30, m10 * m22 * m33, m12 * m23 * m30, m13 * m20 * m32);
    assert(m01 * (m10 * m23 * m32) == m01 * m10 * m23 * m32) by (nonlinear_arith);
    assert(m01 * (m12 * m20 * m33) == m01 * m12 * m20 * m33) by (nonlinear_arith);
    assert(m01 * (m13 * m22 * m30) == m01 * m13 * m22 * m30) by (nonlinear_arith);
    assert(m01 * (m10 * m22 * m33) == m01 * m10 * m22 * m33) by (nonlinear_arith);
    assert(m01 * (m12 * m23 * m30) == m01 * m12 * m23 * m30) by (nonlinear_arith);
    assert(m01 * (m13 * m20 * m32) == m01 * m13 * m20 * m32) by (nonlinear_arith);
    lemma_mul_distributes_3_3(m02, m10 * m21 * m33, m11 * m23 * m30, m13 * m20 * m31, m10 * m23 * m31, m11 * m20 * m33, m13 * m21 * m30);
    assert(m02 * (m10 * m21 * m33) == m02 * m10 * m21 * m33) by (nonlinear_arith);
    assert(m02 * (m11 * m23 * m30) == m02 * m11 * m23 * m30) by (nonlinear_arith);
    assert(m02 * (m13 * m20 * m31) == m02 * m13 * m20 * m31) by (nonlinear_arith);
    assert(m02 * (m10 * m23 * m31) == m02 * m10 * m23 * m31) by (nonlinear_arith);
    assert(m02 * (m11 * m20 * m33) == m02 * m11 * m20 * m33) by (nonlinear_arith);
    assert(m02 * (m13 * m21 * m30) == m02 * m13 * m21 * m30) by (nonlinear_arith);
    lemma_mul_distributes_3_3(m03, m10 * m22 * m31, m11 * m20 * m32, m12 * m21 * m30, m10 * m21 * m32, m11 * m22 * m30, m12 * m20 * m31);
    assert(m03 * (m10 * m22 * m31) == m03 * m10 * m22 * m31) by (nonlinear_arith);
    assert(m03 * (m11 * m20 * m32) == m03 * m11 * m20 * m32) by (nonlinear_arith);
    assert(m03 * (m12 * m21 * m30) == m03 * m12 * m21 * m30) by (nonlinear_arith);
    assert(m03 * (m10 * m21 * m32) == m03 * m10 * m21 * m32) by (nonlinear_arith);
    assert(m03 * (m11 * m22 * m30) == m03 * m11 * m22 * m30) by (nonlinear_arith);
    assert(m03 * (m12 * m20 * m31) == m03 * m12 * m20 * m31) by (nonlinear_arith);
    assert((m00 * m11 * m22 * m33 + m00 * m12 * m23 * m31 + m00 * m13 * m21 * m32 - m00 * m11 * m23 * m32 - m00 * m12 * m21 * m33 - m00 * m13 * m22 * m31) + (m01 * m10 * m23 * m32 + m01 * m12 * m20 * m33 + m01 * m13 * m22 * m30 - m01 * m10 * m22 * m33 - m01 * m12 * m23 * m30 - m01 * m13 * m20 * m32) + (m02 * m10 * m21 * m33 + m02 * m11 * m23 * m30 + m02 * m13 * m20 * m31 - m02 * m10 * m23 * m31 - m02 * m11 * m20 * m33 - m02 * m13 * m21 * m30) + (m03 * m10 * m22 * m31 + m03 * m11 * m20 * m32 + m03 * m12 * m21 * m30 - m03 * m10 * m21 * m32 - m03 * m11 * m22 * m30 - m03 * m12 * m20 * m31) == m00 * m11 * m22 * m33 + m00 * m12 * m23 * m31 + m00 * m13 * m21 * m32 + m01 * m10 * m23 * m32 + m01 * m12 * m20 * m33 + m01 * m13 * m22 * m30 + m02 * m10 * m21 * m33 + m02 * m11 * m23 * m30 + m02 * m13 * m20 * m31 + m03 * m10 * m22 * m31 + m03 * m11 * m20 * m32 + m03 * m12 * m21 * m30 - m00 * m11 * m23 * m32 - m00 * m12 * m21 * m33 - m00 * m13 * m22 * m31 - m01 * m10 * m22 * m33 - m01 * m12 * m23 * m30 - m01 * m13 * m20 * m32 - m02 * m10 * m23 * m31 - m02 * m11 * m20 * m33 - m02 * m13 * m21 * m30 - m03 * m10 * m21 * m32 - m03 * m11 * m22 * m30 - m03 * m12 * m20 * m31);
    lemma_mul_distributes_3_3(m00, m01 * m23 * m32, m02 * m21 * m33, m03 * m22 * m31, m01 * m22 * m33, m02 * m23 * m31, m03 * m21 * m32);
    assert(m00 * (m01 * m23 * m32) == m00 * m01 * m23 * m32) by (nonlinear_arith);
    assert(m00 * (m02 * m21 * m33) == m00 * m02 * m21 * m33) by (nonlinear_arith);
    assert(m00 * (m03 * m22 * m31) == m00 * m03 * m22 * m31) by (nonlinear_arith);
    assert(m00 * (m01 * m22 * m33) == m00 * m01 * m22 * m33) by (nonlinear_arith);
    assert(m00 * (m02 * m23 * m31) == m00 * m02 * m23 * m31) by (nonlinear_arith);
    assert(m00 * (m03 * m21 * m32) == m00 * m03 * m21 * m32) by (nonlinear_arith);
    lemma_mul_distributes_3_3(m01, m00 * m22 * m33, m02 * m23 * m30, m03 * m20 * m32, m00 * m23 * m32, m02 * m20 * m33, m03 * m22 * m30);
    assert(m01 * (m00 * m22 * m33) == m00 * m01 * m22 * m33) by (nonlinear_arith);
    assert(m01 * (m02 * m23 * m30) == m01 * m02 * m23 * m30) by (nonlinear_arith);
    assert(m01 * (m03 * m20 * m32) == m01 * m03 * m20 * m32) by (nonlinear_arith);
    assert(m01 * (m00 * m23 * m32) == m00 * m01 * m23 * m32) by (nonlinear_arith);
    assert(m01 * (m02 * m20 * m33) == m01 * m02 * m20 * m33) by (nonlinear_arith);
    assert(m01 * (m03 * m22 * m30) == m01 * m03 * m22 * m30) by (nonlinear_arith);
    lemma_mul_distributes_3_3(m02, m00 * m23 * m31, m01 * m20 * m33, m03 * m21 * m30, m00 * m21 * m33, m01 * m23 * m30, m03 * m20 * m31);
    assert(m02 * (m00 * m23 * m31) == m00 * m02 * m23 * m31) by (nonlinear_arith);
    assert(m02 * (m01 * m20 * m33) == m01 * m02 * m20 * m33) by (nonlinear_arith);
    assert(m02 * (m03 * m21 * m30) == m02 * m03 * m21 * m30) by (nonlinear_arith);
    assert(m02 * (m00 * m21 * m33) == m00 * m02 * m21 * m33) by (nonlinear_arith);
    assert(m02 * (m01 * m23 * m30) == m01 * m02 * m23 * m30) by (nonlinear_arith);
    assert(m02 * (m03 * m20 * m31) == m02 * m03 * m20 * m31) by (nonlinear_arith);
    lemma_mul_distributes_3_3(m03, m00 * m21 * m32, m01 * m22 * m30, m02 * m20 * m31, m00 * m22 * m31, m01 * m20 * m32, m02 * m21 * m30);
    assert(m03 * (m00 * m21 * m32) == m00 * m03 * m21 * m32) by (nonlinear_arith);
    assert(m03 * (m01 * m22 * m30) == m01 * m03 * m22 * m30) by (nonlinear_arith);
    assert(m03 * (m02 * m20 * m31) == m02 * m03 * m20 * m31) by (nonlinear_arith);
    assert(m03 * (m00 * m22 * m31) == m00 * m03 * m22 * m31) by (nonlinear_arith);
    assert(m03 * (m01 * m20 * m32) == m01 * m03 * m20 * m32) by (nonlinear_arith);
    assert(m03 * (m02 * m21 * m30) == m02 * m03 * m21 * m30) by (nonlinear_arith);
    assert((m00 * m01 * m23 * m32 + m00 * m02 * m21 * m33 + m00 * m03 * m22 * m31 - m00 * m01 * m22 * m33 - m00 * m02 * m23 * m31 - m00 * m03 * m21 * m32) + (m00 * m01 * m22 * m33 + m01 * m02 * m23 * m30 + m01 * m03 * m20 * m32 - m00 * m01 * m23 * m32 - m01 * m02 * m20 * m33 - m01 * m03 * m22 * m30) + (m00 * m02 * m23 * m31 + m01 * m02 * m20 * m33 + m02 * m03 * m21 * m30 - m00 * m02 * m21 * m33 - m01 * m02 * m23 * m30 - m02 * m03 * m20 * m31) + (m00 * m03 * m21 * m32 + m01 * m03 * m22 * m30 + m02 * m03 * m20 * m31 - m00 * m03 * m22 * m31 - m01 * m03 * m20 * m32 - m02 * m03 * m21 * m30) == 0);
    lemma_mul_distributes_3_3(m00, m01 * m12 * m33, m02 * m13 * m31, m03 * m11 * m32, m01 * m13 * m32, m02 * m11 * m33, m03 * m12 * m31);
    assert(m00 * (m01 * m12 * m33) == m00 * m01 * m12 * m33) by (nonlinear_arith);
    assert(m00 * (m02 * m13 * m31) == m00 * m02 * m13 * m31) by (nonlinear_arith);
    assert(m00 * (m03 * m11 * m32) == m00 * m03 * m11 * m32) by (nonlinear_arith);
    assert(m00 * (m01 * m13 * m32) == m00 * m01 * m13 * m32) by (nonlinear_arith);
    assert(m00 * (m02 * m11 * m33) == m00 * m02 * m11 * m33) by (nonlinear_arith);
    assert(m00 * (m03 * m12 * m31) == m00 * m03 * m12 * m31) by (nonlinear_arith);
    lemma_mul_distributes_3_3(m01, m00 * m13 * m32, m02 * m10 * m33, m03 * m12 * m30, m00 * m12 * m33, m02 * m13 * m30, m03 * m10 * m32);
    assert(m01 * (m00 * m13 * m32) == m00 * m01 * m13 * m32) by (nonlinear_arith);
    assert(m01 * (m02 * m10 * m33) == m01 * m02 * m10 * m33) by (nonlinear_arith);
    assert(m01 * (m03 * m12 * m30) == m01 * m03 * m12 * m30) by (nonlinear_arith);
    assert(m01 * (m00 * m12 * m33) == m00 * m01 * m12 * m33) by (nonlinear_arith);
    assert(m01 * (m02 * m13 * m30) == m01 * m02 * m13 * m30) by (nonlinear_arith);
    assert(m01 * (m03 * m10 * m32) == m01 * m03 * m10 * m32) by (nonlinear_arith);
    lemma_mul_distributes_3_3(m02, m00 * m11 * m33, m01 * m13 * m30, m03 * m10 * m31, m00 * m13 * m31, m01 * m10 * m33, m03 * m11 * m30);
    assert(m02 * (m00 * m11 * m33) == m00 * m02 * m11 * m33) by (nonlinear_arith);
    assert(m02 * (m01 * m13 * m30) == m01 * m02 * m13 * m30) by (nonlinear_arith);
    assert(m02 * (m03 * m10 * m31) == m02 * m03 * m10 * m31) by (nonlinear_arith);
    assert(m02 * (m00 * m13 * m31) == m00 * m02 * m13 * m31) by (nonlinear_arith);
    assert(m02 * (m01 * m10 * m33) == m01 * m02 * m10 * m33) by (nonlinear_arith);
    assert(m02 * (m03 * m11 * m30) == m02 * m03 * m11 * m30) by (nonlinear_arith);
    lemma_mul_distributes_3_3(m03, m00 * m12 * m31, m01 * m10 * m32, m02 * m11 * m30, m00 * m11 * m32, m01 * m12 * m30, m02 * m10 * m31);
    assert(m03 * (m00 * m12 * m31) == m00 * m03 * m12 * m31) by (nonlinear_arith);
    assert(m03 * (m01 * m10 * m32) == m01 * m03 * m10 * m32) by (nonlinear_arith);
    assert(m03 * (m02 * m11 * m30) == m02 * m03 * m11 * m30) by (nonlinear_arith);
    assert(m03 * (m00 * m11 * m32) == m00 * m03 * m11 * m32) by (nonlinear_arith);
    assert(m03 * (m01 * m12 * m30) == m01 * m03 * m12 * m30) by (nonlinear_arith);
    assert(m03 * (m02 * m10 * m31) == m02 * m03 * m10 * m31) by (nonlinear_arith);
    assert((m00 * m01 * m12 * m33 + m00 * m02 * m13 * m31 + m00 * m03 * m11 * m32 - m00 * m01 * m13 * m32 - m00 * m02 * m11 * m33 - m00 * m03 * m12 * m31) + (m00 * m01 * m13 * m32 + m01 * m02 * m10 * m33 + m01 * m03 * m12 * m30 - m00 * m01 * m12 * m33 - m01 * m02 * m13 * m30 - m01 * m03 * m10 * m32) + (m00 * m02 * m11 * m33 + m01 * m02 * m13 * m30 + m02 * m03 * m10 * m31 - m00 * m02 * m13 * m31 - m01 * m02 * m10 * m33 - m02 * m03 * m11 * m30) + (m00 * m03 * m12 * m31 + m01 * m03 * m10 * m32 + m02 * m03 * m11 * m30 - m00 * m03 * m11 * m32 - m01 * m03 * m12 * m30 - m02 * m03 * m10 * m31) == 0);
    lemma_mul_distributes_3_3(m00, m01 * m13 * m22, m02 * m11 * m23, m03 * m12 * m21, m01 * m12 * m23, m02 * m13 * m21, m03 * m11 * m22);
    assert(m00 * (m01 * m13 * m22) == m00 * m01 * m13 * m22) by (nonlinear_arith);
    assert(m00 * (m02 * m11 * m23) == m00 * m02 * m11 * m23) by (nonlinear_arith);
    assert(m00 * (m03 * m12 * m21) == m00 * m03 * m12 * m21) by (nonlinear_arith);
    assert(m00 * (m01 * m12 * m23) == m00 * m01 * m12 * m23) by (nonlinear_arith);
    assert(m00 * (m02 * m13 * m21) == m00 * m02 * m13 * m21) by (nonlinear_arith);
    assert(m00 * (m03 * m11 * m22) == m00 * m03 * m11 * m22) by (nonlinear_arith);
    lemma_mul_distributes_3_3(m01, m00 * m12 * m23, m02 * m13 * m20, m03 * m10 * m22, m00 * m13 * m22, m02 * m10 * m23, m03 * m12 * m20);
    assert(m01 * (m00 * m12 * m23) == m00 * m01 * m12 * m23) by (nonlinear_arith);
    assert(m01 * (m02 * m13 * m20) == m01 * m02 * m13 * m20) by (nonlinear_arith);
    assert(m01 * (m03 * m10 * m22) == m01 * m03 * m10 * m22) by (nonlinear_arith);
    assert(m01 * (m00 * m13 * m22) == m00 * m01 * m13 * m22) by (nonlinear_arith);
    assert(m01 * (m02 * m10 * m23) == m01 * m02 * m10 * m23) by (nonlinear_arith);
    assert(m01 * (m03 * m12 * m20) == m01 * m03 * m12 * m20) by (nonlinear_arith);
    lemma_mul_distributes_3_3(m02, m00 * m13 * m21, m01 * m10 * m23, m03 * m11 * m20, m00 * m11 * m23, m01 * m13 * m20, m03 * m10 * m21);
    assert(m02 * (m00 * m13 * m21) == m00 * m02 * m13 * m21) by (nonlinear_arith);
    assert(m02 * (m01 * m10 * m23) == m01 * m02 * m10 * m23) by (nonlinear_arith);
    assert(m02 * (m03 * m11 * m20) == m02 * m03 * m11 * m20) by (nonlinear_arith);
    assert(m02 * (m00 * m11 * m23) == m00 * m02 * m11 * m23) by (nonlinear_arith);
    assert(m02 * (m01 * m13 * m20) == m01 * m02 * m13 * m20) by (nonlinear_arith);
    assert(m02 * (m03 * m10 * m21) == m02 * m03 * m10 * m21) by (nonlinear_arith);
    lemma_mul_distributes_3_3(m03, m00 * m11 * m22, m01 * m12 * m20, m02 * m10 * m21, m00 * m12 * m21, m01 * m10 * m22, m02 * m11 * m20);
    assert(m03 * (m00 * m11 * m22) == m00 * m03 * m11 * m22) by (nonlinear_arith);
    assert(m03 * (m01 * m12 * m20) == m01 * m03 * m12 * m20) by (nonlinear_arith);
    assert(m03 * (m02 * m10 * m21) == m02 * m03 * m10 * m21) by (nonlinear_arith);
    assert(m03 * (m00 * m12 * m21) == m00 * m03 * m12 * m21) by (nonlinear_arith);
    assert(m03 * (m01 * m10 * m22) == m01 * m03 * m10 * m22) by (nonlinear_arith);
    assert(m03 * (m02 * m11 * m20) == m02 * m03 * m11 * m20) by (nonlinear_arith);
    assert((m00 * m01 * m13 * m22 + m00 * m02 * m11 * m23 + m00 * m03 * m12 * m21 - m00 * m01 * m12 * m23 - m00 * m02 * m13 * m21 - m00 * m03 * m11 * m22) + (m00 * m01 * m12 * m23 + m01 * m02 * m13 * m20 + m01 * m03 * m10 * m22 - m00 * m01 * m13 * m22 - m01 * m02 * m10 * m23 - m01 * m03 * m12 * m20) + (m00 * m02 * m13 * m21 + m01 * m02 * m10 * m23 + m02 * m03 * m11 * m20 - m00 * m02 * m11 * m23 - m01 * m02 * m13 * m20 - m02 * m03 * m10 * m21) + (m00 * m03 * m11 * m22 + m01 * m03 * m12 * m20 + m02 * m03 * m10 * m21 - m00 * m03 * m12 * m21 - m01 * m03 * m10 * m22 - m02 * m03 * m11 * m20) == 0);
    lemma_mul_distributes_3_3(m10, m11 * m22 * m33, m12 * m23 * m31, m13 * m21 * m32, m11 * m23 * m32, m12 * m21 * m33, m13 * m22 * m31);
    assert(m10 * (m11 * m22 * m33) == m10 * m11 * m22 * m33) by (nonlinear_arith);
    assert(m10 * (m12 * m23 * m31) == m10 * m12 * m23 * m31) by (nonlinear_arith);
    assert(m10 * (m13 * m21 * m32) == m10 * m13 * m21 * m32) by (nonlinear_arith);
    assert(m10 * (m11 * m23 * m32) == m10 * m11 * m23 * m32) by (nonlinear_arith);
    assert(m10 * (m12 * m21 * m33) == m10 * m12 * m21 * m33) by (nonlinear_arith);
    assert(m10 * (m13 * m22 * m31) == m10 * m13 * m22 * m31) by (nonlinear_arith);
    lemma_mul_distributes_3_3(m11, m10 * m23 * m32, m12 * m20 * m33, m13 * m22 * m30, m10 * m22 * m33, m12 * m23 * m30, m13 * m20 * m32);
    assert(m11 * (m10 * m23 * m32) == m10 * m11 * m23 * m32) by (nonlinear_arith);
    assert(m11 * (m12 * m20 * m33) == m11 * m12 * m20 * m33) by (nonlinear_arith);
    assert(m11 * (m13 * m22 * m30) == m11 * m13 * m22 * m30) by (nonlinear_arith);
    assert(m11 * (m10 * m22 * m33) == m10 * m11 * m22 * m33) by (nonlinear_arith);
    assert(m11 * (m12 * m23 * m30) == m11 * m12 * m23 * m30) by (nonlinear_arith);
    assert(m11 * (m13 * m20 * m32) == m11 * m13 * m20 * m32) by (nonlinear_arith);
    lemma_mul_distributes_3_3(m12, m10 * m21 * m33, m11 * m23 * m30, m13 * m20 * m31, m10 * m23 * m31, m11 * m20 * m33, m13 * m21 * m30);
    assert(m12 * (m10 * m21 * m33) == m10 * m12 * m21 * m33) by (nonlinear_arith);
    assert(m12 * (m11 * m23 * m30) == m11 * m12 * m23 * m30) by (nonlinear_arith);
    assert(m12 * (m13 * m20 * m31) == m12 * m13 * m20 * m31) by (nonlinear_arith);
    assert(m12 * (m10 * m23 * m31) == m10 * m12 * m23 * m31) by (nonlinear_arith);
    assert(m12 * (m11 * m20 * m33) == m11 * m12 * m20 * m33) by (nonlinear_arith);
    assert(m12 * (m13 * m21 * m30) == m12 * m13 * m21 * m30) by (nonlinear_arith);
    lemma_mul_distributes_3_3(m13, m10 * m22 * m31, m11 * m20 * m32, m12 * m21 * m30, m10 * m21 * m32, m11 * m22 * m30, m12 * m20 * m31);
    assert(m13 * (m10 * m22 * m31) == m10 * m13 * m22 * m31) by (nonlinear_arith);
    assert(m13 * (m11 * m20 * m32) == m11 * m13 * m20 * m32) by (nonlinear_arith);
    assert(m13 * (m12 * m21 * m30) == m12 * m13 * m21 * m30) by (nonlinear_arith);
    assert(m13 * (m10 * m21 * m32) == m10 * m13 * m21 * m32) by (nonlinear_arith);
    assert(m13 * (m11 * m22 * m30) == m11 * m13 * m22 * m30) by (nonlinear_arith);
    assert(m13 * (m12 * m20 * m31) == m12 * m13 * m20 * m31) by (nonlinear_arith);
    assert((m10 * m11 * m22 * m33 + m10 * m12 * m23 * m31 + m10 * m13 * m21 * m32 - m10 * m11 * m23 * m32 - m10 * m12 * m21 * m33 - m10 * m13 * m22 * m31) + (m10 * m11 * m23 * m32 + m11 * m12 * m20 * m33 + m11 * m13 * m22 * m30 - m10 * m11 * m22 * m33 - m11 * m12 * m23 * m30 - m11 * m13 * m20 * m32) + (m10 * m12 * m21 * m33 + m11 * m12 * m23 * m30 + m12 * m13 * m20 * m31 - m10 * m12 * m23 * m31 - m11 * m12 * m20 * m33 - m12 * m13 * m21 * m30) + (m10 * m13 * m22 * m31 + m11 * m13 * m20 * m32 + m12 * m13 * m21 * m30 - m10 * m13 * m21 * m32 - m11 * m13 * m22 * m30 - m12 * m13 * m20 * m31) == 0);
    lemma_mul_distributes_3_3(m10, m01 * m23 * m32, m02 * m21 * m33, m03 * m22 * m31, m01 * m22 * m33, m02 * m23 * m31, m03 * m21 * m32);
    assert(m10 * (m01 * m23 * m32) == m01 * m10 * m23 * m32) by (nonlinear_arith);
    assert(m10 * (m02 * m21 * m33) == m02 * m10 * m21 * m33) by (nonlinear_arith);
    assert(m10 * (m03 * m22 * m31) == m03 * m10 * m22 * m31) by (nonlinear_arith);
    assert(m10 * (m01 * m22 * m33) == m01 * m10 * m22 * m33) by (nonlinear_arith);
    assert(m10 * (m02 * m23 * m31) == m02 * m10 * m23 * m31) by (nonlinear_arith);
    assert(m10 * (m03 * m21 * m32) == m03 * m10 * m21 * m32) by (nonlinear_arith);
    lemma_mul_distributes_3_3(m11, m00 * m22 * m33, m02 * m23 * m30, m03 * m20 * m32, m00 * m23 * m32, m02 * m20 * m33, m03 * m22 * m30);
    assert(m11 * (m00 * m22 * m33) == m00 * m11 * m22 * m33) by (nonlinear_arith);
    assert(m11 * (m02 * m23 * m30) == m02 * m11 * m23 * m30) by (nonlinear_arith);
    assert(m11 * (m03 * m20 * m32) == m03 * m11 * m20 * m32) by (nonlinear_arith);
    assert(m11 * (m00 * m23 * m32) == m00 * m11 * m23 * m32) by (nonlinear_arith);
    assert(m11 * (m02 * m20 * m33) == m02 * m11 * m20 * m33) by (nonlinear_arith);
    assert(m11 * (m03 * m22 * m30) == m03 * m11 * m22 * m30) by (nonlinear_arith);
    lemma_mul_distributes_3_3(m12, m00 * m23 * m31, m01 * m20 * m33, m03 * m21 * m30, m00 * m21 * m33, m01 * m23 * m30, m03 * m20 * m31);
    assert(m12 * (m00 * m23 * m31) == m00 * m12 * m23 * m31) by (nonlinear_arith);
    assert(m12 * (m01 * m20 * m33) == m01 * m12 * m20 * m33) by (nonlinear_arith);
    assert(m12 * (m03 * m21 * m30) == m03 * m12 * m21 * m30) by (nonlinear_arith);
    assert(m12 * (m00 * m21 * m33) == m00 * m12 * m21 * m33) by (nonlinear_arith);
    assert(m12 * (m01 * m23 * m30) == m01 * m12 * m23 * m30) by (nonlinear_arith);
    assert(m12 * (m03 * m20 * m31) == m03 * m12 * m20 * m31) by (nonlinear_arith);
    lemma_mul_distributes_3_3(m13, m00 * m21 * m32, m01 * m22 * m30, m02 * m20 * m31, m00 * m22 * m31, m01 * m20 * m32, m02 * m21 * m30);
    assert(m13 * (m00 * m21 * m32) == m00 * m13 * m21 * m32) by (nonlinear_arith);
    assert(m13 * (m01 * m22 * m30) == m01 * m13 * m22 * m30) by (nonlinear_arith);
    assert(m13 * (m02 * m20 * m31) == m02 * m13 * m20 * m31) by (nonlinear_arith);
    assert(m13 * (m00 * m22 * m31) == m00 * m13 * m22 * m31) by (nonlinear_arith);
    assert(m13 * (m01 * m20 * m32) == m01 * m13 * m20 * m32) by (nonlinear_arith);
    assert(m13 * (m02 * m21 * m30) == m02 * m13 * m21 * m30) by (nonlinear_arith);
    assert((m01 * m10 * m23 * m32 + m02 * m10 * m21 * m33 + m03 * m10 * m22 * m31 - m01 * m10 * m22 * m33 - m02 * m10 * m23 * m31 - m03 * m10 * m21 * m32) + (m00 * m11 * m22 * m33 + m02 * m11 * m23 * m30 + m03 * m11 * m20 * m32 - m00 * m11 * m23 * m32 - m02 * m11 * m20 * m33 - m03 * m11 * m22 * m30) + (m00 * m12 * m23 * m31 + m01 * m12 * m20 * m33 + m03 * m12 * m21 * m30 - m00 * m12 * m21 * m33 - m01 * m12 * m23 * m30 - m03 * m12 * m20 * m31) + (m00 * m13 * m21 * m32 + m01 * m13 * m22 * m30 + m02 * m13 * m20 * m31 - m00 * m13 * m22 * m31 - m01 * m13 * m20 * m32 - m02 * m13 * m21 * m30) == m00 * m11 * m22 * m33 + m00 * m12 * m23 * m31 + m00 * m13 * m21 * m32 + m01 * m10 * m23 * m32 + m01 * m12 * m20 * m33 + m01 * m13 * m22 * m30 + m02 * m10 * m21 * m33 + m02 * m11 * m23 * m30 + m02 * m13 * m20 * m31 + m03 * m10 * m22 * m31 + m03 * m11 * m20 * m32 + m03 * m12 * m21 * m30 - m00 * m11 * m23 * m32 - m00 * m12 * m21 * m33 - m00 * m13 * m22 * m31 - m01 * m10 * m22 * m33 - m01 * m12 * m23 * m30 - m01 * m13 * m20 * m32 - m02 * m10 * m23 * m31 - m02 * m11 * m20 * m33 - m02 * m13 * m21 * m30 - m03 * m10 * m21 * m32 - m03 * m11 * m22 * m30 - m03 * m12 * m20 * m31);
    lemma_mul_distributes_3_3(m10, m01 * m12 * m33, m02 * m13 * m31, m03 * m11 * m32, m01 * m13 * m32, m02 * m11 * m33, m03 * m12 * m31);
    assert(m10 * (m01 * m12 * m33) == m01 * m10 * m12 * m33) by (nonlinear_arith);
    assert(m10 * (m02 * m13 * m31) == m02 * m10 * m13 * m31) by (nonlinear_arith);
    assert(m10 * (m03 * m11 * m32) == m03 * m10 * m11 * m32) by (nonlinear_arith);
    assert(m10 * (m01 * m13 * m32) == m01 * m10 * m13 * m32) by (nonlinear_arith);
    assert(m10 * (m02 * m11 * m33) == m02 * m10 * m11 * m33) by (nonlinear_arith);
    assert(m10 * (m03 * m12 * m31) == m03 * m10 * m12 * m31) by (nonlinear_arith);
    lemma_mul_distributes_3_3(m11, m00 * m13 * m32, m02 * m10 * m33, m03 * m12 * m30, m00 * m12 * m33, m02 * m13 * m30, m03 * m10 * m32);
    assert(m11 * (m00 * m13 * m32) == m00 * m11 * m13 * m32) by (nonlinear_arith);
    assert(m11 * (m02 * m10 * m33) == m02 * m10 * m11 * m33) by (nonlinear_arith);
    assert(m11 * (m03 * m12 * m30) == m03 * m11 * m12 * m30) by (nonlinear_arith);
    assert(m11 * (m00 * m12 * m33) == m00 * m11 * m12 * m33) by (nonlinear_arith);
    assert(m11 * (m02 * m13 * m30) == m02 * m11 * m13 * m30) by (nonlinear_arith);
    assert(m11 * (m03 * m10 * m32) == m03 * m10 * m11 * m32) by (nonlinear_arith);
    lemma_mul_distributes_3_3(m12, m00 * m11 * m33, m01 * m13 * m30, m03 * m10 * m31, m00 * m13 * m31, m01 * m10 * m33, m03 * m11 * m30);
    assert(m12 * (m00 * m11 * m33) == m00 * m11 * m12 * m33) by (nonlinear_arith);
    assert(m12 * (m01 * m13 * m30) == m01 * m12 * m13 * m30) by (nonlinear_arith);
    assert(m12 * (m03 * m10 * m31) == m03 * m10 * m12 * m31) by (nonlinear_arith);
    assert(m12 * (m00 * m13 * m31) == m00 * m12 * m13 * m31) by (nonlinear_arith);
    assert(m12 * (m01 * m10 * m33) == m01 * m10 * m12 * m33) by (nonlinear_arith);
    assert(m12 * (m03 * m11 * m30) == m03 * m11 * m12 * m30) by (nonlinear_arith);
    lemma_mul_distributes_3_3(m13, m00 * m12 * m31, m01 * m10 * m32, m02 * m11 * m30, m00 * m11 * m32, m01 * m12 * m30, m02 * m10 * m31);
    assert(m13 * (m00 * m12 * m31) == m00 * m12 * m13 * m31) by (nonlinear_arith);
    assert(m13 * (m01 * m10 * m32) == m01 * m10 * m13 * m32) by (nonlinear_arith);
    assert(m13 * (m02 * m11 * m30) == m02 * m11 * m13 * m30) by (nonlinear_arith);
    assert(m13 * (m00 * m11 * m32) == m00 * m11 * m13 * m32) by (nonlinear_arith);
    assert(m13 * (m01 * m12 * m30) == m01 * m12 * m13 * m30) by (nonlinear_arith);
    assert(m13 * (m02 * m10 * m31) == m02 * m10 * m13 * m31) by (nonlinear_arith);
    assert((m01 * m10 * m12 * m33 + m02 * m10 * m13 * m31 + m03 * m10 * m11 * m32 - m01 * m10 * m13 * m32 - m02 * m10 * m11 * m33 - m03 * m10 * m12 * m31) + (m00 * m11 * m13 * m32 + m02 * m10 * m11 * m33 + m03 * m11 * m12 * m30 - m00 * m11 * m12 * m33 - m02 * m11 * m13 * m30 - m03 * m10 * m11 * m32) + (m00 * m11 * m12 * m33 + m01 * m12 * m13 * m30 + m03 * m10 * m12 * m31 - m00 * m12 * m13 * m31 - m01 * m10 * m12 * m33 - m03 * m11 * m12 * m30) + (m00 * m12 * m13 * m31 + m01 * m10 * m13 * m32 + m02 * m11 * m13 * m30 - m00 * m11 * m13 * m32 - m01 * m12 * m13 * m30 - m02 * m10 * m13 * m31) == 0);
    lemma_mul_distributes_3_3(m10, m01 * m13 * m22, m02 * m11 * m23, m03 * m12 * m21, m01 * m12 * m23, m02 * m13 * m21, m03 * m11 * m22);
    assert(m10 * (m01 * m13 * m22) == m01 * m10 * m13 * m22) by (nonlinear_arith);
    assert(m10 * (m02 * m11 * m23) == m02 * m10 * m11 * m23) by (nonlinear_arith);
    assert(m10 * (m03 * m12 * m21) == m03 * m10 * m12 * m21) by (nonlinear_arith);
    assert(m10 * (m01 * m12 * m23) == m01 * m10 * m12 * m23) by (nonlinear_arith);
    assert(m10 * (m02 * m13 * m21) == m02 * m10 * m13 * m21) by (nonlinear_arith);
    assert(m10 * (m03 * m11 * m22) == m03 * m10 * m11 * m22) by (nonlinear_arith);
    lemma_mul_distributes_3_3(m11, m00 * m12 * m23, m02 * m13 * m20, m03 * m10 * m22, m00 * m13 * m22, m02 * m10 * m23, m03 * m12 * m20);
    assert(m11 * (m00 * m12 * m23) == m00 * m11 * m12 * m23) by (nonlinear_arith);
    assert(m11 * (m02 * m13 * m20) == m02 * m11 * m13 * m20) by (nonlinear_arith);
    assert(m11 * (m03 * m10 * m22) == m03 * m10 * m11 * m22) by (nonlinear_arith);
    assert(m11 * (m00 * m13 * m22) == m00 * m11 * m13 * m22) by (nonlinear_arith);
    assert(m11 * (m02 * m10 * m23) == m02 * m10 * m11 * m23) by (nonlinear_arith);
    assert(m11 * (m03 * m12 * m20) == m03 * m11 * m12 * m20) by (nonlinear_arith);
    lemma_mul_distributes_3_3(m12, m00 * m13 * m21, m01 * m10 * m23, m03 * m11 * m20, m00 * m11 * m23, m01 * m13 * m20, m03 * m10 * m21);
    assert(m12 * (m00 * m13 * m21) == m00 * m12 * m13 * m21) by (nonlinear_arith);
    assert(m12 * (m01 * m10 * m23) == m01 * m10 * m12 * m23) by (nonlinear_arith);
    assert(m12 * (m03 * m11 * m20) == m03 * m11 * m12 * m20) by (nonlinear_arith);
    assert(m12 * (m00 * m11 * m23) == m00 * m11 * m12 * m23) by (nonlinear_arith);
    assert(m12 * (m01 * m13 * m20) == m01 * m12 * m13 * m20) by (nonlinear_arith);
    assert(m12 * (m03 * m10 * m21) == m03 * m10 * m12 * m21) by (nonlinear_arith);
    lemma_mul_distributes_3_3(m13, m00 * m11 * m22, m01 * m12 * m20, m02 * m10 * m21, m00 * m12 * m21, m01 * m10 * m22, m02 * m11 * m20);
    assert(m13 * (m00 * m11 * m22) == m00 * m11 * m13 * m22) by (nonlinear_arith);
    assert(m13 * (m01 * m12 * m20) == m01 * m12 * m13 * m20) by (nonlinear_arith);
    assert(m13 * (m02 * m10 * m21) == m02 * m10 * m13 * m21) by (nonlinear_arith);
    assert(m13 * (m00 * m12 * m21) == m00 * m12 * m13 * m21) by (nonlinear_arith);
    assert(m13 * (m01 * m10 * m22) == m01 * m10 * m13 * m22) by (nonlinear_arith);
    assert(m13 * (m02 * m11 * m20) == m02 * m11 * m13 * m20) by (nonlinear_arith);
    assert((m01 * m10 * m13 * m22 + m02 * m10 * m11 * m23 + m03 * m10 * m12 * m21 - m01 * m10 * m12 * m23 - m02 * m10 * m13 * m21 - m03 * m10 * m11 * m22) + (m00 * m11 * m12 * m23 + m02 * m11 * m13 * m20 + m03 * m10 * m11 * m22 - m00 * m11 * m13 * m22 - m02 * m10 * m11 * m23 - m03 * m11 * m12 * m20) + (m00 * m12 * m13 * m21 + m01 * m10 * m12 * m23 + m03 * m11 * m12 * m20 - m00 * m11 * m12 * m23 - m01 * m12 * m13 * m20 - m03 * m10 * m12 * m21) + (m00 * m11 * m13 * m22 + m01 * m12 * m13 * m20 + m02 * m10 * m13 * m21 - m00 * m12 * m13 * m21 - m01 * m10 * m13 * m22 - m02 * m11 * m13 * m20) == 0);
    lemma_mul_distributes_3_3(m20, m11 * m22 * m33, m12 * m23 * m31, m13 * m21 * m32, m11 * m23 * m32, m12 * m21 * m33, m13 * m22 * m31);
    assert(m20 * (m11 * m22 * m33) == m11 * m20 * m22 * m33) by (nonlinear_arith);
    assert(m20 * (m12 * m23 * m31) == m12 * m20 * m23 * m31) by (nonlinear_arith);
    assert(m20 * (m13 * m21 * m32) == m13 * m20 * m21 * m32) by (nonlinear_arith);
    assert(m20 * (m11 * m23 * m32) == m11 * m20 * m23 * m32) by (nonlinear_arith);
    assert(m20 * (m12 * m21 * m33) == m12 * m20 * m21 * m33) by (nonlinear_arith);
    assert(m20 * (m13 * m22 * m31) == m13 * m20 * m22 * m31) by (nonlinear_arith);
    lemma_mul_distributes_3_3(m21, m10 * m23 * m32, m12 * m20 * m33, m13 * m22 * m30, m10 * m22 * m33, m12 * m23 * m30, m13 * m20 * m32);
    assert(m21 * (m10 * m23 * m32) == m10 * m21 * m23 * m32) by (nonlinear_arith);
    assert(m21 * (m12 * m20 * m33) == m12 * m20 * m21 * m33) by (nonlinear_arith);
    assert(m21 * (m13 * m22 * m30) == m13 * m21 * m22 * m30) by (nonlinear_arith);
    assert(m21 * (m10 * m22 * m33) == m10 * m21 * m22 * m33) by (nonlinear_arith);
    assert(m21 * (m12 * m23 * m30) == m12 * m21 * m23 * m30) by (nonlinear_arith);
    assert(m21 * (m13 * m20 * m32) == m13 * m20 * m21 * m32) by (nonlinear_arith);
    lemma_mul_distributes_3_3(m22, m10 * m21 * m33, m11 * m23 * m30, m13 * m20 * m31, m10 * m23 * m31, m11 * m20 * m33, m13 * m21 * m30);
    assert(m22 * (m10 * m21 * m33) == m10 * m21 * m22 * m33) by (nonlinear_arith);
    assert(m22 * (m11 * m23 * m30) == m11 * m22 * m23 * m30) by (nonlinear_arith);
    assert(m22 * (m13 * m20 * m31) == m13 * m20 * m22 * m31) by (nonlinear_arith);
    assert(m22 * (m10 * m23 * m31) == m10 * m22 * m23 * m31) by (nonlinear_arith);
    assert(m22 * (m11 * m20 * m33) == m11 * m20 * m22 * m33) by (nonlinear_arith);
    assert(m22 * (m13 * m21 * m30) == m13 * m21 * m22 * m30) by (nonlinear_arith);
    lemma_mul_distributes_3_3(m23, m10 * m22 * m31, m11 * m20 * m32, m12 * m21 * m30, m10 * m21 * m32, m11 * m22 * m30, m12 * m20 * m31);
    assert(m23 * (m10 * m22 * m31) == m10 * m22 * m23 * m31) by (nonlinear_arith);
    assert(m23 * (m11 * m20 * m32) == m11 * m20 * m23 * m32) by (nonlinear_arith);
    assert(m23 * (m12 * m21 * m30) == m12 * m21 * m23 * m30) by (nonlinear_arith);
    assert(m23 * (m10 * m21 * m32) == m10 * m21 * m23 * m32) by (nonlinear_arith);
    assert(m23 * (m11 * m22 * m30) == m11 * m22 * m23 * m30) by (nonlinear_arith);
    assert(m23 * (m12 * m20 * m31) == m12 * m20 * m23 * m31) by (nonlinear_arith);
    assert((m11 * m20 * m22 * m33 + m12 * m20 * m23 * m31 + m13 * m20 * m21 * m32 - m11 * m20 * m23 * m32 - m12 * m20 * m21 * m33 - m13 * m20 * m22 * m31) + (m10 * m21 * m23 * m32 + m12 * m20 * m21 * m33 + m13 * m21 * m22 * m30 - m10 * m21 * m22 * m33 - m12 * m21 * m23 * m30 - m13 * m20 * m21 * m32) + (m10 * m21 * m22 * m33 + m11 * m22 * m23 * m30 + m13 * m20 * m22 * m31 - m10 * m22 * m23 * m31 - m11 * m20 * m22 * m33 - m13 * m21 * m22 * m30) + (m10 * m22 * m23 * m31 + m11 * m20 * m23 * m32 + m12 * m21 * m23 * m30 - m10 * m21 * m23 * m32 - m11 * m22 * m23 * m30 - m12 * m20 * m23 * m31) == 0);
    lemma_mul_distributes_3_3(m20, m01 * m23 * m32, m02 * m21 * m33, m03 * m22 * m31, m01 * m22 * m33, m02 * m23 * m31, m03 * m21 * m32);
    assert(m20 * (m01 * m23 * m32) == m01 * m20 * m23 * m32) by (nonlinear_arith);
    assert(m20 * (m02 * m21 * m33) == m02 * m20 * m21 * m33) by (nonlinear_arith);
    assert(m20 * (m03 * m22 * m31) == m03 * m20 * m22 * m31) by (nonlinear_arith);
    assert(m20 * (m01 * m22 * m33) == m01 * m20 * m22 * m33) by (nonlinear_arith);
    assert(m20 * (m02 * m23 * m31) == m02 * m20 * m23 * m31) by (nonlinear_arith);
    assert(m20 * (m03 * m21 * m32) == m03 * m20 * m21 * m32) by (nonlinear_arith);
    lemma_mul_distributes_3_3(m21, m00 * m22 * m33, m02 * m23 * m30, m03 * m20 * m32, m00 * m23 * m32, m02 * m20 * m33, m03 * m22 * m30);
    assert(m21 * (m00 * m22 * m33) == m00 * m21 * m22 * m33) by (nonlinear_arith);
    assert(m21 * (m02 * m23 * m30) == m02 * m21 * m23 * m30) by (nonlinear_arith);
    assert(m21 * (m03 * m20 * m32) == m03 * m20 * m21 * m32) by (nonlinear_arith);
    assert(m21 * (m00 * m23 * m32) == m00 * m21 * m23 * m32) by (nonlinear_arith);
    assert(m21 * (m02 * m20 * m33) == m02 * m20 * m21 * m33) by (nonlinear_arith);
    assert(m21 * (m03 * m22 * m30) == m03 * m21 * m22 * m30) by (nonlinear_arith);
    lemma_mul_distributes_3_3(m22, m00 * m23 * m31, m01 * m20 * m33, m03 * m21 * m30, m00 * m21 * m33, m01 * m23 * m30, m03 * m20 * m31);
    assert(m22 * (m00 * m23 * m31) == m00 * m22 * m23 * m31) by (nonlinear_arith);
    assert(m22 * (m01 * m20 * m33) == m01 * m20 * m22 * m33) by (nonlinear_arith);
    assert(m22 * (m03 * m21 * m30) == m03 * m21 * m22 * m30) by (nonlinear_arith);
    assert(m22 * (m00 * m21 * m33) == m00 * m21 * m22 * m33) by (nonlinear_arith);
    assert(m22 * (m01 * m23 * m30) == m01 * m22 * m23 * m30) by (nonlinear_arith);
    assert(m22 * (m03 * m20 * m31) == m03 * m20 * m22 * m31) by (nonlinear_arith);
    lemma_mul_distributes_3_3(m23, m00 * m21 * m32, m01 * m22 * m30, m02 * m20 * m31, m00 * m22 * m31, m01 * m20 * m32, m02 * m21 * m30);
    assert(m23 * (m00 * m21 * m32) == m00 * m21 * m23 * m32) by (nonlinear_arith);
    assert(m23 * (m01 * m22 * m30) == m01 * m22 * m23 * m30) by (nonlinear_arith);
    assert(m23 * (m02 * m20 * m31) == m02 * m20 * m23 * m31) by (nonlinear_arith);
    assert(m23 * (m00 * m22 * m31) == m00 * m22 * m23 * m31) by (nonlinear_arith);
    assert(m23 * (m01 * m20 * m32) == m01 * m20 * m23 * m32) by (nonlinear_arith);
    assert(m23 * (m02 * m21 * m30) == m02 * m21 * m23 * m30) by (nonlinear_arith);
    assert((m01 * m20 * m23 * m32 + m02 * m20 * m21 * m33 + m03 * m20 * m22 * m31 - m01 * m20 * m22 * m33 - m02 * m20 * m23 * m31 - m03 * m20 * m21 * m32) + (m00 * m21 * m22 * m33 + m02 * m21 * m23 * m30 + m03 * m20 * m21 * m32 - m00 * m21 * m23 * m32 - m02 * m20 * m21 * m33 - m03 * m21 * m22 * m30) + (m00 * m22 * m23 * m31 + m01 * m20 * m22 * m33 + m03 * m21 * m22 * m30 - m00 * m21 * m22 * m33 - m01 * m22 * m23 * m30 - m03 * m20 * m22 * m31) + (m00 * m21 * m23 * m32 + m01 * m22 * m23 * m30 + m02 * m20 * m23 * m31 - m00 * m22 * m23 * m31 - m01 * m20 * m23 * m32 - m02 * m21 * m23 * m30) == 0);
    lemma_mul_distributes_3_3(m20, m01 * m12 * m33, m02 * m13 * m31, m03 * m11 * m32, m01 * m13 * m32, m02 * m11 * m33, m03 * m12 * m31);
    assert(m20 * (m01 * m12 * m33) == m01 * m12 * m20 * m33) by (nonlinear_arith);
    assert(m20 * (m02 * m13 * m31) == m02 * m13 * m20 * m31) by (nonlinear_arith);
    assert(m20 * (m03 * m11 * m32) == m03 * m11 * m20 * m32) by (nonlinear_arith);
    assert(m20 * (m01 * m13 * m32) == m01 * m13 * m20 * m32) by (nonlinear_arith);
    assert(m20 * (m02 * m11 * m33) == m02 * m11 * m20 * m33) by (nonlinear_arith);
    assert(m20 * (m03 * m12 * m31) == m03 * m12 * m20 * m31) by (nonlinear_arith);
    lemma_mul_distributes_3_3(m21, m00 * m13 * m32, m02 * m10 * m33, m03 * m12 * m30, m00 * m12 * m33, m02 * m13 * m30, m03 * m10 * m32);
    assert(m21 * (m00 * m13 * m32) == m00 * m13 * m21 * m32) by (nonlinear_arith);
    assert(m21 * (m02 * m10 * m33) == m02 * m10 * m21 * m33) by (nonlinear_arith);
    assert(m21 * (m03 * m12 * m30) == m03 * m12 * m21 * m30) by (nonlinear_arith);
    assert(m21 * (m00 * m12 * m33) == m00 * m12 * m21 * m33) by (nonlinear_arith);
    assert(m21 * (m02 * m13 * m30) == m02 * m13 * m21 * m30) by (nonlinear_arith);
    assert(m21 * (m03 * m10 * m32) == m03 * m10 * m21 * m32) by (nonlinear_arith);
    lemma_mul_distributes_3_3(m22, m00 * m11 * m33, m01 * m13 * m30, m03 * m10 * m31, m00 * m13 * m31, m01 * m10 * m33, m03 * m11 * m30);
    assert(m22 * (m00 * m11 * m33) == m00 * m11 * m22 * m33) by (nonlinear_arith);
    assert(m22 * (m01 * m13 * m30) == m01 * m13 * m22 * m30) by (nonlinear_arith);
    assert(m22 * (m03 * m10 * m31) == m03 * m10 * m22 * m31) by (nonlinear_arith);
    assert(m22 * (m00 * m13 * m31) == m00 * m13 * m22 * m31) by (nonlinear_arith);
    assert(m22 * (m01 * m10 * m33) == m01 * m10 * m22 * m33) by (nonlinear_arith);
    assert(m22 * (m03 * m11 * m30) == m03 * m11 * m22 * m30) by (nonlinear_arith);
    lemma_mul_distributes_3_3(m23, m00 * m12 * m31, m01 * m10 * m32, m02 * m11 * m30, m00 * m11 * m32, m01 * m12 * m30, m02 * m10 * m31);
    assert(m23 * (m00 * m12 * m31) == m00 * m12 * m23 * m31) by (nonlinear_arith);
    assert(m23 * (m01 * m10 * m32) == m01 * m10 * m23 * m32) by (nonlinear_arith);
    assert(m23 * (m02 * m11 * m30) == m02 * m11 * m23 * m30) by (nonlinear_arith);
    assert(m23 * (m00 * m11 * m32) == m00 * m11 * m23 * m32) by (nonlinear_arith);
    assert(m23 * (m01 * m12 * m30) == m01 * m12 * m23 * m30) by (nonlinear_arith);
    assert(m23 * (m02 * m10 * m31) == m02 * m10 * m23 * m31) by (nonlinear_arith);
    assert((m01 * m12 * m20 * m33 + m02 * m13 * m20 * m31 + m03 * m11 * m20 * m32 - m01 * m13 * m20 * m32 - m02 * m11 * m20 * m33 - m03 * m12 * m20 * m31) + (m00 * m13 * m21 * m32 + m02 * m10 * m21 * m33 + m03 * m12 * m21 * m30 - m00 * m12 * m21 * m33 - m02 * m13 * m21 * m30 - m03 * m10 * m21 * m32) + (m00 * m11 * m22 * m33 + m01 * m13 * m22 * m30 + m03 * m10 * m22 * m31 - m00 * m13 * m22 * m31 - m01 * m10 * m22 * m33 - m03 * m11 * m22 * m30) + (m00 * m12 * m23 * m31 + m01 * m10 * m23 * m32 + m02 * m11 * m23 * m30 - m00 * m11 * m23 * m32 - m01 * m12 * m23 * m30 - m02 * m10 * m23 * m31) == m00 * m11 * m22 * m33 + m00 * m12 * m23 * m31 + m00 * m13 * m21 * m32 + m01 * m10 * m23 * m32 + m01 * m12 * m20 * m33 + m01 * m13 * m22 * m30 + m02 * m10 * m21 * m33 + m02 * m11 * m23 * m30 + m02 * m13 * m20 * m31 + m03 * m10 * m22 * m31 + m03 * m11 * m20 * m32 + m03 * m12 * m21 * m30 - m00 * m11 * m23 * m32 - m00 * m12 * m21 * m33 - m00 * m13 * m22 * m31 - m01 * m10 * m22 * m33 - m01 * m12 * m23 * m30 - m01 * m13 * m20 * m32 - m02 * m10 * m23 * m31 - m02 * m11 * m20 * m33 - m02 * m13 * m21 * m30 - m03 * m10 * m21 * m32 - m03 * m11 * m22 * m30 - m03 * m12 * m20 * m31);
    lemma_mul_distributes_3_3(m20, m01 * m13 * m22, m02 * m11 * m23, m03 * m12 * m21, m01 * m12 * m23, m02 * m13 * m21, m03 * m11 * m22);
    assert(m20 * (m01 * m13 * m22) == m01 * m13 * m20 * m22) by (nonlinear_arith);
    assert(m20 * (m02 * m11 * m23) == m02 * m11 * m20 * m23) by (nonlinear_arith);
    assert(m20 * (m03 * m12 * m21) == m03 * m12 * m20 * m21) by (nonlinear_arith);
    assert(m20 * (m01 * m12 * m23) == m01 * m12 * m20 * m23) by (nonlinear_arith);
    assert(m20 * (m02 * m13 * m21) == m02 * m13 * m20 * m21) by (nonlinear_arith);
    assert(m20 * (m03 * m11 * m22) == m03 * m11 * m20 * m22) by (nonlinear_arith);
    lemma_mul_distributes_3_3(m21, m00 * m12 * m23, m02 * m13 * m20, m03 * m10 * m22, m00 * m13 * m22, m02 * m10 * m23, m03 * m12 * m20);
    assert(m21 * (m00 * m12 * m23) == m00 * m12 * m21 * m23) by (nonlinear_arith);
    assert(m21 * (m02 * m13 * m20) == m02 * m13 * m20 * m21) by (nonlinear_arith);
    assert(m21 * (m03 * m10 * m22) == m03 * m10 * m21 * m22) by (nonlinear_arith);
    assert(m21 * (m00 * m13 * m22) == m00 * m13 * m21 * m22) by (nonlinear_arith);
    assert(m21 * (m02 * m10 * m23) == m02 * m10 * m21 * m23) by (nonlinear_arith);
    assert(m21 * (m03 * m12 * m20) == m03 * m12 * m20 * m21) by (nonlinear_arith);
    lemma_mul_distributes_3_3(m22, m00 * m13 * m21, m01 * m10 * m23, m03 * m11 * m20, m00 * m11 * m23, m01 * m13 * m20, m03 * m10 * m21);
    assert(m22 * (m00 * m13 * m21) == m00 * m13 * m21 * m22) by (nonlinear_arith);
    assert(m22 * (m01 * m10 * m23) == m01 * m10 * m22 * m23) by (nonlinear_arith);
    assert(m22 * (m03 * m11 * m20) == m03 * m11 * m20 * m22) by (nonlinear_arith);
    assert(m22 * (m00 * m11 * m23) == m00 * m11 * m22 * m23) by (nonlinear_arith);
    assert(m22 * (m01 * m13 * m20) == m01 * m13 * m20 * m22) by (nonlinear_arith);
    assert(m22 * (m03 * m10 * m21) == m03 * m10 * m21 * m22) by (nonlinear_arith);
    lemma_mul_distributes_3_3(m23, m00 * m11 * m22, m01 * m12 * m20, m02 * m10 * m21, m00 * m12 * m21, m01 * m10 * m22, m02 * m11 * m20);
    assert(m23 * (m00 * m11 * m22) == m00 * m11 * m22 * m23) by (nonlinear_arith);
    assert(m23 * (m01 * m12 * m20) == m01 * m12 * m20 * m23) by (nonlinear_arith);
    assert(m23 * (m02 * m10 * m21) == m02 * m10 * m21 * m23) by (nonlinear_arith);
    assert(m23 * (m00 * m12 * m21) == m00 * m12 * m21 * m23) by (nonlinear_arith);
    assert(m23 * (m01 * m10 * m22) == m01 * m10 * m22 * m23) by (nonlinear_arith);
    assert(m23 * (m02 * m11 * m20) == m02 * m11 * m20 * m23) by (nonlinear_arith);
    assert((m01 * m13 * m20 * m22 + m02 * m11 * m20 * m23 + m03 * m12 * m20 * m21 - m01 * m12 * m20 * m23 - m02 * m13 * m20 * m21 - m03 * m11 * m20 * m22) + (m00 * m12 * m21 * m23 + m02 * m13 * m20 * m21 + m03 * m10 * m21 * m22 - m00 * m13 * m21 * m22 - m02 * m10 * m21 * m23 - m03 * m12 * m20 * m21) + (m00 * m13 * m21 * m22 + m01 * m10 * m22 * m23 + m03 * m11 * m20 * m22 - m00 * m11 * m22 * m23 - m01 * m13 * m20 * m22 - m03 * m10 * m21 * m22) + (m00 * m11 * m22 * m23 + m01 * m12 * m20 * m23 + m02 * m10 * m21 * m23 - m00 * m12 * m21 * m23 - m01 * m10 * m22 * m23 - m02 * m11 * m20 * m23) == 0);
    lemma_mul_distributes_3_3(m30, m11 * m22 * m33, m12 * m23 * m31, m13 * m21 * m32, m11 * m23 * m32, m12 * m21 * m33, m13 * m22 * m31);
    assert(m30 * (m11 * m22 * m33) == m11 * m22 * m30 * m33) by (nonlinear_arith);
    assert(m30 * (m12 * m23 * m31) == m12 * m23 * m30 * m31) by (nonlinear_arith);
    assert(m30 * (m13 * m21 * m32) == m13 * m21 * m30 * m32) by (nonlinear_arith);
    assert(m30 * (m11 * m23 * m32) == m11 * m23 * m30 * m32) by (nonlinear_arith);
    assert(m30 * (m12 * m21 * m33) == m12 * m21 * m30 * m33) by (nonlinear_arith);
    assert(m30 * (m13 * m22 * m31) == m13 * m22 * m30 * m31) by (nonlinear_arith);
    lemma_mul_distributes_3_3(m31, m10 * m23 * m32, m12 * m20 * m33, m13 * m22 * m30, m10 * m22 * m33, m12 * m23 * m30, m13 * m20 * m32);
    assert(m31 * (m10 * m23 * m32) == m10 * m23 * m31 * m32) by (nonlinear_arith);
    assert(m31 * (m12 * m20 * m33) == m12 * m20 * m31 * m33) by (nonlinear_arith);
    assert(m31 * (m13 * m22 * m30) == m13 * m22 * m30 * m31) by (nonlinear_arith);
    assert(m31 * (m10 * m22 * m33) == m10 * m22 * m31 * m33) by (nonlinear_arith);
    assert(m31 * (m12 * m23 * m30) == m12 * m23 * m30 * m31) by (nonlinear_arith);
    assert(m31 * (m13 * m20 * m32) == m13 * m20 * m31 * m32) by (nonlinear_arith);
    lemma_mul_distributes_3_3(m32, m10 * m21 * m33, m11 * m23 * m30, m13 * m20 * m31, m10 * m23 * m31, m11 * m20 * m33, m13 * m21 * m30);
    assert(m32 * (m10 * m21 * m33) == m10 * m21 * m32 * m33) by (nonlinear_arith);
    assert(m32 * (m11 * m23 * m30) == m11 * m23 * m30 * m32) by (nonlinear_arith);
    assert(m32 * (m13 * m20 * m31) == m13 * m20 * m31 * m32) by (nonlinear_arith);
    assert(m32 * (m10 * m23 * m31) == m10 * m23 * m31 * m32) by (nonlinear_arith);
    assert(m32 * (m11 * m20 * m33) == m11 * m20 * m32 * m33) by (nonlinear_arith);
    assert(m32 * (m13 * m21 * m30) == m13 * m21 * m30 * m32) by (nonlinear_arith);
    lemma_mul_distributes_3_3(m33, m10 * m22 * m31, m11 * m20 * m32, m12 * m21 * m30, m10 * m21 * m32, m11 * m22 * m30, m12 * m20 * m31);
    assert(m33 * (m10 * m22 * m31) == m10 * m22 * m31 * m33) by (nonlinear_arith);
    assert(m33 * (m11 * m20 * m32) == m11 * m20 * m32 * m33) by (nonlinear_arith);
    assert(m33 * (m12 * m21 * m30) == m12 * m21 * m30 * m33) by (nonlinear_arith);
    assert(m33 * (m10 * m21 * m32) == m10 * m21 * m32 * m33) by (nonlinear_arith);
    assert(m33 * (m11 * m22 * m30) == m11 * m22 * m30 * m33) by (nonlinear_arith);
    assert(m33 * (m12 * m20 * m31) == m12 * m20 * m31 * m33) by (nonlinear_arith);
    assert((m11 * m22 * m30 * m33 + m12 * m23 * m30 * m31 + m13 * m21 * m30 * m32 - m11 * m23 * m30 * m32 - m12 * m21 * m30 * m33 - m13 * m22 * m30 * m31) + (m10 * m23 * m31 * m32 + m12 * m20 * m31 * m33 + m13 * m22 * m30 * m31 - m10 * m22 * m31 * m33 - m12 * m23 * m30 * m31 - m13 * m20 * m31 * m32) + (m10 * m21 * m32 * m33 + m11 * m23 * m30 * m32 + m13 * m20 * m31 * m32 - m10 * m23 * m31 * m32 - m11 * m20 * m32 * m33 - m13 * m21 * m30 * m32) + (m10 * m22 * m31 * m33 + m11 * m20 * m32 * m33 + m12 * m21 * m30 * m33 - m10 * m21 * m32 * m33 - m11 * m22 * m30 * m33 - m12 * m20 * m31 * m33) == 0);
    lemma_mul_distributes_3_3(m30, m01 * m23 * m32, m02 * m21 * m33, m03 * m22 * m31, m01 * m22 * m33, m02 * m23 * m31, m03 * m21 * m32);
    assert(m30 * (m01 * m23 * m32) == m01 * m23 * m30 * m32) by (nonlinear_arith);
    assert(m30 * (m02 * m21 * m33) == m02 * m21 * m30 * m33) by (nonlinear_arith);
    assert(m30 * (m03 * m22 * m31) == m03 * m22 * m30 * m31) by (nonlinear_arith);
    assert(m30 * (m01 * m22 * m33) == m01 * m22 * m30 * m33) by (nonlinear_arith);
    assert(m30 * (m02 * m23 * m31) == m02 * m23 * m30 * m31) by (nonlinear_arith);
    assert(m30 * (m03 * m21 * m32) == m03 * m21 * m30 * m32) by (nonlinear_arith);
    lemma_mul_distributes_3_3(m31, m00 * m22 * m33, m02 * m23 * m30, m03 * m20 * m32, m00 * m23 * m32, m02 * m20 * m33, m03 * m22 * m30);
    assert(m31 * (m00 * m22 * m33) == m00 * m22 * m31 * m33) by (nonlinear_arith);
    assert(m31 * (m02 * m23 * m30) == m02 * m23 * m30 * m31) by (nonlinear_arith);
    assert(m31 * (m03 * m20 * m32) == m03 * m20 * m31 * m32) by (nonlinear_arith);
    assert(m31 * (m00 * m23 * m32) == m00 * m23 * m31 * m32) by (nonlinear_arith);
    assert(m31 * (m02 * m20 * m33) == m02 * m20 * m31 * m33) by (nonlinear_arith);
    assert(m31 * (m03 * m22 * m30) == m03 * m22 * m30 * m31) by (nonlinear_arith);
    lemma_mul_distributes_3_3(m32, m00 * m23 * m31, m01 * m20 * m33, m03 * m21 * m30, m00 * m21 * m33, m01 * m23 * m30, m03 * m20 * m31);
    assert(m32 * (m00 * m23 * m31) == m00 * m23 * m31 * m32) by (nonlinear_arith);
    assert(m32 * (m01 * m20 * m33) == m01 * m20 * m32 * m33) by (nonlinear_arith);
    assert(m32 * (m03 * m21 * m30) == m03 * m21 * m30 * m32) by (nonlinear_arith);
    assert(m32 * (m00 * m21 * m33) == m00 * m21 * m32 * m33) by (nonlinear_arith);
    assert(m32 * (m01 * m23 * m30) == m01 * m23 * m30 * m32) by (nonlinear_arith);
    assert(m32 * (m03 * m20 * m31) == m03 * m20 * m31 * m32) by (nonlinear_arith);
    lemma_mul_distributes_3_3(m33, m00 * m21 * m32, m01 * m22 * m30, m02 * m20 * m31, m00 * m22 * m31, m01 * m20 * m32, m02 * m21 * m30);
    assert(m33 * (m00 * m21 * m32) == m00 * m21 * m32 * m33) by (nonlinear_arith);
    assert(m33 * (m01 * m22 * m30) == m01 * m22 * m30 * m33) by (nonlinear_arith);
    assert(m33 * (m02 * m20 * m31) == m02 * m20 * m31 * m33) by (nonlinear_arith);
    assert(m33 * (m00 * m22 * m31) == m00 * m22 * m31 * m33) by (nonlinear_arith);
    assert(m33 * (m01 * m20 * m32) == m01 * m20 * m32 * m33) by (nonlinear_arith);
    assert(m33 * (m02 * m21 * m30) == m02 * m21 * m30 * m33) by (nonlinear_arith);
    assert((m01 * m23 * m30 * m32 + m02 * m21 * m30 * m33 + m03 * m22 * m30 * m31 - m01 * m22 * m30 * m33 - m02 * m23 * m30 * m31 - m03 * m21 * m30 * m32) + (m00 * m22 * m31 * m33 + m02 * m23 * m30 * m31 + m03 * m20 * m31 * m32 - m00 * m23 * m31 * m32 - m02 * m20 * m31 * m33 - m03 * m22 * m30 * m31) + (m00 * m23 * m31 * m32 + m01 * m20 * m32 * m33 + m03 * m21 * m30 * m32 - m00 * m21 * m32 * m33 - m01 * m23 * m30 * m32 - m03 * m20 * m31 * m32) + (m00 * m21 * m32 * m33 + m01 * m22 * m30 * m33 + m02 * m20 * m31 * m33 - m00 * m22 * m31 * m33 - m01 * m20 * m32 * m33 - m02 * m21 * m30 * m33) == 0);
    lemma_mul_distributes_3_3(m30, m01 * m12 * m33, m02 * m13 * m31, m03 * m11 * m32, m01 * m13 * m32, m02 * m11 * m33, m03 * m12 * m31);
    assert(m30 * (m01 * m12 * m33) == m01 * m12 * m30 * m33) by (nonlinear_arith);
    assert(m30 * (m02 * m13 * m31) == m02 * m13 * m30 * m31) by (nonlinear_arith);
    assert(m30 * (m03 * m11 * m32) == m03 * m11 * m30 * m32) by (nonlinear_arith);
    assert(m30 * (m01 * m13 * m32) == m01 * m13 * m30 * m32) by (nonlinear_arith);
    assert(m30 * (m02 * m11 * m33) == m02 * m11 * m30 * m33) by (nonlinear_arith);
    assert(m30 * (m03 * m12 * m31) == m03 * m12 * m30 * m31) by (nonlinear_arith);
    lemma_mul_distributes_3_3(m31, m00 * m13 * m32, m02 * m10 * m33, m03 * m12 * m30, m00 * m12 * m33, m02 * m13 * m30, m03 * m10 * m32);
    assert(m31 * (m00 * m13 * m32) == m00 * m13 * m31 * m32) by (nonlinear_arith);
    assert(m31 * (m02 * m10 * m33) == m02 * m10 * m31 * m33) by (nonlinear_arith);
    assert(m31 * (m03 * m12 * m30) == m03 * m12 * m30 * m31) by (nonlinear_arith);
    assert(m31 * (m00 * m12 * m33) == m00 * m12 * m31 * m33) by (nonlinear_arith);
    assert(m31 * (m02 * m13 * m30) == m02 * m13 * m30 * m31) by (nonlinear_arith);
    assert(m31 * (m03 * m10 * m32) == m03 * m10 * m31 * m32) by (nonlinear_arith);
    lemma_mul_distributes_3_3(m32, m00 * m11 * m33, m01 * m13 * m30, m03 * m10 * m31, m00 * m13 * m31, m01 * m10 * m33, m03 * m11 * m30);
    assert(m32 * (m00 * m11 * m33) == m00 * m11 * m32 * m33) by (nonlinear_arith);
    assert(m32 * (m01 * m13 * m30) == m01 * m13 * m30 * m32) by (nonlinear_arith);
    assert(m32 * (m03 * m10 * m31) == m03 * m10 * m31 * m32) by (nonlinear_arith);
    assert(m32 * (m00 * m13 * m31) == m00 * m13 * m31 * m32) by (nonlinear_arith);
    assert(m32 * (m01 * m10 * m33) == m01 * m10 * m32 * m33) by (nonlinear_arith);
    assert(m32 * (m03 * m11 * m30) == m03 * m11 * m30 * m32) by (nonlinear_arith);
    lemma_mul_distributes_3_3(m33, m00 * m12 * m31, m01 * m10 * m32, m02 * m11 * m30, m00 * m11 * m32, m01 * m12 * m30, m02 * m10 * m31);
    assert(m33 * (m00 * m12 * m31) == m00 * m12 * m31 * m33) by (nonlinear_arith);
    assert(m33 * (m01 * m10 * m32) == m01 * m10 * m32 * m33) by (nonlinear_arith);
    assert(m33 * (m02 * m11 * m30) == m02 * m11 * m30 * m33) by (nonlinear_arith);
    assert(m33 * (m00 * m11 * m32) == m00 * m11 * m32 * m33) by (nonlinear_arith);
    assert(m33 * (m01 * m12 * m30) == m01 * m12 * m30 * m33) by (nonlinear_arith);
    assert(m33 * (m02 * m10 * m31) == m02 * m10 * m31 * m33) by (nonlinear_arith);
    assert((m01 * m12 * m30 * m33 + m02 * m13 * m30 * m31 + m03 * m11 * m30 * m32 - m01 * m13 * m30 * m32 - m02 * m11 * m30 * m33 - m03 * m12 * m30 * m31) + (m00 * m13 * m31 * m32 + m02 * m10 * m31 * m33 + m03 * m12 * m30 * m31 - m00 * m12 * m31 * m33 - m02 * m13 * m30 * m31 - m03 * m10 * m31 * m32) + (m00 * m11 * m32 * m33 + m01 * m13 * m30 * m32 + m03 * m10 * m31 * m32 - m00 * m13 * m31 * m32 - m01 * m10 * m32 * m33 - m03 * m11 * m30 * m32) + (m00 * m12 * m31 * m33 + m01 * m10 * m32 * m33 + m02 * m11 * m30 * m33 - m00 * m11 * m32 * m33 - m01 * m12 * m30 * m33 - m02 * m10 * m31 * m33) == 0);
    lemma_mul_distributes_3_3(m30, m01 * m13 * m22, m02 * m11 * m23, m03 * m12 * m21, m01 * m12 * m23, m02 * m13 * m21, m03 * m11 * m22);
    assert(m30 * (m01 * m13 * m22) == m01 * m13 * m22 * m30) by (nonlinear_arith);
    assert(m30 * (m02 * m11 * m23) == m02 * m11 * m23 * m30) by (nonlinear_arith);
    assert(m30 * (m03 * m12 * m21) == m03 * m12 * m21 * m30) by (nonlinear_arith);
    assert(m30 * (m01 * m12 * m23) == m01 * m12 * m23 * m30) by (nonlinear_arith);
    assert(m30 * (m02 * m13 * m21) == m02 * m13 * m21 * m30) by (nonlinear_arith);
    assert(m30 * (m03 * m11 * m22) == m03 * m11 * m22 * m30) by (nonlinear_arith);
    lemma_mul_distributes_3_3(m31, m00 * m12 * m23, m02 * m13 * m20, m03 * m10 * m22, m00 * m13 * m22, m02 * m10 * m23, m03 * m12 * m20);
    assert(m31 * (m00 * m12 * m23) == m00 * m12 * m23 * m31) by (nonlinear_arith);
    assert(m31 * (m02 * m13 * m20) == m02 * m13 * m20 * m31) by (nonlinear_arith);
    assert(m31 * (m03 * m10 * m22) == m03 * m10 * m22 * m31) by (nonlinear_arith);
    assert(m31 * (m00 * m13 * m22) == m00 * m13 * m22 * m31) by (nonlinear_arith);
    assert(m31 * (m02 * m10 * m23) == m02 * m10 * m23 * m31) by (nonlinear_arith);
    assert(m31 * (m03 * m12 * m20) == m03 * m12 * m20 * m31) by (nonlinear_arith);
    lemma_mul_distributes_3_3(m32, m00 * m13 * m21, m01 * m10 * m23, m03 * m11 * m20, m00 * m11 * m23, m01 * m13 * m20, m03 * m10 * m21);
    assert(m32 * (m00 * m13 * m21) == m00 * m13 * m21 * m32) by (nonlinear_arith);
    assert(m32 * (m01 * m10 * m23) == m01 * m10 * m23 * m32) by (nonlinear_arith);
    assert(m32 * (m03 * m11 * m20) == m03 * m11 * m20 * m32) by (nonlinear_arith);
    assert(m32 * (m00 * m11 * m23) == m00 * m11 * m23 * m32) by (nonlinear_arith);
    assert(m32 * (m01 * m13 * m20) == m01 * m13 * m20 * m32) by (nonlinear_arith);
    assert(m32 * (m03 * m10 * m21) == m03 * m10 * m21 * m32) by (nonlinear_arith);
    lemma_mul_distributes_3_3(m33, m00 * m11 * m22, m01 * m12 * m20, m02 * m10 * m21, m00 * m12 * m21, m01 * m10 * m22, m02 * m11 * m20);
    assert(m33 * (m00 * m11 * m22) == m00 * m11 * m22 * m33) by (nonlinear_arith);
    assert(m33 * (m01 * m12 * m20) == m01 * m12 * m20 * m33) by (nonlinear_arith);
    assert(m33 * (m02 * m10 * m21) == m02 * m10 * m21 * m33) by (nonlinear_arith);
    assert(m33 * (m00 * m12 * m21) == m00 * m12 * m21 * m33) by (nonlinear_arith);
    assert(m33 * (m01 * m10 * m22) == m01 * m10 * m22 * m33) by (nonlinear_arith);
    assert(m33 * (m02 * m11 * m20) == m02 * m11 * m20 * m33) by (nonlinear_arith);
    assert((m01 * m13 * m22 * m30 + m02 * m11 * m23 * m30 + m03 * m12 * m21 * m30 - m01 * m12 * m23 * m30 - m02 * m13 * m21 * m30 - m03 * m11 * m22 * m30) + (m00 * m12 * m23 * m31 + m02 * m13 * m20 * m31 + m03 * m10 * m22 * m31 - m00 * m13 * m22 * m31 - m02 * m10 * m23 * m31 - m03 * m12 * m20 * m31) + (m00 * m13 * m21 * m32 + m01 * m10 * m23 * m32 + m03 * m11 * m20 * m32 - m00 * m11 * m23 * m32 - m01 * m13 * m20 * m32 - m03 * m10 * m21 * m32) + (m00 * m11 * m22 * m33 + m01 * m12 * m20 * m33 + m02 * m10 * m21 * m33 - m00 * m12 * m21 * m33 - m01 * m10 * m22 * m33 - m02 * m11 * m20 * m33) == m00 * m11 * m22 * m33 + m00 * m12 * m23 * m31 + m00 * m13 * m21 * m32 + m01 * m10 * m23 * m32 + m01 * m12 * m20 * m33 + m01 * m13 * m22 * m30 + m02 * m10 * m21 * m33 + m02 * m11 * m23 * m30 + m02 * m13 * m20 * m31 + m03 * m10 * m22 * m31 + m03 * m11 * m20 * m32 + m03 * m12 * m21 * m30 - m00 * m11 * m23 * m32 - m00 * m12 * m21 * m33 - m00 * m13 * m22 * m31 - m01 * m10 * m22 * m33 - m01 * m12 * m23 * m30 - m01 * m13 * m20 * m32 - m02 * m10 * m23 * m31 - m02 * m11 * m20 * m33 - m02 * m13 * m21 * m30 - m03 * m10 * m21 * m32 - m03 * m11 * m22 * m30 - m03 * m12 * m20 * m31);
}

/// The cofactor formula of `Matrix4::inverse1` is the adjugate: taken with the factor one in place
/// of one over the determinant, it multiplies `m` into the determinant times the identity,
/// wherever the integer arithmetic involved does not overflow.
pub proof fn lemma_matrix4_inverse1_adjugate(m: Matrix4<i64>)
    requires
        m.spec_det() is Some,
        m.spec_inverse1_of(Some(1i64)) is Some,
        m.spec_mul(m.spec_inverse1_of(Some(1i64))->0) is Some,
    ensures
        m.spec_mul(m.spec_inverse1_of(Some(1i64))->0) == Some(scaled_identity4(m.spec_det()->0)),
{
    let m00 = m.m00 as int;
    let m01 = m.m01 as int;
    let m02 = m.m02 as int;
    let m03 = m.m03 as int;
    let m10 = m.m10 as int;
    let m11 = m.m11 as int;
    let m12 = m.m12 as int;
    let m13 = m.m13 as int;
    let m20 = m.m20 as int;
    let m21 = m.m21 as int;
    let m22 = m.m22 as int;
    let m23 = m.m23 as int;
    let m30 = m.m30 as int;
    let m31 = m.m31 as int;
    let m32 = m.m32 as int;
    let m33 = m.m33 as int;
    let adj = m.spec_inverse1_of(Some(1i64))->0;
    assert(m.spec_det()->0 as int == m00 * m11 * m22 * m33 + m00 * m12 * m23 * m31 + m00 * m13 * m21 * m32 + m01 * m10 * m23 * m32 + m01 * m12 * m20 * m33 + m01 * m13 * m22 * m30 + m02 * m10 * m21 * m33 + m02 * m11 * m23 * m30 + m02 * m13 * m20 * m31 + m03 * m10 * m22 * m31 + m03 * m11 * m20 * m32 + m03 * m12 * m21 * m30 - m00 * m11 * m23 * m32 - m00 * m12 * m21 * m33 - m00 * m13 * m22 * m31 - m01 * m10 * m22 * m33 - m01 * m12 * m23 * m30 - m01 * m13 * m20 * m32 - m02 * m10 * m23 * m31 - m02 * m11 * m20 * m33 - m02 * m13 * m21 * m30 - m03 * m10 * m21 * m32 - m03 * m11 * m22 * m30 - m03 * m12 * m20 * m31);
    assert(adj.m00 as int == m11 * m22 * m33 + m21 * m32 * m13 + m31 * m12 * m23 - m11 * m32 * m23 - m21 * m12 * m33 - m31 * m22 * m13);
    assert(adj.m01 as int == m01 * m32 * m23 + m21 * m02 * m33 + m31 * m22 * m03 - m01 * m22 * m33 - m21 * m32 * m03 - m31 * m02 * m23);
    assert(adj.m02 as int == m01 * m12 * m33 + m11 * m32 * m03 + m31 * m02 * m13 - m01 * m32 * m13 - m11 * m02 * m33 - m31 * m12 * m03);
    assert(adj.m03 as int == m01 * m22 * m13 + m11 * m02 * m23 + m21 * m12 * m03 - m01 * m12 * m23 - m11 * m22 * m03 - m21 * m02 * m13);
    assert(adj.m10 as int == m10 * m32 * m23 + m20 * m12 * m33 + m30 * m22 * m13 - m10 * m22 * m33 - m20 * m32 * m13 - m30 * m12 * m23);
    assert(adj.m11 as int == m00 * m22 * m33 + m20 * m32 * m03 + m30 * m02 * m23 - m00 * m32 * m23 - m20 * m02 * m33 - m30 * m22 * m03);
    assert(adj.m12 as int == m00 * m32 * m13 + m10 * m02 * m33 + m30 * m12 * m03 - m00 * m12 * m33 - m10 * m32 * m03 - m30 * m02 * m13);
    assert(adj.m13 as int == m00 * m12 * m23 + m10 * m22 * m03 + m20 * m02 * m13 - m00 * m22 * m13 - m10 * m02 * m23 - m20 * m12 * m03);
    assert(adj.m20 as int == m10 * m21 * m33 + m20 * m31 * m13 + m30 * m11 * m23 - m10 * m31 * m23 - m20 * m11 * m33 - m30 * m21 * m13);
    assert(adj.m21 as int == m00 * m31 * m23 + m20 * m01 * m33 + m30 * m21 * m03 - m00 * m21 * m33 - m20 * m31 * m03 - m30 * m01 * m23);
    assert(adj.m22 as int == m00 * m11 * m33 + m10 * m31 * m03 + m30 * m01 * m13 - m00 * m31 * m13 - m10 * m01 * m33 - m30 * m11 * m03);
    assert(adj.m23 as int == m00 * m21 * m13 + m10 * m01 * m23 + m20 * m11 * m03 - m00 * m11 * m23 - m10 * m21 * m03 - m20 * m01 * m13);
    assert(adj.m30 as int == m10 * m31 * m22 + m20 * m11 * m32 + m30 * m21 * m12 - m10 * m21 * m32 - m20 * m31 * m12 - m30 * m11 * m22);
    assert(adj.m31 as int == m00 * m21 * m32 + m20 * m31 * m02 + m30 * m01 * m22 - m00 * m31 * m22 - m20 * m01 * m32 - m30 * m21 * m02);
    assert(adj.m32 as int == m00 * m31 * m12 + m10 * m01 * m32 + m30 * m11 * m02 - m00 * m11 * m32 - m10 * m31 * m02 - m30 * m01 * m12);
    assert(adj.m33 as int == m00 * m11 * m22 + m10 * m21 * m02 + m20 * m01 * m12 - m00 * m21 * m12 - m10 * m01 * m22 - m20 * m11 * m02);
    lemma_mul_distributes_3_3(m00, m11 * m22 * m33, m21 * m32 * m13, m31 * m12 * m23, m11 * m32 * m23, m21 * m12 * m33, m31 * m22 * m13);
    assert(m00 * (m11 * m22 * m33) == m00 * m11 * m22 * m33) by (nonlinear_arith);
    assert(m00 * (m21 * m32 * m13) == m00 * m13 * m21 * m32) by (nonlinear_arith);
    assert(m00 * (m31 * m12 * m23) == m00 * m12 * m23 * m31) by (nonlinear_arith);
    assert(m00 * (m11 * m32 * m23) == m00 * m11 * m23 * m32) by (nonlinear_arith);
    assert(m00 * (m21 * m12 * m33) == m00 * m12 * m21 * m33) by (nonlinear_arith);
    assert(m00 * (m31 * m22 * m13) == m00 * m13 * m22 * m31) by (nonlinear_arith);
    lemma_mul_distributes_3_3(m01, m10 * m32 * m23, m20 * m12 * m33, m30 * m22 * m13, m10 * m22 * m33, m20 * m32 * m13, m30 * m12 * m23);
    assert(m01 * (m10 * m32 * m23) == m01 * m10 * m23 * m32) by (nonlinear_arith);
    assert(m01 * (m20 * m12 * m33) == m01 * m12 * m20 * m33) by (nonlinear_arith);
    assert(m01 * (m30 * m22 * m13) == m01 * m13 * m22 * m30) by (nonlinear_arith);
    assert(m01 * (m10 * m22 * m33) == m01 * m10 * m22 * m33) by (nonlinear_arith);
    assert(m01 * (m20 * m32 * m13) == m01 * m13 * m20 * m32) by (nonlinear_arith);
    assert(m01 * (m30 * m12 * m23) == m01 * m12 * m23 * m30) by (nonlinear_arith);
    lemma_mul_distributes_3_3(m02, m10 * m21 * m33, m20 * m31 * m13, m30 * m11 * m23, m10 * m31 * m23, m20 * m11 * m33, m30 * m21 * m13);
    assert(m02 * (m10 * m21 * m33) == m02 * m10 * m21 * m33) by (nonlinear_arith);
    assert(m02 * (m20 * m31 * m13) == m02 * m13 * m20 * m31) by (nonlinear_arith);
    assert(m02 * (m30 * m11 * m23) == m02 * m11 * m23 * m30) by (nonlinear_arith);
    assert(m02 * (m10 * m31 * m23) == m02 * m10 * m23 * m31) by (nonlinear_arith);
    assert(m02 * (m20 * m11 * m33) == m02 * m11 * m20 * m33) by (nonlinear_arith);
    assert(m02 * (m30 * m21 * m13) == m02 * m13 * m21 * m30) by (nonlinear_arith);
    lemma_mul_distributes_3_3(m03, m10 * m31 * m22, m20 * m11 * m32, m30 * m21 * m12, m10 * m21 * m32, m20 * m31 * m12, m30 * m11 * m22);
    assert(m03 * (m10 * m31 * m22) == m03 * m10 * m22 * m31) by (nonlinear_arith);
    assert(m03 * (m20 * m11 * m32) == m03 * m11 * m20 * m32) by (nonlinear_arith);
    assert(m03 * (m30 * m21 * m12) == m03 * m12 * m21 * m30) by (nonlinear_arith);
    assert(m03 * (m10 * m21 * m32) == m03 * m10 * m21 * m32) by (nonlinear_arith);
    assert(m03 * (m20 * m31 * m12) == m03 * m12 * m20 * m31) by (nonlinear_arith);
    assert(m03 * (m30 * m11 * m22) == m03 * m11 * m22 * m30) by (nonlinear_arith);
    assert((m00 * m11 * m22 * m33 + m00 * m13 * m21 * m32 + m00 * m12 * m23 * m31 - m00 * m11 * m23 * m32 - m00 * m12 * m21 * m33 - m00 * m13 * m22 * m31) + (m01 * m10 * m23 * m32 + m01 * m12 * m20 * m33 + m01 * m13 * m22 * m30 - m01 * m10 * m22 * m33 - m01 * m13 * m20 * m32 - m01 * m12 * m23 * m30) + (m02 * m10 * m21 * m33 + m02 * m13 * m20 * m31 + m02 * m11 * m23 * m30 - m02 * m10 * m23 * m31 - m02 * m11 * m20 * m33 - m02 * m13 * m21 * m30) + (m03 * m10 * m22 * m31 + m03 * m11 * m20 * m32 + m03 * m12 * m21 * m30 - m03 * m10 * m21 * m32 - m03 * m12 * m20 * m31 - m03 * m11 * m22 * m30) == m00 * m11 * m22 * m33 + m00 * m12 * m23 * m31 + m00 * m13 * m21 * m32 + m01 * m10 * m23 * m32 + m01 * m12 * m20 * m33 + m01 * m13 * m22 * m30 + m02 * m10 * m21 * m33 + m02 * m11 * m23 * m30 + m02 * m13 * m20 * m31 + m03 * m10 * m22 * m31 + m03 * m11 * m20 * m32 + m03 * m12 * m21 * m30 - m00 * m11 * m23 * m32 - m00 * m12 * m21 * m33 - m00 * m13 * m22 * m31 - m01 * m10 * m22 * m33 - m01 * m12 * m23 * m30 - m01 * m13 * m20 * m32 - m02 * m10 * m23 * m31 - m02 * m11 * m20 * m33 - m02 * m13 * m21 * m30 - m03 * m10 * m21 * m32 - m03 * m11 * m22 * m30 - m03 * m12 * m20 * m31);
    lemma_mul_distributes_3_3(m00, m01 * m32 * m23, m21 * m02 * m33, m31 * m22 * m03, m01 * m22 * m33, m21 * m32 * m03, m31 * m02 * m23);
    assert(m00 * (m01 * m32 * m23) == m00 * m01 * m23 * m32) by (nonlinear_arith);
    assert(m00 * (m21 * m02 * m33) == m00 * m02 * m21 * m33) by (nonlinear_arith);
    assert(m00 * (m31 * m22 * m03) == m00 * m03 * m22 * m31) by (nonlinear_arith);
    assert(m00 * (m01 * m22 * m33) == m00 * m01 * m22 * m33) by (nonlinear_arith);
    assert(m00 * (m21 * m32 * m03) == m00 * m03 * m21 * m32) by (nonlinear_arith);
    assert(m00 * (m31 * m02 * m23) == m00 * m02 * m23 * m31) by (nonlinear_arith);
    lemma_mul_distributes_3_3(m01, m00 * m22 * m33, m20 * m32 * m03, m30 * m02 * m23, m00 * m32 * m23, m20 * m02 * m33, m30 * m22 * m03);
    assert(m01 * (m00 * m22 * m33) == m00 * m01 * m22 * m33) by (nonlinear_arith);
    assert(m01 * (m20 * m32 * m03) == m01 * m03 * m20 * m32) by (nonlinear_arith);
    assert(m01 * (m30 * m02 * m23) == m01 * m02 * m23 * m30) by (nonlinear_arith);
    assert(m01 * (m00 * m32 * m23) == m00 * m01 * m23 * m32) by (nonlinear_arith);
    assert(m01 * (m20 * m02 * m33) == m01 * m02 * m20 * m33) by (nonlinear_arith);
    assert(m01 * (m30 * m22 * m03) == m01 * m03 * m22 * m30) by (nonlinear_arith);
    lemma_mul_distributes_3_3(m02, m00 * m31 * m23, m20 * m01 * m33, m30 * m21 * m03, m00 * m21 * m33, m20 * m31 * m03, m30 * m01 * m23);
    assert(m02 * (m00 * m31 * m23) == m00 * m02 * m23 * m31) by (nonlinear_arith);
    assert(m02 * (m20 * m01 * m33) == m01 * m02 * m20 * m33) by (nonlinear_arith);
    assert(m02 * (m30 * m21 * m03) == m02 * m03 * m21 * m30) by (nonlinear_arith);
    assert(m02 * (m00 * m21 * m33) == m00 * m02 * m21 * m33) by (nonlinear_arith);
    assert(m02 * (m20 * m31 * m03) == m02 * m03 * m20 * m31) by (nonlinear_arith);
    assert(m02 * (m30 * m01 * m23) == m01 * m02 * m23 * m30) by (nonlinear_arith);
    lemma_mul_distributes_3_3(m03, m00 * m21 * m32, m20 * m31 * m02, m30 * m01 * m22, m00 * m31 * m22, m20 * m01 * m32, m30 * m21 * m02);
    assert(m03 * (m00 * m21 * m32) == m00 * m03 * m21 * m32) by (nonlinear_arith);
    assert(m03 * (m20 * m31 * m02) == m02 * m03 * m20 * m31) by (nonlinear_arith);
    assert(m03 * (m30 * m01 * m22) == m01 * m03 * m22 * m30) by (nonlinear_arith);
    assert(m03 * (m00 * m31 * m22) == m00 * m03 * m22 * m31) by (nonlinear_arith);
    assert(m03 * (m20 * m01 * m32) == m01 * m03 * m20 * m32) by (nonlinear_arith);
    assert(m03 * (m30 * m21 * m02) == m02 * m03 * m21 * m30) by (nonlinear_arith);
    assert((m00 * m01 * m23 * m32 + m00 * m02 * m21 * m33 + m00 * m03 * m22 * m31 - m00 * m01 * m22 * m33 - m00 * m03 * m21 * m32 - m00 * m02 * m23 * m31) + (m00 * m01 * m22 * m33 + m01 * m03 * m20 * m32 + m01 * m02 * m23 * m30 - m00 * m01 * m23 * m32 - m01 * m02 * m20 * m33 - m01 * m03 * m22 * m30) + (m00 * m02 * m23 * m31 + m01 * m02 * m20 * m33 + m02 * m03 * m21 * m30 - m00 * m02 * m21 * m33 - m02 * m03 * m20 * m31 - m01 * m02 * m23 * m30) + (m00 * m03 * m21 * m32 + m02 * m03 * m20 * m31 + m01 * m03 * m22 * m30 - m00 * m03 * m22 * m31 - m01 * m03 * m20 * m32 - m02 * m03 * m21 * m30) == 0);
    lemma_mul_distributes_3_3(m00, m01 * m12 * m33, m11 * m32 * m03, m31 * m02 * m13, m01 * m32 * m13, m11 * m02 * m33, m31 * m12 * m03);
    assert(m00 * (m01 * m12 * m33) == m00 * m01 * m12 * m33) by (nonlinear_arith);
    assert(m00 * (m11 * m32 * m03) == m00 * m03 * m11 * m32) by (nonlinear_arith);
    assert(m00 * (m31 * m02 * m13) == m00 * m02 * m13 * m31) by (nonlinear_arith);
    assert(m00 * (m01 * m32 * m13) == m00 * m01 * m13 * m32) by (nonlinear_arith);
    assert(m00 * (m11 * m02 * m33) == m00 * m02 * m11 * m33) by (nonlinear_arith);
    assert(m00 * (m31 * m12 * m03) == m00 * m03 * m12 * m31) by (nonlinear_arith);
    lemma_mul_distributes_3_3(m01, m00 * m32 * m13, m10 * m02 * m33, m30 * m12 * m03, m00 * m12 * m33, m10 * m32 * m03, m30 * m02 * m13);
    assert(m01 * (m00 * m32 * m13) == m00 * m01 * m13 * m32) by (nonlinear_arith);
    assert(m01 * (m10 * m02 * m33) == m01 * m02 * m10 * m33) by (nonlinear_arith);
    assert(m01 * (m30 * m12 * m03) == m01 * m03 * m12 * m30) by (nonlinear_arith);
    assert(m01 * (m00 * m12 * m33) == m00 * m01 * m12 * m33) by (nonlinear_arith);
    assert(m01 * (m10 * m32 * m03) == m01 * m03 * m10 * m32) by (nonlinear_arith);
    assert(m01 * (m30 * m02 * m13) == m01 * m02 * m13 * m30) by (nonlinear_arith);
    lemma_mul_distributes_3_3(m02, m00 * m11 * m33, m10 * m31 * m03, m30 * m01 * m13, m00 * m31 * m13, m10 * m01 * m33, m30 * m11 * m03);
    assert(m02 * (m00 * m11 * m33) == m00 * m02 * m11 * m33) by (nonlinear_arith);
    assert(m02 * (m10 * m31 * m03) == m02 * m03 * m10 * m31) by (nonlinear_arith);
    assert(m02 * (m30 * m01 * m13) == m01 * m02 * m13 * m30) by (nonlinear_arith);
    assert(m02 * (m00 * m31 * m13) == m00 * m02 * m13 * m31) by (nonlinear_arith);
    assert(m02 * (m10 * m01 * m33) == m01 * m02 * m10 * m33) by (nonlinear_arith);
    assert(m02 * (m30 * m11 * m03) == m02 * m03 * m11 * m30) by (nonlinear_arith);
    lemma_mul_distributes_3_3(m03, m00 * m31 * m12, m10 * m01 * m32, m30 * m11 * m02, m00 * m11 * m32, m10 * m31 * m02, m30 * m01 * m12);
    assert(m03 * (m00 * m31 * m12) == m00 * m03 * m12 * m31) by (nonlinear_arith);
    assert(m03 * (m10 * m01 * m32) == m01 * m03 * m10 * m32) by (nonlinear_arith);
    assert(m03 * (m30 * m11 * m02) == m02 * m03 * m11 * m30) by (nonlinear_arith);
    assert(m03 * (m00 * m11 * m32) == m00 * m03 * m11 * m32) by (nonlinear_arith);
    assert(m03 * (m10 * m31 * m02) == m02 * m03 * m10 * m31) by (nonlinear_arith);
    assert(m03 * (m30 * m01 * m12) == m01 * m03 * m12 * m30) by (nonlinear_arith);
    assert((m00 * m01 * m12 * m33 + m00 * m03 * m11 * m32 + m00 * m02 * m13 * m31 - m00 * m01 * m13 * m32 - m00 * m02 * m11 * m33 - m00 * m03 * m12 * m31) + (m00 * m01 * m13 * m32 + m01 * m02 * m10 * m33 + m01 * m03 * m12 * m30 - m00 * m01 * m12 * m33 - m01 * m03 * m10 * m32 - m01 * m02 * m13 * m30) + (m00 * m02 * m11 * m33 + m02 * m03 * m10 * m31 + m01 * m02 * m13 * m30 - m00 * m02 * m13 * m31 - m01 * m02 * m10 * m33 - m02 * m03 * m11 * m30) + (m00 * m03 * m12 * m31 + m01 * m03 * m10 * m32 + m02 * m03 * m11 * m30 - m00 * m03 * m11 * m32 - m02 * m03 * m10 * m31 - m01 * m03 * m12 * m30) == 0);
    lemma_mul_distributes_3_3(m00, m01 * m22 * m13, m11 * m02 * m23, m21 * m12 * m03, m01 * m12 * m23, m11 * m22 * m03, m21 * m02 * m13);
    assert(m00 * (m01 * m22 * m13) == m00 * m01 * m13 * m22) by (nonlinear_arith);
    assert(m00 * (m11 * m02 * m23) == m00 * m02 * m11 * m23) by (nonlinear_arith);
    assert(m00 * (m21 * m12 * m03) == m00 * m03 * m12 * m21) by (nonlinear_arith);
    assert(m00 * (m01 * m12 * m23) == m00 * m01 * m12 * m23) by (nonlinear_arith);
    assert(m00 * (m11 * m22 * m03) == m00 * m03 * m11 * m22) by (nonlinear_arith);
    assert(m00 * (m21 * m02 * m13) == m00 * m02 * m13 * m21) by (nonlinear_arith);
    lemma_mul_distributes_3_3(m01, m00 * m12 * m23, m10 * m22 * m03, m20 * m02 * m13, m00 * m22 * m13, m10 * m02 * m23, m20 * m12 * m03);
    assert(m01 * (m00 * m12 * m23) == m00 * m01 * m12 * m23) by (nonlinear_arith);
    assert(m01 * (m10 * m22 * m03) == m01 * m03 * m10 * m22) by (nonlinear_arith);
    assert(m01 * (m20 * m02 * m13) == m01 * m02 * m13 * m20) by (nonlinear_arith);
    assert(m01 * (m00 * m22 * m13) == m00 * m01 * m13 * m22) by (nonlinear_arith);
    assert(m01 * (m10 * m02 * m23) == m01 * m02 * m10 * m23) by (nonlinear_arith);
    assert(m01 * (m20 * m12 * m03) == m01 * m03 * m12 * m20) by (nonlinear_arith);
    lemma_mul_distributes_3_3(m02, m00 * m21 * m13, m10 * m01 * m23, m20 * m11 * m03, m00 * m11 * m23, m10 * m21 * m03, m20 * m01 * m13);
    assert(m02 * (m00 * m21 * m13) == m00 * m02 * m13 * m21) by (nonlinear_arith);
    assert(m02 * (m10 * m01 * m23) == m01 * m02 * m10 * m23) by (nonlinear_arith);
    assert(m02 * (m20 * m11 * m03) == m02 * m03 * m11 * m20) by (nonlinear_arith);
    assert(m02 * (m00 * m11 * m23) == m00 * m02 * m11 * m23) by (nonlinear_arith);
    assert(m02 * (m10 * m21 * m03) == m02 * m03 * m10 * m21) by (nonlinear_arith);
    assert(m02 * (m20 * m01 * m13) == m01 * m02 * m13 * m20) by (nonlinear_arith);
    lemma_mul_distributes_3_3(m03, m00 * m11 * m22, m10 * m21 * m02, m20 * m01 * m12, m00 * m21 * m12, m10 * m01 * m22, m20 * m11 * m02);
    assert(m03 * (m00 * m11 * m22) == m00 * m03 * m11 * m22) by (nonlinear_arith);
    assert(m03 * (m10 * m21 * m02) == m02 * m03 * m10 * m21) by (nonlinear_arith);
    assert(m03 * (m20 * m01 * m12) == m01 * m03 * m12 * m20) by (nonlinear_arith);
    assert(m03 * (m00 * m21 * m12) == m00 * m03 * m12 * m21) by (nonlinear_arith);
    assert(m03 * (m10 * m01 * m22) == m01 * m03 * m10 * m22) by (nonlinear_arith);
    assert(m03 * (m20 * m11 * m02) == m02 * m03 * m11 * m20) by (nonlinear_arith);
    assert((m00 * m01 * m13 * m22 + m00 * m02 * m11 * m23 + m00 * m03 * m12 * m21 - m00 * m01 * m12 * m23 - m00 * m03 * m11 * m22 - m00 * m02 * m13 * m21) + (m00 * m01 * m12 * m23 + m01 * m03 * m10 * m22 + m01 * m02 * m13 * m20 - m00 * m01 * m13 * m22 - m01 * m02 * m10 * m23 - m01 * m03 * m12 * m20) + (m00 * m02 * m13 * m21 + m01 * m02 * m10 * m23 + m02 * m03 * m11 * m20 - m00 * m02 * m11 * m23 - m02 * m03 * m10 * m21 - m01 * m02 * m13 * m20) + (m00 * m03 * m11 * m22 + m02 * m03 * m10 * m21 + m01 * m03 * m12 * m20 - m00 * m03 * m12 * m21 - m01 * m03 * m10 * m22 - m02 * m03 * m11 * m20) == 0);
    lemma_mul_distributes_3_3(m10, m11 * m22 * m33, m21 * m32 * m13, m31 * m12 * m23, m11 * m32 * m23, m21 * m12 * m33, m31 * m22 * m13);
    assert(m10 * (m11 * m22 * m33) == m10 * m11 * m22 * m33) by (nonlinear_arith);
    assert(m10 * (m21 * m32 * m13) == m10 * m13 * m21 * m32) by (nonlinear_arith);
    assert(m10 * (m31 * m12 * m23) == m10 * m12 * m23 * m31) by (nonlinear_arith);
    assert(m10 * (m11 * m32 * m23) == m10 * m11 * m23 * m32) by (nonlinear_arith);
    assert(m10 * (m21 * m12 * m33) == m10 * m12 * m21 * m33) by (nonlinear_arith);
    assert(m10 * (m31 * m22 * m13) == m10 * m13 * m22 * m31) by (nonlinear_arith);
    lemma_mul_distributes_3_3(m11, m10 * m32 * m23, m20 * m12 * m33, m30 * m22 * m13, m10 * m22 * m33, m20 * m32 * m13, m30 * m12 * m23);
    assert(m11 * (m10 * m32 * m23) == m10 * m11 * m23 * m32) by (nonlinear_arith);
    assert(m11 * (m20 * m12 * m33) == m11 * m12 * m20 * m33) by (nonlinear_arith);
    assert(m11 * (m30 * m22 * m13) == m11 * m13 * m22 * m30) by (nonlinear_arith);
    assert(m11 * (m10 * m22 * m33) == m10 * m11 * m22 * m33) by (nonlinear_arith);
    assert(m11 * (m20 * m32 * m13) == m11 * m13 * m20 * m32) by (nonlinear_arith);
    assert(m11 * (m30 * m12 * m23) == m11 * m12 * m23 * m30) by (nonlinear_arith);
    lemma_mul_distributes_3_3(m12, m10 * m21 * m33, m20 * m31 * m13, m30 * m11 * m23, m10 * m31 * m23, m20 * m11 * m33, m30 * m21 * m13);
    assert(m12 * (m10 * m21 * m33) == m10 * m12 * m21 * m33) by (nonlinear_arith);
    assert(m12 * (m20 * m31 * m13) == m12 * m13 * m20 * m31) by (nonlinear_arith);
    assert(m12 * (m30 * m11 * m23) == m11 * m12 * m23 * m30) by (nonlinear_arith);
    assert(m12 * (m10 * m31 * m23) == m10 * m12 * m23 * m31) by (nonlinear_arith);
    assert(m12 * (m20 * m11 * m33) == m11 * m12 * m20 * m33) by (nonlinear_arith);
    assert(m12 * (m30 * m21 * m13) == m12 * m13 * m21 * m30) by (nonlinear_arith);
    lemma_mul_distributes_3_3(m13, m10 * m31 * m22, m20 * m11 * m32, m30 * m21 * m12, m10 * m21 * m32, m20 * m31 * m12, m30 * m11 * m22);
    assert(m13 * (m10 * m31 * m22) == m10 * m13 * m22 * m31) by (nonlinear_arith);
    assert(m13 * (m20 * m11 * m32) == m11 * m13 * m20 * m32) by (nonlinear_arith);
    assert(m13 * (m30 * m21 * m12) == m12 * m13 * m21 * m30) by (nonlinear_arith);
    assert(m13 * (m10 * m21 * m32) == m10 * m13 * m21 * m32) by (nonlinear_arith);
    assert(m13 * (m20 * m31 * m12) == m12 * m13 * m20 * m31) by (nonlinear_arith);
    assert(m13 * (m30 * m11 * m22) == m11 * m13 * m22 * m30) by (nonlinear_arith);
    assert((m10 * m11 * m22 * m33 + m10 * m13 * m21 * m32 + m10 * m12 * m23 * m31 - m10 * m11 * m23 * m32 - m10 * m12 * m21 * m33 - m10 * m13 * m22 * m31) + (m10 * m11 * m23 * m32 + m11 * m12 * m20 * m33 + m11 * m13 * m22 * m30 - m10 * m11 * m22 * m33 - m11 * m13 * m20 * m32 - m11 * m12 * m23 * m30) + (m10 * m12 * m21 * m33 + m12 * m13 * m20 * m31 + m11 * m12 * m23 * m30 - m10 * m12 * m23 * m31 - m11 * m12 * m20 * m33 - m12 * m13 * m21 * m30) + (m10 * m13 * m22 * m31 + m11 * m13 * m20 * m32 + m12 * m13 * m21 * m30 - m10 * m13 * m21 * m32 - m12 * m13 * m20 * m31 - m11 * m13 * m22 * m30) == 0);
    lemma_mul_distributes_3_3(m10, m01 * m32 * m23, m21 * m02 * m33, m31 * m22 * m03, m01 * m22 * m33, m21 * m32 * m03, m31 * m02 * m23);
    assert(m10 * (m01 * m32 * m23) == m01 * m10 * m23 * m32) by (nonlinear_arith);
    assert(m10 * (m21 * m02 * m33) == m02 * m10 * m21 * m33) by (nonlinear_arith);
    assert(m10 * (m31 * m22 * m03) == m03 * m10 * m22 * m31) by (nonlinear_arith);
    assert(m10 * (m01 * m22 * m33) == m01 * m10 * m22 * m33) by (nonlinear_arith);
    assert(m10 * (m21 * m32 * m03) == m03 * m10 * m21 * m32) by (nonlinear_arith);
    assert(m10 * (m31 * m02 * m23) == m02 * m10 * m23 * m31) by (nonlinear_arith);
    lemma_mul_distributes_3_3(m11, m00 * m22 * m33, m20 * m32 * m03, m30 * m02 * m23, m00 * m32 * m23, m20 * m02 * m33, m30 * m22 * m03);
    assert(m11 * (m00 * m22 * m33) == m00 * m11 * m22 * m33) by (nonlinear_arith);
    assert(m11 * (m20 * m32 * m03) == m03 * m11 * m20 * m32) by (nonlinear_arith);
    assert(m11 * (m30 * m02 * m23) == m02 * m11 * m23 * m30) by (nonlinear_arith);
    assert(m11 * (m00 * m32 * m23) == m00 * m11 * m23 * m32) by (nonlinear_arith);
    assert(m11 * (m20 * m02 * m33) == m02 * m11 * m20 * m33) by (nonlinear_arith);
    assert(m11 * (m30 * m22 * m03) == m03 * m11 * m22 * m30) by (nonlinear_arith);
    lemma_mul_distributes_3_3(m12, m00 * m31 * m23, m20 * m01 * m33, m30 * m21 * m03, m00 * m21 * m33, m20 * m31 * m03, m30 * m01 * m23);
    assert(m12 * (m00 * m31 * m23) == m00 * m12 * m23 * m31) by (nonlinear_arith);
    assert(m12 * (m20 * m01 * m33) == m01 * m12 * m20 * m33) by (nonlinear_arith);
    assert(m12 * (m30 * m21 * m03) == m03 * m12 * m21 * m30) by (nonlinear_arith);
    assert(m12 * (m00 * m21 * m33) == m00 * m12 * m21 * m33) by (nonlinear_arith);
    assert(m12 * (m20 * m31 * m03) == m03 * m12 * m20 * m31) by (nonlinear_arith);
    assert(m12 * (m30 * m01 * m23) == m01 * m12 * m23 * m30) by (nonlinear_arith);
    lemma_mul_distributes_3_3(m13, m00 * m21 * m32, m20 * m31 * m02, m30 * m01 * m22, m00 * m31 * m22, m20 * m01 * m32, m30 * m21 * m02);
    assert(m13 * (m00 * m21 * m32) == m00 * m13 * m21 * m32) by (nonlinear_arith);
    assert(m13 * (m20 * m31 * m02) == m02 * m13 * m20 * m31) by (nonlinear_arith);
    assert(m13 * (m30 * m01 * m22) == m01 * m13 * m22 * m30) by (nonlinear_arith);
    assert(m13 * (m00 * m31 * m22) == m00 * m13 * m22 * m31) by (nonlinear_arith);
    assert(m13 * (m20 * m01 * m32) == m01 * m13 * m20 * m32) by (nonlinear_arith);
    assert(m13 * (m30 * m21 * m02) == m02 * m13 * m21 * m30) by (nonlinear_arith);
    assert((m01 * m10 * m23 * m32 + m02 * m10 * m21 * m33 + m03 * m10 * m22 * m31 - m01 * m10 * m22 * m33 - m03 * m10 * m21 * m32 - m02 * m10 * m23 * m31) + (m00 * m11 * m22 * m33 + m03 * m11 * m20 * m32 + m02 * m11 * m23 * m30 - m00 * m11 * m23 * m32 - m02 * m11 * m20 * m33 - m03 * m11 * m22 * m30) + (m00 * m12 * m23 * m31 + m01 * m12 * m20 * m33 + m03 * m12 * m21 * m30 - m00 * m12 * m21 * m33 - m03 * m12 * m20 * m31 - m01 * m12 * m23 * m30) + (m00 * m13 * m21 * m32 + m02 * m13 * m20 * m31 + m01 * m13 * m22 * m30 - m00 * m13 * m22 * m31 - m01 * m13 * m20 * m32 - m02 * m13 * m21 * m30) == m00 * m11 * m22 * m33 + m00 * m12 * m23 * m31 + m00 * m13 * m21 * m32 + m01 * m10 * m23 * m32 + m01 * m12 * m20 * m33 + m01 * m13 * m22 * m30 + m02 * m10 * m21 * m33 + m02 * m11 * m23 * m30 + m02 * m13 * m20 * m31 + m03 * m10 * m22 * m31 + m03 * m11 * m20 * m32 + m03 * m12 * m21 * m30 - m00 * m11 * m23 * m32 - m00 * m12 * m21 * m33 - m00 * m13 * m22 * m31 - m01 * m10 * m22 * m33 - m01 * m12 * m23 * m30 - m01 * m13 * m20 * m32 - m02 * m10 * m23 * m31 - m02 * m11 * m20 * m33 - m02 * m13 * m21 * m30 - m03 * m10 * m21 * m32 - m03 * m11 * m22 * m30 - m03 * m12 * m20 * m31);
    lemma_mul_distributes_3_3(m10, m01 * m12 * m33, m11 * m32 * m03, m31 * m02 * m13, m01 * m32 * m13, m11 * m02 * m33, m31 * m12 * m03);
    assert(m10 * (m01 * m12 * m33) == m01 * m10 * m12 * m33) by (nonlinear_arith);
    assert(m10 * (m11 * m32 * m03) == m03 * m10 * m11 * m32) by (nonlinear_arith);
    assert(m10 * (m31 * m02 * m13) == m02 * m10 * m13 * m31) by (nonlinear_arith);
    assert(m10 * (m01 * m32 * m13) == m01 * m10 * m13 * m32) by (nonlinear_arith);
    assert(m10 * (m11 * m02 * m33) == m02 * m10 * m11 * m33) by (nonlinear_arith);
    assert(m10 * (m31 * m12 * m03) == m03 * m10 * m12 * m31) by (nonlinear_arith);
    lemma_mul_distributes_3_3(m11, m00 * m32 * m13, m10 * m02 * m33, m30 * m12 * m03, m00 * m12 * m33, m10 * m32 * m03, m30 * m02 * m13);
    assert(m11 * (m00 * m32 * m13) == m00 * m11 * m13 * m32) by (nonlinear_arith);
    assert(m11 * (m10 * m02 * m33) == m02 * m10 * m11 * m33) by (nonlinear_arith);
    assert(m11 * (m30 * m12 * m03) == m03 * m11 * m12 * m30) by (nonlinear_arith);
    assert(m11 * (m00 * m12 * m33) == m00 * m11 * m12 * m33) by (nonlinear_arith);
    assert(m11 * (m10 * m32 * m03) == m03 * m10 * m11 * m32) by (nonlinear_arith);
    assert(m11 * (m30 * m02 * m13) == m02 * m11 * m13 * m30) by (nonlinear_arith);
    lemma_mul_distributes_3_3(m12, m00 * m11 * m33, m10 * m31 * m03, m30 * m01 * m13, m00 * m31 * m13, m10 * m01 * m33, m30 * m11 * m03);
    assert(m12 * (m00 * m11 * m33) == m00 * m11 * m12 * m33) by (nonlinear_arith);
    assert(m12 * (m10 * m31 * m03) == m03 * m10 * m12 * m31) by (nonlinear_arith);
    assert(m12 * (m30 * m01 * m13) == m01 * m12 * m13 * m30) by (nonlinear_arith);
    assert(m12 * (m00 * m31 * m13) == m00 * m12 * m13 * m31) by (nonlinear_arith);
    assert(m12 * (m10 * m01 * m33) == m01 * m10 * m12 * m33) by (nonlinear_arith);
    assert(m12 * (m30 * m11 * m03) == m03 * m11 * m12 * m30) by (nonlinear_arith);
    lemma_mul_distributes_3_3(m13, m00 * m31 * m12, m10 * m01 * m32, m30 * m11 * m02, m00 * m11 * m32, m10 * m31 * m02, m30 * m01 * m12);
    assert(m13 * (m00 * m31 * m12) == m00 * m12 * m13 * m31) by (nonlinear_arith);
    assert(m13 * (m10 * m01 * m32) == m01 * m10 * m13 * m32) by (nonlinear_arith);
    assert(m13 * (m30 * m11 * m02) == m02 * m11 * m13 * m30) by (nonlinear_arith);
    assert(m13 * (m00 * m11 * m32) == m00 * m11 * m13 * m32) by (nonlinear_arith);
    assert(m13 * (m10 * m31 * m02) == m02 * m10 * m13 * m31) by (nonlinear_arith);
    assert(m13 * (m30 * m01 * m12) == m01 * m12 * m13 * m30) by (nonlinear_arith);
    assert((m01 * m10 * m12 * m33 + m03 * m10 * m11 * m32 + m02 * m10 * m13 * m31 - m01 * m10 * m13 * m32 - m02 * m10 * m11 * m33 - m03 * m10 * m12 * m31) + (m00 * m11 * m13 * m32 + m02 * m10 * m11 * m33 + m03 * m11 * m12 * m30 - m00 * m11 * m12 * m33 - m03 * m10 * m11 * m32 - m02 * m11 * m13 * m30) + (m00 * m11 * m12 * m33 + m03 * m10 * m12 * m31 + m01 * m12 * m13 * m30 - m00 * m12 * m13 * m31 - m01 * m10 * m12 * m33 - m03 * m11 * m12 * m30) + (m00 * m12 * m13 * m31 + m01 * m10 * m13 * m32 + m02 * m11 * m13 * m30 - m00 * m11 * m13 * m32 - m02 * m10 * m13 * m31 - m01 * m12 * m13 * m30) == 0);
    lemma_mul_distributes_3_3(m10, m01 * m22 * m13, m11 * m02 * m23, m21 * m12 * m03, m01 * m12 * m23, m11 * m22 * m03, m21 * m02 * m13);
    assert(m10 * (m01 * m22 * m13) == m01 * m10 * m13 * m22) by (nonlinear_arith);
    assert(m10 * (m11 * m02 * m23) == m02 * m10 * m11 * m23) by (nonlinear_arith);
    assert(m10 * (m21 * m12 * m03) == m03 * m10 * m12 * m21) by (nonlinear_arith);
    assert(m10 * (m01 * m12 * m23) == m01 * m10 * m12 * m23) by (nonlinear_arith);
    assert(m10 * (m11 * m22 * m03) == m03 * m10 * m11 * m22) by (nonlinear_arith);
    assert(m10 * (m21 * m02 * m13) == m02 * m10 * m13 * m21) by (nonlinear_arith);
    lemma_mul_distributes_3_3(m11, m00 * m12 * m23, m10 * m22 * m03, m20 * m02 * m13, m00 * m22 * m13, m10 * m02 * m23, m20 * m12 * m03);
    assert(m11 * (m00 * m12 * m23) == m00 * m11 * m12 * m23) by (nonlinear_arith);
    assert(m11 * (m10 * m22 * m03) == m03 * m10 * m11 * m22) by (nonlinear_arith);
    assert(m11 * (m20 * m02 * m13) == m02 * m11 * m13 * m20) by (nonlinear_arith);
    assert(m11 * (m00 * m22 * m13) == m00 * m11 * m13 * m22) by (nonlinear_arith);
    assert(m11 * (m10 * m02 * m23) == m02 * m10 * m11 * m23) by (nonlinear_arith);
    assert(m11 * (m20 * m12 * m03) == m03 * m11 * m12 * m20) by (nonlinear_arith);
    lemma_mul_distributes_3_3(m12, m00 * m21 * m13, m10 * m01 * m23, m20 * m11 * m03, m00 * m11 * m23, m10 * m21 * m03, m20 * m01 * m13);
    assert(m12 * (m00 * m21 * m13) == m00 * m12 * m13 * m21) by (nonlinear_arith);
    assert(m12 * (m10 * m01 * m23) == m01 * m10 * m12 * m23) by (nonlinear_arith);
    assert(m12 * (m20 * m11 * m03) == m03 * m11 * m12 * m20) by (nonlinear_arith);
    assert(m12 * (m00 * m11 * m23) == m00 * m11 * m12 * m23) by (nonlinear_arith);
    assert(m12 * (m10 * m21 * m03) == m03 * m10 * m12 * m21) by (nonlinear_arith);
    assert(m12 * (m20 * m01 * m13) == m01 * m12 * m13 * m20) by (nonlinear_arith);
    lemma_mul_distributes_3_3(m13, m00 * m11 * m22, m10 * m21 * m02, m20 * m01 * m12, m00 * m21 * m12, m10 * m01 * m22, m20 * m11 * m02);
    assert(m13 * (m00 * m11 * m22) == m00 * m11 * m13 * m22) by (nonlinear_arith);
    assert(m13 * (m10 * m21 * m02) == m02 * m10 * m13 * m21) by (nonlinear_arith);
    assert(m13 * (m20 * m01 * m12) == m01 * m12 * m13 * m20) by (nonlinear_arith);
    assert(m13 * (m00 * m21 * m12) == m00 * m12 * m13 * m21) by (nonlinear_arith);
    assert(m13 * (m10 * m01 * m22) == m01 * m10 * m13 * m22) by (nonlinear_arith);
    assert(m13 * (m20 * m11 * m02) == m02 * m11 * m13 * m20) by (nonlinear_arith);
    assert((m01 * m10 * m13 * m22 + m02 * m10 * m11 * m23 + m03 * m10 * m12 * m21 - m01 * m10 * m12 * m23 - m03 * m10 * m11 * m22 - m02 * m10 * m13 * m21) + (m00 * m11 * m12 * m23 + m03 * m10 * m11 * m22 + m02 * m11 * m13 * m20 - m00 * m11 * m13 * m22 - m02 * m10 * m11 * m23 - m03 * m11 * m12 * m20) + (m00 * m12 * m13 * m21 + m01 * m10 * m12 * m23 + m03 * m11 * m12 * m20 - m00 * m11 * m12 * m23 - m03 * m10 * m12 * m21 - m01 * m12 * m13 * m20) + (m00 * m11 * m13 * m22 + m02 * m10 * m13 * m21 + m01 * m12 * m13 * m20 - m00 * m12 * m13 * m21 - m01 * m10 * m13 * m22 - m02 * m11 * m13 * m20) == 0);
    lemma_mul_distributes_3_3(m20, m11 * m22 * m33, m21 * m32 * m13, m31 * m12 * m23, m11 * m32 * m23, m21 * m12 * m33, m31 * m22 * m13);
    assert(m20 * (m11 * m22 * m33) == m11 * m20 * m22 * m33) by (nonlinear_arith);
    assert(m20 * (m21 * m32 * m13) == m13 * m20 * m21 * m32) by (nonlinear_arith);
    assert(m20 * (m31 * m12 * m23) == m12 * m20 * m23 * m31) by (nonlinear_arith);
    assert(m20 * (m11 * m32 * m23) == m11 * m20 * m23 * m32) by (nonlinear_arith);
    assert(m20 * (m21 * m12 * m33) == m12 * m20 * m21 * m33) by (nonlinear_arith);
    assert(m20 * (m31 * m22 * m13) == m13 * m20 * m22 * m31) by (nonlinear_arith);
    lemma_mul_distributes_3_3(m21, m10 * m32 * m23, m20 * m12 * m33, m30 * m22 * m13, m10 * m22 * m33, m20 * m32 * m13, m30 * m12 * m23);
    assert(m21 * (m10 * m32 * m23) == m10 * m21 * m23 * m32) by (nonlinear_arith);
    assert(m21 * (m20 * m12 * m33) == m12 * m20 * m21 * m33) by (nonlinear_arith);
    assert(m21 * (m30 * m22 * m13) == m13 * m21 * m22 * m30) by (nonlinear_arith);
    assert(m21 * (m10 * m22 * m33) == m10 * m21 * m22 * m33) by (nonlinear_arith);
    assert(m21 * (m20 * m32 * m13) == m13 * m20 * m21 * m32) by (nonlinear_arith);
    assert(m21 * (m30 * m12 * m23) == m12 * m21 * m23 * m30) by (nonlinear_arith);
    lemma_mul_distributes_3_3(m22, m10 * m21 * m33, m20 * m31 * m13, m30 * m11 * m23, m10 * m31 * m23, m20 * m11 * m33, m30 * m21 * m13);
    assert(m22 * (m10 * m21 * m33) == m10 * m21 * m22 * m33) by (nonlinear_arith);
    assert(m22 * (m20 * m31 * m13) == m13 * m20 * m22 * m31) by (nonlinear_arith);
    assert(m22 * (m30 * m11 * m23) == m11 * m22 * m23 * m30) by (nonlinear_arith);
    assert(m22 * (m10 * m31 * m23) == m10 * m22 * m23 * m31) by (nonlinear_arith);
    assert(m22 * (m20 * m11 * m33) == m11 * m20 * m22 * m33) by (nonlinear_arith);
    assert(m22 * (m30 * m21 * m13) == m13 * m21 * m22 * m30) by (nonlinear_arith);
    lemma_mul_distributes_3_3(m23, m10 * m31 * m22, m20 * m11 * m32, m30 * m21 * m12, m10 * m21 * m32, m20 * m31 * m12, m30 * m11 * m22);
    assert(m23 * (m10 * m31 * m22) == m10 * m22 * m23 * m31) by (nonlinear_arith);
    assert(m23 * (m20 * m11 * m32) == m11 * m20 * m23 * m32) by (nonlinear_arith);
    assert(m23 * (m30 * m21 * m12) == m12 * m21 * m23 * m30) by (nonlinear_arith);
    assert(m23 * (m10 * m21 * m32) == m10 * m21 * m23 * m32) by (nonlinear_arith);
    assert(m23 * (m20 * m31 * m12) == m12 * m20 * m23 * m31) by (nonlinear_arith);
    assert(m23 * (m30 * m11 * m22) == m11 * m22 * m23 * m30) by (nonlinear_arith);
    assert((m11 * m20 * m22 * m33 + m13 * m20 * m21 * m32 + m12 * m20 * m23 * m31 - m11 * m20 * m23 * m32 - m12 * m20 * m21 * m33 - m13 * m20 * m22 * m31) + (m10 * m21 * m23 * m32 + m12 * m20 * m21 * m33 + m13 * m21 * m22 * m30 - m10 * m21 * m22 * m33 - m13 * m20 * m21 * m32 - m12 * m21 * m23 * m30) + (m10 * m21 * m22 * m33 + m13 * m20 * m22 * m31 + m11 * m22 * m23 * m30 - m10 * m22 * m23 * m31 - m11 * m20 * m22 * m33 - m13 * m21 * m22 * m30) + (m10 * m22 * m23 * m31 + m11 * m20 * m23 * m32 + m12 * m21 * m23 * m30 - m10 * m21 * m23 * m32 - m12 * m20 * m23 * m31 - m11 * m22 * m23 * m30) == 0);
    lemma_mul_distributes_3_3(m20, m01 * m32 * m23, m21 * m02 * m33, m31 * m22 * m03, m01 * m22 * m33, m21 * m32 * m03, m31 * m02 * m23);
    assert(m20 * (m01 * m32 * m23) == m01 * m20 * m23 * m32) by (nonlinear_arith);
    assert(m20 * (m21 * m02 * m33) == m02 * m20 * m21 * m33) by (nonlinear_arith);
    assert(m20 * (m31 * m22 * m03) == m03 * m20 * m22 * m31) by (nonlinear_arith);
    assert(m20 * (m01 * m22 * m33) == m01 * m20 * m22 * m33) by (nonlinear_arith);
    assert(m20 * (m21 * m32 * m03) == m03 * m20 * m21 * m32) by (nonlinear_arith);
    assert(m20 * (m31 * m02 * m23) == m02 * m20 * m23 * m31) by (nonlinear_arith);
    lemma_mul_distributes_3_3(m21, m00 * m22 * m33, m20 * m32 * m03, m30 * m02 * m23, m00 * m32 * m23, m20 * m02 * m33, m30 * m22 * m03);
    assert(m21 * (m00 * m22 * m33) == m00 * m21 * m22 * m33) by (nonlinear_arith);
    assert(m21 * (m20 * m32 * m03) == m03 * m20 * m21 * m32) by (nonlinear_arith);
    assert(m21 * (m30 * m02 * m23) == m02 * m21 * m23 * m30) by (nonlinear_arith);
    assert(m21 * (m00 * m32 * m23) == m00 * m21 * m23 * m32) by (nonlinear_arith);
    assert(m21 * (m20 * m02 * m33) == m02 * m20 * m21 * m33) by (nonlinear_arith);
    assert(m21 * (m30 * m22 * m03) == m03 * m21 * m22 * m30) by (nonlinear_arith);
    lemma_mul_distributes_3_3(m22, m00 * m31 * m23, m20 * m01 * m33, m30 * m21 * m03, m00 * m21 * m33, m20 * m31 * m03, m30 * m01 * m23);
    assert(m22 * (m00 * m31 * m23) == m00 * m22 * m23 * m31) by (nonlinear_arith);
    assert(m22 * (m20 * m01 * m33) == m01 * m20 * m22 * m33) by (nonlinear_arith);
    assert(m22 * (m30 * m21 * m03) == m03 * m21 * m22 * m30) by (nonlinear_arith);
    assert(m22 * (m00 * m21 * m33) == m00 * m21 * m22 * m33) by (nonlinear_arith);
    assert(m22 * (m20 * m31 * m03) == m03 * m20 * m22 * m31) by (nonlinear_arith);
    assert(m22 * (m30 * m01 * m23) == m01 * m22 * m23 * m30) by (nonlinear_arith);
    lemma_mul_distributes_3_3(m23, m00 * m21 * m32, m20 * m31 * m02, m30 * m01 * m22, m00 * m31 * m22, m20 * m01 * m32, m30 * m21 * m02);
    assert(m23 * (m00 * m21 * m32) == m00 * m21 * m23 * m32) by (nonlinear_arith);
    assert(m23 * (m20 * m31 * m02) == m02 * m20 * m23 * m31) by (nonlinear_arith);
    assert(m23 * (m30 * m01 * m22) == m01 * m22 * m23 * m30) by (nonlinear_arith);
    assert(m23 * (m00 * m31 * m22) == m00 * m22 * m23 * m31) by (nonlinear_arith);
    assert(m23 * (m20 * m01 * m32) == m01 * m20 * m23 * m32) by (nonlinear_arith);
    assert(m23 * (m30 * m21 * m02) == m02 * m21 * m23 * m30) by (nonlinear_arith);
    assert((m01 * m20 * m23 * m32 + m02 * m20 * m21 * m33 + m03 * m20 * m22 * m31 - m01 * m20 * m22 * m33 - m03 * m20 * m21 * m32 - m02 * m20 * m23 * m31) + (m00 * m21 * m22 * m33 + m03 * m20 * m21 * m32 + m02 * m21 * m23 * m30 - m00 * m21 * m23 * m32 - m02 * m20 * m21 * m33 - m03 * m21 * m22 * m30) + (m00 * m22 * m23 * m31 + m01 * m20 * m22 * m33 + m03 * m21 * m22 * m30 - m00 * m21 * m22 * m33 - m03 * m20 * m22 * m31 - m01 * m22 * m23 * m30) + (m00 * m21 * m23 * m32 + m02 * m20 * m23 * m31 + m01 * m22 * m23 * m30 - m00 * m22 * m23 * m31 - m01 * m20 * m23 * m32 - m02 * m21 * m23 * m30) == 0);
    lemma_mul_distributes_3_3(m20, m01 * m12 * m33, m11 * m32 * m03, m31 * m02 * m13, m01 * m32 * m13, m11 * m02 * m33, m31 * m12 * m03);
    assert(m20 * (m01 * m12 * m33) == m01 * m12 * m20 * m33) by (nonlinear_arith);
    assert(m20 * (m11 * m32 * m03) == m03 * m11 * m20 * m32) by (nonlinear_arith);
    assert(m20 * (m31 * m02 * m13) == m02 * m13 * m20 * m31) by (nonlinear_arith);
    assert(m20 * (m01 * m32 * m13) == m01 * m13 * m20 * m32) by (nonlinear_arith);
    assert(m20 * (m11 * m02 * m33) == m02 * m11 * m20 * m33) by (nonlinear_arith);
    assert(m20 * (m31 * m12 * m03) == m03 * m12 * m20 * m31) by (nonlinear_arith);
    lemma_mul_distributes_3_3(m21, m00 * m32 * m13, m10 * m02 * m33, m30 * m12 * m03, m00 * m12 * m33, m10 * m32 * m03, m30 * m02 * m13);
    assert(m21 * (m00 * m32 * m13) == m00 * m13 * m21 * m32) by (nonlinear_arith);
    assert(m21 * (m10 * m02 * m33) == m02 * m10 * m21 * m33) by (nonlinear_arith);
    assert(m21 * (m30 * m12 * m03) == m03 * m12 * m21 * m30) by (nonlinear_arith);
    assert(m21 * (m00 * m12 * m33) == m00 * m12 * m21 * m33) by (nonlinear_arith);
    assert(m21 * (m10 * m32 * m03) == m03 * m10 * m21 * m32) by (nonlinear_arith);
    assert(m21 * (m30 * m02 * m13) == m02 * m13 * m21 * m30) by (nonlinear_arith);
    lemma_mul_distributes_3_3(m22, m00 * m11 * m33, m10 * m31 * m03, m30 * m01 * m13, m00 * m31 * m13, m10 * m01 * m33, m30 * m11 * m03);
    assert(m22 * (m00 * m11 * m33) == m00 * m11 * m22 * m33) by (nonlinear_arith);
    assert(m22 * (m10 * m31 * m03) == m03 * m10 * m22 * m31) by (nonlinear_arith);
    assert(m22 * (m30 * m01 * m13) == m01 * m13 * m22 * m30) by (nonlinear_arith);
    assert(m22 * (m00 * m31 * m13) == m00 * m13 * m22 * m31) by (nonlinear_arith);
    assert(m22 * (m10 * m01 * m33) == m01 * m10 * m22 * m33) by (nonlinear_arith);
    assert(m22 * (m30 * m11 * m03) == m03 * m11 * m22 * m30) by (nonlinear_arith);
    lemma_mul_distributes_3_3(m23, m00 * m31 * m12, m10 * m01 * m32, m30 * m11 * m02, m00 * m11 * m32, m10 * m31 * m02, m30 * m01 * m12);
    assert(m23 * (m00 * m31 * m12) == m00 * m12 * m23 * m31) by (nonlinear_arith);
    assert(m23 * (m10 * m01 * m32) == m01 * m10 * m23 * m32) by (nonlinear_arith);
    assert(m23 * (m30 * m11 * m02) == m02 * m11 * m23 * m30) by (nonlinear_arith);
    assert(m23 * (m00 * m11 * m32) == m00 * m11 * m23 * m32) by (nonlinear_arith);
    assert(m23 * (m10 * m31 * m02) == m02 * m10 * m23 * m31) by (nonlinear_arith);
    assert(m23 * (m30 * m01 * m12) == m01 * m12 * m23 * m30) by (nonlinear_arith);
    assert((m01 * m12 * m20 * m33 + m03 * m11 * m20 * m32 + m02 * m13 * m20 * m31 - m01 * m13 * m20 * m32 - m02 * m11 * m20 * m33 - m03 * m12 * m20 * m31) + (m00 * m13 * m21 * m32 + m02 * m10 * m21 * m33 + m03 * m12 * m21 * m30 - m00 * m12 * m21 * m33 - m03 * m10 * m21 * m32 - m02 * m13 * m21 * m30) + (m00 * m11 * m22 * m33 + m03 * m10 * m22 * m31 + m01 * m13 * m22 * m30 - m00 * m13 * m22 * m31 - m01 * m10 * m22 * m33 - m03 * m11 * m22 * m30) + (m00 * m12 * m23 * m31 + m01 * m10 * m23 * m32 + m02 * m11 * m23 * m30 - m00 * m11 * m23 * m32 - m02 * m10 * m23 * m31 - m01 * m12 * m23 * m30) == m00 * m11 * m22 * m33 + m00 * m12 * m23 * m31 + m00 * m13 * m21 * m32 + m01 * m10 * m23 * m32 + m01 * m12 * m20 * m33 + m01 * m13 * m22 * m30 + m02 * m10 * m21 * m33 + m02 * m11 * m23 * m30 + m02 * m13 * m20 * m31 + m03 * m10 * m22 * m31 + m03 * m11 * m20 * m32 + m03 * m12 * m21 * m30 - m00 * m11 * m23 * m32 - m00 * m12 * m21 * m33 - m00 * m13 * m22 * m31 - m01 * m10 * m22 * m33 - m01 * m12 * m23 * m30 - m01 * m13 * m20 * m32 - m02 * m10 * m23 * m31 - m02 * m11 * m20 * m33 - m02 * m13 * m21 * m30 - m03 * m10 * m21 * m32 - m03 * m11 * m22 * m30 - m03 * m12 * m20 * m31);
    lemma_mul_distributes_3_3(m20, m01 * m22 * m13, m11 * m02 * m23, m21 * m12 * m03, m01 * m12 * m23, m11 * m22 * m03, m21 * m02 * m13);
    assert(m20 * (m01 * m22 * m13) == m01 * m13 * m20 * m22) by (nonlinear_arith);
    assert(m20 * (m11 * m02 * m23) == m02 * m11 * m20 * m23) by (nonlinear_arith);
    assert(m20 * (m21 * m12 * m03) == m03 * m12 * m20 * m21) by (nonlinear_arith);
    assert(m20 * (m01 * m12 * m23) == m01 * m12 * m20 * m23) by (nonlinear_arith);
    assert(m20 * (m11 * m22 * m03) == m03 * m11 * m20 * m22) by (nonlinear_arith);
    assert(m20 * (m21 * m02 * m13) == m02 * m13 * m20 * m21) by (nonlinear_arith);
    lemma_mul_distributes_3_3(m21, m00 * m12 * m23, m10 * m22 * m03, m20 * m02 * m13, m00 * m22 * m13, m10 * m02 * m23, m20 * m12 * m03);
    assert(m21 * (m00 * m12 * m23) == m00 * m12 * m21 * m23) by (nonlinear_arith);
    assert(m21 * (m10 * m22 * m03) == m03 * m10 * m21 * m22) by (nonlinear_arith);
    assert(m21 * (m20 * m02 * m13) == m02 * m13 * m20 * m21) by (nonlinear_arith);
    assert(m21 * (m00 * m22 * m13) == m00 * m13 * m21 * m22) by (nonlinear_arith);
    assert(m21 * (m10 * m02 * m23) == m02 * m10 * m21 * m23) by (nonlinear_arith);
    assert(m21 * (m20 * m12 * m03) == m03 * m12 * m20 * m21) by (nonlinear_arith);
    lemma_mul_distributes_3_3(m22, m00 * m21 * m13, m10 * m01 * m23, m20 * m11 * m03, m00 * m11 * m23, m10 * m21 * m03, m20 * m01 * m13);
    assert(m22 * (m00 * m21 * m13) == m00 * m13 * m21 * m22) by (nonlinear_arith);
    assert(m22 * (m10 * m01 * m23) == m01 * m10 * m22 * m23) by (nonlinear_arith);
    assert(m22 * (m20 * m11 * m03) == m03 * m11 * m20 * m22) by (nonlinear_arith);
    assert(m22 * (m00 * m11 * m23) == m00 * m11 * m22 * m23) by (nonlinear_arith);
    assert(m22 * (m10 * m21 * m03) == m03 * m10 * m21 * m22) by (nonlinear_arith);
    assert(m22 * (m20 * m01 * m13) == m01 * m13 * m20 * m22) by (nonlinear_arith);
    lemma_mul_distributes_3_3(m23, m00 * m11 * m22, m10 * m21 * m02, m20 * m01 * m12, m00 * m21 * m12, m10 * m01 * m22, m20 * m11 * m02);
    assert(m23 * (m00 * m11 * m22) == m00 * m11 * m22 * m23) by (nonlinear_arith);
    assert(m23 * (m10 * m21 * m02) == m02 * m10 * m21 * m23) by (nonlinear_arith);
    assert(m23 * (m20 * m01 * m12) == m01 * m12 * m20 * m23) by (nonlinear_arith);
    assert(m23 * (m00 * m21 * m12) == m00 * m12 * m21 * m23) by (nonlinear_arith);
    assert(m23 * (m10 * m01 * m22) == m01 * m10 * m22 * m23) by (nonlinear_arith);
    assert(m23 * (m20 * m11 * m02) == m02 * m11 * m20 * m23) by (nonlinear_arith);
    assert((m01 * m13 * m20 * m22 + m02 * m11 * m20 * m23 + m03 * m12 * m20 * m21 - m01 * m12 * m20 * m23 - m03 * m11 * m20 * m22 - m02 * m13 * m20 * m21) + (m00 * m12 * m21 * m23 + m03 * m10 * m21 * m22 + m02 * m13 * m20 * m21 - m00 * m13 * m21 * m22 - m02 * m10 * m21 * m23 - m03 * m12 * m20 * m21) + (m00 * m13 * m21 * m22 + m01 * m10 * m22 * m23 + m03 * m11 * m20 * m22 - m00 * m11 * m22 * m23 - m03 * m10 * m21 * m22 - m01 * m13 * m20 * m22) + (m00 * m11 * m22 * m23 + m02 * m10 * m21 * m23 + m01 * m12 * m20 * m23 - m00 * m12 * m21 * m23 - m01 * m10 * m22 * m23 - m02 * m11 * m20 * m23) == 0);
    lemma_mul_distributes_3_3(m30, m11 * m22 * m33, m21 * m32 * m13, m31 * m12 * m23, m11 * m32 * m23, m21 * m12 * m33, m31 * m22 * m13);
    assert(m30 * (m11 * m22 * m33) == m11 * m22 * m30 * m33) by (nonlinear_arith);
    assert(m30 * (m21 * m32 * m13) == m13 * m21 * m30 * m32) by (nonlinear_arith);
    assert(m30 * (m31 * m12 * m23) == m12 * m23 * m30 * m31) by (nonlinear_arith);
    assert(m30 * (m11 * m32 * m23) == m11 * m23 * m30 * m32) by (nonlinear_arith);
    assert(m30 * (m21 * m12 * m33) == m12 * m21 * m30 * m33) by (nonlinear_arith);
    assert(m30 * (m31 * m22 * m13) == m13 * m22 * m30 * m31) by (nonlinear_arith);
    lemma_mul_distributes_3_3(m31, m10 * m32 * m23, m20 * m12 * m33, m30 * m22 * m13, m10 * m22 * m33, m20 * m32 * m13, m30 * m12 * m23);
    assert(m31 * (m10 * m32 * m23) == m10 * m23 * m31 * m32) by (nonlinear_arith);
    assert(m31 * (m20 * m12 * m33) == m12 * m20 * m31 * m33) by (nonlinear_arith);
    assert(m31 * (m30 * m22 * m13) == m13 * m22 * m30 * m31) by (nonlinear_arith);
    assert(m31 * (m10 * m22 * m33) == m10 * m22 * m31 * m33) by (nonlinear_arith);
    assert(m31 * (m20 * m32 * m13) == m13 * m20 * m31 * m32) by (nonlinear_arith);
    assert(m31 * (m30 * m12 * m23) == m12 * m23 * m30 * m31) by (nonlinear_arith);
    lemma_mul_distributes_3_3(m32, m10 * m21 * m33, m20 * m31 * m13, m30 * m11 * m23, m10 * m31 * m23, m20 * m11 * m33, m30 * m21 * m13);
    assert(m32 * (m10 * m21 * m33) == m10 * m21 * m32 * m33) by (nonlinear_arith);
    assert(m32 * (m20 * m31 * m13) == m13 * m20 * m31 * m32) by (nonlinear_arith);
    assert(m32 * (m30 * m11 * m23) == m11 * m23 * m30 * m32) by (nonlinear_arith);
    assert(m32 * (m10 * m31 * m23) == m10 * m23 * m31 * m32) by (nonlinear_arith);
    assert(m32 * (m20 * m11 * m33) == m11 * m20 * m32 * m33) by (nonlinear_arith);
    assert(m32 * (m30 * m21 * m13) == m13 * m21 * m30 * m32) by (nonlinear_arith);
    lemma_mul_distributes_3_3(m33, m10 * m31 * m22, m20 * m11 * m32, m30 * m21 * m12, m10 * m21 * m32, m20 * m31 * m12, m30 * m11 * m22);
    assert(m33 * (m10 * m31 * m22) == m10 * m22 * m31 * m33) by (nonlinear_arith);
    assert(m33 * (m20 * m11 * m32) == m11 * m20 * m32 * m33) by (nonlinear_arith);
    assert(m33 * (m30 * m21 * m12) == m12 * m21 * m30 * m33) by (nonlinear_arith);
    assert(m33 * (m10 * m21 * m32) == m10 * m21 * m32 * m33) by (nonlinear_arith);
    assert(m33 * (m20 * m31 * m12) == m12 * m20 * m31 * m33) by (nonlinear_arith);
    assert(m33 * (m30 * m11 * m22) == m11 * m22 * m30 * m33) by (nonlinear_arith);
    assert((m11 * m22 * m30 * m33 + m13 * m21 * m30 * m32 + m12 * m23 * m30 * m31 - m11 * m23 * m30 * m32 - m12 * m21 * m30 * m33 - m13 * m22 * m30 * m31) + (m10 * m23 * m31 * m32 + m12 * m20 * m31 * m33 + m13 * m22 * m30 * m31 - m10 * m22 * m31 * m33 - m13 * m20 * m31 * m32 - m12 * m23 * m30 * m31) + (m10 * m21 * m32 * m33 + m13 * m20 * m31 * m32 + m11 * m23 * m30 * m32 - m10 * m23 * m31 * m32 - m11 * m20 * m32 * m33 - m13 * m21 * m30 * m32) + (m10 * m22 * m31 * m33 + m11 * m20 * m32 * m33 + m12 * m21 * m30 * m33 - m10 * m21 * m32 * m33 - m12 * m20 * m31 * m33 - m11 * m22 * m30 * m33) == 0);
    lemma_mul_distributes_3_3(m30, m01 * m32 * m23, m21 * m02 * m33, m31 * m22 * m03, m01 * m22 * m33, m21 * m32 * m03, m31 * m02 * m23);
    assert(m30 * (m01 * m32 * m23) == m01 * m23 * m30 * m32) by (nonlinear_arith);
    assert(m30 * (m21 * m02 * m33) == m02 * m21 * m30 * m33) by (nonlinear_arith);
    assert(m30 * (m31 * m22 * m03) == m03 * m22 * m30 * m31) by (nonlinear_arith);
    assert(m30 * (m01 * m22 * m33) == m01 * m22 * m30 * m33) by (nonlinear_arith);
    assert(m30 * (m21 * m32 * m03) == m03 * m21 * m30 * m32) by (nonlinear_arith);
    assert(m30 * (m31 * m02 * m23) == m02 * m23 * m30 * m31) by (nonlinear_arith);
    lemma_mul_distributes_3_3(m31, m00 * m22 * m33, m20 * m32 * m03, m30 * m02 * m23, m00 * m32 * m23, m20 * m02 * m33, m30 * m22 * m03);
    assert(m31 * (m00 * m22 * m33) == m00 * m22 * m31 * m33) by (nonlinear_arith);
    assert(m31 * (m20 * m32 * m03) == m03 * m20 * m31 * m32) by (nonlinear_arith);
    assert(m31 * (m30 * m02 * m23) == m02 * m23 * m30 * m31) by (nonlinear_arith);
    assert(m31 * (m00 * m32 * m23) == m00 * m23 * m31 * m32) by (nonlinear_arith);
    assert(m31 * (m20 * m02 * m33) == m02 * m20 * m31 * m33) by (nonlinear_arith);
    assert(m31 * (m30 * m22 * m03) == m03 * m22 * m30 * m31) by (nonlinear_arith);
    lemma_mul_distributes_3_3(m32, m00 * m31 * m23, m20 * m01 * m33, m30 * m21 * m03, m00 * m21 * m33, m20 * m31 * m03, m30 * m01 * m23);
    assert(m32 * (m00 * m31 * m23) == m00 * m23 * m31 * m32) by (nonlinear_arith);
    assert(m32 * (m20 * m01 * m33) == m01 * m20 * m32 * m33) by (nonlinear_arith);
    assert(m32 * (m30 * m21 * m03) == m03 * m21 * m30 * m32) by (nonlinear_arith);
    assert(m32 * (m00 * m21 * m33) == m00 * m21 * m32 * m33) by (nonlinear_arith);
    assert(m32 * (m20 * m31 * m03) == m03 * m20 * m31 * m32) by (nonlinear_arith);
    assert(m32 * (m30 * m01 * m23) == m01 * m23 * m30 * m32) by (nonlinear_arith);
    lemma_mul_distributes_3_3(m33, m00 * m21 * m32, m20 * m31 * m02, m30 * m01 * m22, m00 * m31 * m22, m20 * m01 * m32, m30 * m21 * m02);
    assert(m33 * (m00 * m21 * m32) == m00 * m21 * m32 * m33) by (nonlinear_arith);
    assert(m33 * (m20 * m31 * m02) == m02 * m20 * m31 * m33) by (nonlinear_arith);
    assert(m33 * (m30 * m01 * m22) == m01 * m22 * m30 * m33) by (nonlinear_arith);
    assert(m33 * (m00 * m31 * m22) == m00 * m22 * m31 * m33) by (nonlinear_arith);
    assert(m33 * (m20 * m01 * m32) == m01 * m20 * m32 * m33) by (nonlinear_arith);
    assert(m33 * (m30 * m21 * m02) == m02 * m21 * m30 * m33) by (nonlinear_arith);
    assert((m01 * m23 * m30 * m32 + m02 * m21 * m30 * m33 + m03 * m22 * m30 * m31 - m01 * m22 * m30 * m33 - m03 * m21 * m30 * m32 - m02 * m23 * m30 * m31) + (m00 * m22 * m31 * m33 + m03 * m20 * m31 * m32 + m02 * m23 * m30 * m31 - m00 * m23 * m31 * m32 - m02 * m20 * m31 * m33 - m03 * m22 * m30 * m31) + (m00 * m23 * m31 * m32 + m01 * m20 * m32 * m33 + m03 * m21 * m30 * m32 - m00 * m21 * m32 * m33 - m03 * m20 * m31 * m32 - m01 * m23 * m30 * m32) + (m00 * m21 * m32 * m33 + m02 * m20 * m31 * m33 + m01 * m22 * m30 * m33 - m00 * m22 * m31 * m33 - m01 * m20 * m32 * m33 - m02 * m21 * m30 * m33) == 0);
    lemma_mul_distributes_3_3(m30, m01 * m12 * m33, m11 * m32 * m03, m31 * m02 * m13, m01 * m32 * m13, m11 * m02 * m33, m31 * m12 * m03);
    assert(m30 * (m01 * m12 * m33) == m01 * m12 * m30 * m33) by (nonlinear_arith);
    assert(m30 * (m11 * m32 * m03) == m03 * m11 * m30 * m32) by (nonlinear_arith);
    assert(m30 * (m31 * m02 * m13) == m02 * m13 * m30 * m31) by (nonlinear_arith);
    assert(m30 * (m01 * m32 * m13) == m01 * m13 * m30 * m32) by (nonlinear_arith);
    assert(m30 * (m11 * m02 * m33) == m02 * m11 * m30 * m33) by (nonlinear_arith);
    assert(m30 * (m31 * m12 * m03) == m03 * m12 * m30 * m31) by (nonlinear_arith);
    lemma_mul_distributes_3_3(m31, m00 * m32 * m13, m10 * m02 * m33, m30 * m12 * m03, m00 * m12 * m33, m10 * m32 * m03, m30 * m02 * m13);
    assert(m31 * (m00 * m32 * m13) == m00 * m13 * m31 * m32) by (nonlinear_arith);
    assert(m31 * (m10 * m02 * m33) == m02 * m10 * m31 * m33) by (nonlinear_arith);
    assert(m31 * (m30 * m12 * m03) == m03 * m12 * m30 * m31) by (nonlinear_arith);
    assert(m31 * (m00 * m12 * m33) == m00 * m12 * m31 * m33) by (nonlinear_arith);
    assert(m31 * (m10 * m32 * m03) == m03 * m10 * m31 * m32) by (nonlinear_arith);
    assert(m31 * (m30 * m02 * m13) == m02 * m13 * m30 * m31) by (nonlinear_arith);
    lemma_mul_distributes_3_3(m32, m00 * m11 * m33, m10 * m31 * m03, m30 * m01 * m13, m00 * m31 * m13, m10 * m01 * m33, m30 * m11 * m03);
    assert(m32 * (m00 * m11 * m33) == m00 * m11 * m32 * m33) by (nonlinear_arith);
    assert(m32 * (m10 * m31 * m03) == m03 * m10 * m31 * m32) by (nonlinear_arith);
    assert(m32 * (m30 * m01 * m13) == m01 * m13 * m30 * m32) by (nonlinear_arith);
    assert(m32 * (m00 * m31 * m13) == m00 * m13 * m31 * m32) by (nonlinear_arith);
    assert(m32 * (m10 * m01 * m33) == m01 * m10 * m32 * m33) by (nonlinear_arith);
    assert(m32 * (m30 * m11 * m03) == m03 * m11 * m30 * m32) by (nonlinear_arith);
    lemma_mul_distributes_3_3(m33, m00 * m31 * m12, m10 * m01 * m32, m30 * m11 * m02, m00 * m11 * m32, m10 * m31 * m02, m30 * m01 * m12);
    assert(m33 * (m00 * m31 * m12) == m00 * m12 * m31 * m33) by (nonlinear_arith);
    assert(m33 * (m10 * m01 * m32) == m01 * m10 * m32 * m33) by (nonlinear_arith);
    assert(m33 * (m30 * m11 * m02) == m02 * m11 * m30 * m33) by (nonlinear_arith);
    assert(m33 * (m00 * m11 * m32) == m00 * m11 * m32 * m33) by (nonlinear_arith);
    assert(m33 * (m10 * m31 * m02) == m02 * m10 * m31 * m33) by (nonlinear_arith);
    assert(m33 * (m30 * m01 * m12) == m01 * m12 * m30 * m33) by (nonlinear_arith);
    assert((m01 * m12 * m30 * m33 + m03 * m11 * m30 * m32 + m02 * m13 * m30 * m31 - m01 * m13 * m30 * m32 - m02 * m11 * m30 * m33 - m03 * m12 * m30 * m31) + (m00 * m13 * m31 * m32 + m02 * m10 * m31 * m33 + m03 * m12 * m30 * m31 - m00 * m12 * m31 * m33 - m03 * m10 * m31 * m32 - m02 * m13 * m30 * m31) + (m00 * m11 * m32 * m33 + m03 * m10 * m31 * m32 + m01 * m13 * m30 * m32 - m00 * m13 * m31 * m32 - m01 * m10 * m32 * m33 - m03 * m11 * m30 * m32) + (m00 * m12 * m31 * m33 + m01 * m10 * m32 * m33 + m02 * m11 * m30 * m33 - m00 * m11 * m32 * m33 - m02 * m10 * m31 * m33 - m01 * m12 * m30 * m33) == 0);
    lemma_mul_distributes_3_3(m30, m01 * m22 * m13, m11 * m02 * m23, m21 * m12 * m03, m01 * m12 * m23, m11 * m22 * m03, m21 * m02 * m13);
    assert(m30 * (m01 * m22 * m13) == m01 * m13 * m22 * m30) by (nonlinear_arith);
    assert(m30 * (m11 * m02 * m23) == m02 * m11 * m23 * m30) by (nonlinear_arith);
    assert(m30 * (m21 * m12 * m03) == m03 * m12 * m21 * m30) by (nonlinear_arith);
    assert(m30 * (m01 * m12 * m23) == m01 * m12 * m23 * m30) by (nonlinear_arith);
    assert(m30 * (m11 * m22 * m03) == m03 * m11 * m22 * m30) by (nonlinear_arith);
    assert(m30 * (m21 * m02 * m13) == m02 * m13 * m21 * m30) by (nonlinear_arith);
    lemma_mul_distributes_3_3(m31, m00 * m12 * m23, m10 * m22 * m03, m20 * m02 * m13, m00 * m22 * m13, m10 * m02 * m23, m20 * m12 * m03);
    assert(m31 * (m00 * m12 * m23) == m00 * m12 * m23 * m31) by (nonlinear_arith);
    assert(m31 * (m10 * m22 * m03) == m03 * m10 * m22 * m31) by (nonlinear_arith);
    assert(m31 * (m20 * m02 * m13) == m02 * m13 * m20 * m31) by (nonlinear_arith);
    assert(m31 * (m00 * m22 * m13) == m00 * m13 * m22 * m31) by (nonlinear_arith);
    assert(m31 * (m10 * m02 * m23) == m02 * m10 * m23 * m31) by (nonlinear_arith);
    assert(m31 * (m20 * m12 * m03) == m03 * m12 * m20 * m31) by (nonlinear_arith);
    lemma_mul_distributes_3_3(m32, m00 * m21 * m13, m10 * m01 * m23, m20 * m11 * m03, m00 * m11 * m23, m10 * m21 * m03, m20 * m01 * m13);
    assert(m32 * (m00 * m21 * m13) == m00 * m13 * m21 * m32) by (nonlinear_arith);
    assert(m32 * (m10 * m01 * m23) == m01 * m10 * m23 * m32) by (nonlinear_arith);
    assert(m32 * (m20 * m11 * m03) == m03 * m11 * m20 * m32) by (nonlinear_arith);
    assert(m32 * (m00 * m11 * m23) == m00 * m11 * m23 * m32) by (nonlinear_arith);
    assert(m32 * (m10 * m21 * m03) == m03 * m10 * m21 * m32) by (nonlinear_arith);
    assert(m32 * (m20 * m01 * m13) == m01 * m13 * m20 * m32) by (nonlinear_arith);
    lemma_mul_distributes_3_3(m33, m00 * m11 * m22, m10 * m21 * m02, m20 * m01 * m12, m00 * m21 * m12, m10 * m01 * m22, m20 * m11 * m02);
    assert(m33 * (m00 * m11 * m22) == m00 * m11 * m22 * m33) by (nonlinear_arith);
    assert(m33 * (m10 * m21 * m02) == m02 * m10 * m21 * m33) by (nonlinear_arith);
    assert(m33 * (m20 * m01 * m12) == m01 * m12 * m20 * m33) by (nonlinear_arith);
    assert(m33 * (m00 * m21 * m12) == m00 * m12 * m21 * m33) by (nonlinear_arith);
    assert(m33 * (m10 * m01 * m22) == m01 * m10 * m22 * m33) by (nonlinear_arith);
    assert(m33 * (m20 * m11 * m02) == m02 * m11 * m20 * m33) by (nonlinear_arith);
    assert((m01 * m13 * m22 * m30 + m02 * m11 * m23 * m30 + m03 * m12 * m21 * m30 - m01 * m12 * m23 * m30 - m03 * m11 * m22 * m30 - m02 * m13 * m21 * m30) + (m00 * m12 * m23 * m31 + m03 * m10 * m22 * m31 + m02 * m13 * m20 * m31 - m00 * m13 * m22 * m31 - m02 * m10 * m23 * m31 - m03 * m12 * m20 * m31) + (m00 * m13 * m21 * m32 + m01 * m10 * m23 * m32 + m03 * m11 * m20 * m32 - m00 * m11 * m23 * m32 - m03 * m10 * m21 * m32 - m01 * m13 * m20 * m32) + (m00 * m11 * m22 * m33 + m02 * m10 * m21 * m33 + m01 * m12 * m20 * m33 - m00 * m12 * m21 * m33 - m01 * m10 * m22 * m33 - m02 * m11 * m20 * m33) == m00 * m11 * m22 * m33 + m00 * m12 * m23 * m31 + m00 * m13 * m21 * m32 + m01 * m10 * m23 * m32 + m01 * m12 * m20 * m33 + m01 * m13 * m22 * m30 + m02 * m10 * m21 * m33 + m02 * m11 * m23 * m30 + m02 * m13 * m20 * m31 + m03 * m10 * m22 * m31 + m03 * m11 * m20 * m32 + m03 * m12 * m21 * m30 - m00 * m11 * m23 * m32 - m00 * m12 * m21 * m33 - m00 * m13 * m22 * m31 - m01 * m10 * m22 * m33 - m01 * m12 * m23 * m30 - m01 * m13 * m20 * m32 - m02 * m10 * m23 * m31 - m02 * m11 * m20 * m33 - m02 * m13 * m21 * m30 - m03 * m10 * m21 * m32 - m03 * m11 * m22 * m30 - m03 * m12 * m20 * m31);
}

} // verus!
