//! Small fixed-size linear algebra: vectors of 2, 3 and 4 components and square matrices
//! of the same sizes over a generic scalar, with their arithmetic, determinants, inverses
//! and transform constructors.
//!
//! Each operation is specified against the scalar's own operators, step by step in the
//! order it evaluates them (see `scalar`), as Verus models those operators. For the signed
//! integer types from `i16` up that model is exact, overflow included, and so are the
//! results; for the floating-point types Verus has no model, so the same code runs with
//! nothing proved of its values.

mod error;
mod laws;
mod matrix;
mod scalar;
mod traits;
mod vector;

pub use laws::{
    lemma_cross_orthogonal, lemma_matrix2_col_row_agree, lemma_matrix2_mul_identity,
    lemma_matrix2_transpose_involution, lemma_matrix3_col_row_agree,
    lemma_matrix3_inverse_adjugate, lemma_matrix3_mul_identity,
    lemma_matrix3_transpose_involution, lemma_matrix4_col_row_agree, lemma_matrix4_inverse1_adjugate,
    lemma_matrix4_inverse_adjugate, lemma_matrix4_mul_identity,
    lemma_matrix4_transpose_involution, lemma_units_act_on_i64, lemma_vector2_add_zero, lemma_vector3_add_zero,
    lemma_vector4_add_zero,
};
pub use matrix::{Matrix2, Matrix3, Matrix4};
pub use error::IndexOutOfRange;
pub use scalar::Base;
pub use traits::{
    AsArray, AsArrays, Cross, CwAbs, CwMax, CwMin, Dot, Elem, ElemMut, MatrixAccess, MatrixAccessMut,
    MatrixAccessRef,
};
pub use vector::{Vector2, Vector3, Vector4};
