use vstd::prelude::*;

verus! {

use core::ops::{Mul, Neg};
use crate::scalar::{opt_add, opt_div, opt_mul, opt_neg, opt_sub, opt_one, opt_zero, spec_eq, spec_one, spec_zero, units_exact, Base};
use crate::error::IndexOutOfRange;
use crate::vector::{vec2_of, vec3_of, vec4_of, Vector2, Vector3, Vector4};
use vstd::std_specs::cmp::PartialEqSpec;
use vstd::std_specs::ops::MulSpec;

/// A 2×2 matrix. The field `mRC` holds the element in row `R` and column `C`;
/// the fields are laid out column by column.
#[derive(Clone, Copy, Debug, PartialEq, PartialOrd)]
pub struct Matrix2<T: Base> {
    pub m00: T,
    pub m10: T,
    pub m01: T,
    pub m11: T,
}

/// The matrix of the given elements, listed column by column, where each of them is defined.
pub open spec fn mat2_of<T: Base>(
    m00: Option<T>,
    m10: Option<T>,
    m01: Option<T>,
    m11: Option<T>,
) -> Option<Matrix2<T>> {
    if m00 is Some && m10 is Some && m01 is Some && m11 is Some {
        Some(Matrix2 { m00: m00->0, m10: m10->0, m01: m01->0, m11: m11->0 })
    } else {
        None
    }
}

impl<T: Base> View for Matrix2<T> {
    type V = Seq<T>;

    /// The elements column by column: row `r` of column `c` at `c * 2 + r`.
    open spec fn view(&self) -> Seq<T> {
        seq![self.m00, self.m10, self.m01, self.m11]
    }
}

impl<T: Base> Matrix2<T> {
    /// The element in row `r` and column `c`.
    pub open spec fn spec_at(self, r: int, c: int) -> T {
        self@[c * 2 + r]
    }

    /// Column `i`.
    pub open spec fn spec_col(self, i: int) -> Vector2<T> {
        Vector2 { x: self.spec_at(0, i), y: self.spec_at(1, i) }
    }

    /// Row `i`.
    pub open spec fn spec_row(self, i: int) -> Vector2<T> {
        Vector2 { x: self.spec_at(i, 0), y: self.spec_at(i, 1) }
    }

    /// The element in row `r` and column `c` replaced with `v`.
    pub open spec fn spec_with_at(self, r: int, c: int, v: T) -> Self {
        Matrix2 {
            m00: if r == 0 && c == 0 { v } else { self.m00 },
            m10: if r == 1 && c == 0 { v } else { self.m10 },
            m01: if r == 0 && c == 1 { v } else { self.m01 },
            m11: if r == 1 && c == 1 { v } else { self.m11 },
        }
    }

    /// Rows and columns swapped.
    pub open spec fn spec_transpose(self) -> Self {
        Matrix2 { m00: self.m00, m10: self.m01, m01: self.m10, m11: self.m11 }
    }

    /// Every element equal to `s`.
    pub open spec fn spec_splat(s: T) -> Self {
        Matrix2 { m00: s, m10: s, m01: s, m11: s }
    }

    /// `d` on the diagonal, zero elsewhere.
    pub open spec fn spec_from_diagonal(d: Vector2<T>) -> Self {
        let z = spec_zero::<T>();
        Matrix2 { m00: d.x, m10: z, m01: z, m11: d.y }
    }

    /// The identity: one on the diagonal, zero elsewhere.
    pub open spec fn spec_identity() -> Self {
        Self::spec_from_diagonal(Vector2::spec_splat(spec_one::<T>()))
    }

    /// The matrix product: the element in row `r` and column `c` is the dot product of
    /// `self`'s row `r` and `o`'s column `c`.
    pub open spec fn spec_mul(self, o: Self) -> Option<Self> {
        mat2_of(
            self.spec_row(0).spec_dot(o.spec_col(0)),
            self.spec_row(1).spec_dot(o.spec_col(0)),
            self.spec_row(0).spec_dot(o.spec_col(1)),
            self.spec_row(1).spec_dot(o.spec_col(1)),
        )
    }

    /// The product with a column vector: component `r` is the dot product of row `r` and `v`.
    pub open spec fn spec_mul_vec(self, v: Vector2<T>) -> Option<Vector2<T>> {
        vec2_of(self.spec_row(0).spec_dot(v), self.spec_row(1).spec_dot(v))
    }

    /// The number of rows, which is also the number of columns.
    pub fn dims() -> (r: usize)
        ensures
            r == 2,
    {
        2
    }

    /// The matrix of the given elements, listed row by row.
    pub fn from_components_row_major(
        m00: T,
        m01: T,
        m10: T,
        m11: T,
    ) -> (r: Self)
        ensures
            r == (Matrix2 { m00, m01, m10, m11 }),
    {
        Matrix2 { m00, m01, m10, m11 }
    }

    /// The matrix of the given elements, listed column by column.
    pub fn from_components_col_major(
        m00: T,
        m10: T,
        m01: T,
        m11: T,
    ) -> (r: Self)
        ensures
            r == (Matrix2 { m00, m10, m01, m11 }),
    {
        Matrix2 { m00, m10, m01, m11 }
    }

    /// The matrix with the given columns.
    pub fn from_cols(c0: Vector2<T>, c1: Vector2<T>) -> (r: Self)
        ensures
            r.spec_col(0) == c0,
            r.spec_col(1) == c1,
    {
        Self::from_components_col_major(c0.x, c0.y, c1.x, c1.y)
    }

    /// The matrix with the given rows.
    pub fn from_rows(r0: Vector2<T>, r1: Vector2<T>) -> (r: Self)
        ensures
            r.spec_row(0) == r0,
            r.spec_row(1) == r1,
    {
        Self::from_components_row_major(r0.x, r0.y, r1.x, r1.y)
    }

    /// Rows and columns swapped.
    pub fn transpose(&self) -> (r: Self)
        ensures
            r == self.spec_transpose(),
    {
        Self::from_components_row_major(self.m00, self.m10, self.m01, self.m11)
    }

    /// Column `index`, or the error when `index` is not below the dimension.
    pub fn col_checked(&self, index: usize) -> (r: Result<Vector2<T>, IndexOutOfRange>)
        ensures
            index < 2 ==> r == Ok::<Vector2<T>, IndexOutOfRange>(self.spec_col(index as int)),
            index >= 2 ==> r == Err::<Vector2<T>, IndexOutOfRange>(IndexOutOfRange { index, len: 2 }),
    {
        if index == 0 {
            Ok(Vector2::new(self.m00, self.m10))
        } else if index == 1 {
            Ok(Vector2::new(self.m01, self.m11))
        } else {
            Err(IndexOutOfRange { index, len: 2 })
        }
    }

    /// A copy of column `index`.
    pub fn col(&self, index: usize) -> (r: Vector2<T>)
        requires
            index < 2,
        ensures
            r == self.spec_col(index as int),
    {
        self.col_checked(index).unwrap()
    }

    /// Row `index`, or the error when `index` is not below the dimension.
    pub fn row_checked(&self, index: usize) -> (r: Result<Vector2<T>, IndexOutOfRange>)
        ensures
            index < 2 ==> r == Ok::<Vector2<T>, IndexOutOfRange>(self.spec_row(index as int)),
            index >= 2 ==> r == Err::<Vector2<T>, IndexOutOfRange>(IndexOutOfRange { index, len: 2 }),
    {
        if index == 0 {
            Ok(Vector2::new(self.m00, self.m01))
        } else if index == 1 {
            Ok(Vector2::new(self.m10, self.m11))
        } else {
            Err(IndexOutOfRange { index, len: 2 })
        }
    }

    /// A copy of row `index`.
    pub fn row(&self, index: usize) -> (r: Vector2<T>)
        requires
            index < 2,
        ensures
            r == self.spec_row(index as int),
    {
        self.row_checked(index).unwrap()
    }

    /// Element `elem_index` of column `col_index`.
    pub fn col_elem(&self, col_index: usize, elem_index: usize) -> (r: T)
        requires
            col_index < 2,
            elem_index < 2,
        ensures
            r == self.spec_at(elem_index as int, col_index as int),
    {
        *self.col_elem_ref(col_index, elem_index)
    }

    /// Element `elem_index` of row `row_index`.
    pub fn row_elem(&self, row_index: usize, elem_index: usize) -> (r: T)
        requires
            row_index < 2,
            elem_index < 2,
        ensures
            r == self.spec_at(row_index as int, elem_index as int),
    {
        *self.col_elem_ref(elem_index, row_index)
    }

    /// A reference to element `elem_index` of column `col_index`.
    pub fn col_elem_ref(&self, col_index: usize, elem_index: usize) -> (r: &T)
        requires
            col_index < 2,
            elem_index < 2,
        ensures
            *r == self.spec_at(elem_index as int, col_index as int),
    {
        if col_index == 0 && elem_index == 0 {
            &self.m00
        } else if col_index == 0 && elem_index == 1 {
            &self.m10
        } else if col_index == 1 && elem_index == 0 {
            &self.m01
        } else {
            &self.m11
        }
    }

    /// A reference to element `elem_index` of row `row_index`.
    pub fn row_elem_ref(&self, row_index: usize, elem_index: usize) -> (r: &T)
        requires
            row_index < 2,
            elem_index < 2,
        ensures
            *r == self.spec_at(row_index as int, elem_index as int),
    {
        self.col_elem_ref(elem_index, row_index)
    }

    /// A mutable reference to element `elem_index` of column `col_index`; what is written
    /// through it lands in that element.
    pub fn col_elem_mut(&mut self, col_index: usize, elem_index: usize) -> (r: &mut T)
        requires
            col_index < 2,
            elem_index < 2,
        ensures
            *r == old(self).spec_at(elem_index as int, col_index as int),
            *final(self) == old(self).spec_with_at(elem_index as int, col_index as int, *final(r)),
    {
        if col_index == 0 && elem_index == 0 {
            &mut self.m00
        } else if col_index == 0 && elem_index == 1 {
            &mut self.m10
        } else if col_index == 1 && elem_index == 0 {
            &mut self.m01
        } else {
            &mut self.m11
        }
    }

    /// A mutable reference to element `elem_index` of row `row_index`.
    pub fn row_elem_mut(&mut self, row_index: usize, elem_index: usize) -> (r: &mut T)
        requires
            row_index < 2,
            elem_index < 2,
        ensures
            *r == old(self).spec_at(row_index as int, elem_index as int),
            *final(self) == old(self).spec_with_at(row_index as int, elem_index as int, *final(r)),
    {
        self.col_elem_mut(elem_index, row_index)
    }

    /// Replaces element `elem_index` of column `col_index` with `value`.
    pub fn set_col_elem(&mut self, col_index: usize, elem_index: usize, value: T)
        requires
            col_index < 2,
            elem_index < 2,
        ensures
            final(self)@ == old(self)@.update(col_index * 2 + elem_index, value),
    {
        if col_index == 0 && elem_index == 0 {
            self.m00 = value;
        } else if col_index == 0 && elem_index == 1 {
            self.m10 = value;
        } else if col_index == 1 && elem_index == 0 {
            self.m01 = value;
        } else {
            self.m11 = value;
        }
        proof {
            assert(final(self)@ =~= old(self)@.update(col_index * 2 + elem_index, value));
        }
    }

    /// `d` on the diagonal, zero elsewhere.
    pub fn from_diagonal(d: Vector2<T>) -> (r: Self)
        ensures
            units_exact::<T>() ==> r == Self::spec_from_diagonal(d),
    {
        let z = T::zero();
        Self::from_components_row_major(d.x, z, z, d.y)
    }

    /// The identity: one on the diagonal, zero elsewhere.
    pub fn identity() -> (r: Self)
        ensures
            units_exact::<T>() ==> r == Self::spec_identity(),
    {
        Self::from_diagonal(Vector2::one())
    }

    /// Every element equal to the scalar's zero.
    pub fn zero() -> (r: Self)
        ensures
            units_exact::<T>() ==> r == Self::spec_splat(spec_zero::<T>()),
    {
        let s = T::zero();
        Matrix2 { m00: s, m10: s, m01: s, m11: s }
    }

    /// Every element equal to the scalar's one.
    pub fn one() -> (r: Self)
        ensures
            units_exact::<T>() ==> r == Self::spec_splat(spec_one::<T>()),
    {
        let s = T::one();
        Matrix2 { m00: s, m10: s, m01: s, m11: s }
    }

    /// The elements as an array, column by column.
    pub fn as_array(&self) -> (r: [T; 4])
        ensures
            r@ == self@,
    {
        let r = [self.m00, self.m10, self.m01, self.m11];
        proof {
            assert(r@ =~= self@);
        }
        r
    }

    /// The elements as an array of columns.
    pub fn as_arrays(&self) -> (r: [[T; 2]; 2])
        ensures
            forall|c: int, e: int| 0 <= c < 2 && 0 <= e < 2 ==> #[trigger] r@[c]@[e] == self.spec_at(e, c),
    {
        [[self.m00, self.m10], [self.m01, self.m11]]
    }
}

impl<T: Base> vstd::std_specs::ops::MulSpecImpl<Matrix2<T>> for Matrix2<T> {
    open spec fn obeys_mul_spec() -> bool {
        true
    }

    open spec fn mul_req(self, rhs: Matrix2<T>) -> bool {
        self.spec_mul(rhs) is Some
    }

    open spec fn mul_spec(self, rhs: Matrix2<T>) -> Self {
        self.spec_mul(rhs)->0
    }
}

impl<T: Base> Mul<Matrix2<T>> for Matrix2<T> {
    type Output = Self;

    fn mul(self, rhs: Matrix2<T>) -> (r: Self)
        ensures
            Some(r) == self.spec_mul(rhs),
    {
        let r0 = self.row(0);
        let r1 = self.row(1);
        let c0 = rhs.col(0);
        let c1 = rhs.col(1);
        Matrix2::from_components_col_major(
            r0.dot(c0),
            r1.dot(c0),
            r0.dot(c1),
            r1.dot(c1),
        )
    }
}

impl<T: Base> vstd::std_specs::ops::MulSpecImpl<Vector2<T>> for Matrix2<T> {
    open spec fn obeys_mul_spec() -> bool {
        true
    }

    open spec fn mul_req(self, rhs: Vector2<T>) -> bool {
        self.spec_mul_vec(rhs) is Some
    }

    open spec fn mul_spec(self, rhs: Vector2<T>) -> Vector2<T> {
        self.spec_mul_vec(rhs)->0
    }
}

impl<T: Base> Mul<Vector2<T>> for Matrix2<T> {
    type Output = Vector2<T>;

    fn mul(self, rhs: Vector2<T>) -> (r: Vector2<T>)
        ensures
            Some(r) == self.spec_mul_vec(rhs),
    {
        let r0 = self.row(0);
        let r1 = self.row(1);
        Vector2::new(r0.dot(rhs), r1.dot(rhs))
    }
}

/// A 3×3 matrix. The field `mRC` holds the element in row `R` and column `C`;
/// the fields are laid out column by column.
#[derive(Clone, Copy, Debug, PartialEq, PartialOrd)]
pub struct Matrix3<T: Base> {
    pub m00: T,
    pub m10: T,
    pub m20: T,
    pub m01: T,
    pub m11: T,
    pub m21: T,
    pub m02: T,
    pub m12: T,
    pub m22: T,
}

/// The matrix of the given elements, listed column by column, where each of them is defined.
pub open spec fn mat3_of<T: Base>(
    m00: Option<T>,
    m10: Option<T>,
    m20: Option<T>,
    m01: Option<T>,
    m11: Option<T>,
    m21: Option<T>,
    m02: Option<T>,
    m12: Option<T>,
    m22: Option<T>,
) -> Option<Matrix3<T>> {
    if m00 is Some && m10 is Some && m20 is Some && m01 is Some && m11 is Some && m21 is Some && m02 is Some && m12 is Some && m22 is Some {
        Some(Matrix3 { m00: m00->0, m10: m10->0, m20: m20->0, m01: m01->0, m11: m11->0, m21: m21->0, m02: m02->0, m12: m12->0, m22: m22->0 })
    } else {
        None
    }
}

impl<T: Base> View for Matrix3<T> {
    type V = Seq<T>;

    /// The elements column by column: row `r` of column `c` at `c * 3 + r`.
    open spec fn view(&self) -> Seq<T> {
        seq![self.m00, self.m10, self.m20, self.m01, self.m11, self.m21, self.m02, self.m12, self.m22]
    }
}

impl<T: Base> Matrix3<T> {
    /// The element in row `r` and column `c`.
    pub open spec fn spec_at(self, r: int, c: int) -> T {
        self@[c * 3 + r]
    }

    /// Column `i`.
    pub open spec fn spec_col(self, i: int) -> Vector3<T> {
        Vector3 { x: self.spec_at(0, i), y: self.spec_at(1, i), z: self.spec_at(2, i) }
    }

    /// Row `i`.
    pub open spec fn spec_row(self, i: int) -> Vector3<T> {
        Vector3 { x: self.spec_at(i, 0), y: self.spec_at(i, 1), z: self.spec_at(i, 2) }
    }

    /// The element in row `r` and column `c` replaced with `v`.
    pub open spec fn spec_with_at(self, r: int, c: int, v: T) -> Self {
        Matrix3 {
            m00: if r == 0 && c == 0 { v } else { self.m00 },
            m10: if r == 1 && c == 0 { v } else { self.m10 },
            m20: if r == 2 && c == 0 { v } else { self.m20 },
            m01: if r == 0 && c == 1 { v } else { self.m01 },
            m11: if r == 1 && c == 1 { v } else { self.m11 },
            m21: if r == 2 && c == 1 { v } else { self.m21 },
            m02: if r == 0 && c == 2 { v } else { self.m02 },
            m12: if r == 1 && c == 2 { v } else { self.m12 },
            m22: if r == 2 && c == 2 { v } else { self.m22 },
        }
    }

    /// Rows and columns swapped.
    pub open spec fn spec_transpose(self) -> Self {
        Matrix3 { m00: self.m00, m10: self.m01, m20: self.m02, m01: self.m10, m11: self.m11, m21: self.m12, m02: self.m20, m12: self.m21, m22: self.m22 }
    }

    /// Every element equal to `s`.
    pub open spec fn spec_splat(s: T) -> Self {
        Matrix3 { m00: s, m10: s, m20: s, m01: s, m11: s, m21: s, m02: s, m12: s, m22: s }
    }

    /// `d` on the diagonal, zero elsewhere.
    pub open spec fn spec_from_diagonal(d: Vector3<T>) -> Self {
        let z = spec_zero::<T>();
        Matrix3 { m00: d.x, m10: z, m20: z, m01: z, m11: d.y, m21: z, m02: z, m12: z, m22: d.z }
    }

    /// The identity: one on the diagonal, zero elsewhere.
    pub open spec fn spec_identity() -> Self {
        Self::spec_from_diagonal(Vector3::spec_splat(spec_one::<T>()))
    }

    /// The matrix product: the element in row `r` and column `c` is the dot product of
    /// `self`'s row `r` and `o`'s column `c`.
    pub open spec fn spec_mul(self, o: Self) -> Option<Self> {
        mat3_of(
            self.spec_row(0).spec_dot(o.spec_col(0)),
            self.spec_row(1).spec_dot(o.spec_col(0)),
            self.spec_row(2).spec_dot(o.spec_col(0)),
            self.spec_row(0).spec_dot(o.spec_col(1)),
            self.spec_row(1).spec_dot(o.spec_col(1)),
            self.spec_row(2).spec_dot(o.spec_col(1)),
            self.spec_row(0).spec_dot(o.spec_col(2)),
            self.spec_row(1).spec_dot(o.spec_col(2)),
            self.spec_row(2).spec_dot(o.spec_col(2)),
        )
    }

    /// The product with a column vector: component `r` is the dot product of row `r` and `v`.
    pub open spec fn spec_mul_vec(self, v: Vector3<T>) -> Option<Vector3<T>> {
        vec3_of(self.spec_row(0).spec_dot(v), self.spec_row(1).spec_dot(v), self.spec_row(2).spec_dot(v))
    }

    /// The number of rows, which is also the number of columns.
    pub fn dims() -> (r: usize)
        ensures
            r == 3,
    {
        3
    }

    /// The matrix of the given elements, listed row by row.
    pub fn from_components_row_major(
        m00: T,
        m01: T,
        m02: T,
        m10: T,
        m11: T,
        m12: T,
        m20: T,
        m21: T,
        m22: T,
    ) -> (r: Self)
        ensures
            r == (Matrix3 { m00, m01, m02, m10, m11, m12, m20, m21, m22 }),
    {
        Matrix3 { m00, m01, m02, m10, m11, m12, m20, m21, m22 }
    }

    /// The matrix of the given elements, listed column by column.
    pub fn from_components_col_major(
        m00: T,
        m10: T,
        m20: T,
        m01: T,
        m11: T,
        m21: T,
        m02: T,
        m12: T,
        m22: T,
    ) -> (r: Self)
        ensures
            r == (Matrix3 { m00, m10, m20, m01, m11, m21, m02, m12, m22 }),
    {
        Matrix3 { m00, m10, m20, m01, m11, m21, m02, m12, m22 }
    }

    /// The matrix with the given columns.
    pub fn from_cols(c0: Vector3<T>, c1: Vector3<T>, c2: Vector3<T>) -> (r: Self)
        ensures
            r.spec_col(0) == c0,
            r.spec_col(1) == c1,
            r.spec_col(2) == c2,
    {
        Self::from_components_col_major(c0.x, c0.y, c0.z, c1.x, c1.y, c1.z, c2.x, c2.y, c2.z)
    }

    /// The matrix with the given rows.
    pub fn from_rows(r0: Vector3<T>, r1: Vector3<T>, r2: Vector3<T>) -> (r: Self)
        ensures
            r.spec_row(0) == r0,
            r.spec_row(1) == r1,
            r.spec_row(2) == r2,
    {
        Self::from_components_row_major(r0.x, r0.y, r0.z, r1.x, r1.y, r1.z, r2.x, r2.y, r2.z)
    }

    /// Rows and columns swapped.
    pub fn transpose(&self) -> (r: Self)
        ensures
            r == self.spec_transpose(),
    {
        Self::from_components_row_major(self.m00, self.m10, self.m20, self.m01, self.m11, self.m21, self.m02, self.m12, self.m22)
    }

    /// Column `index`, or the error when `index` is not below the dimension.
    pub fn col_checked(&self, index: usize) -> (r: Result<Vector3<T>, IndexOutOfRange>)
        ensures
            index < 3 ==> r == Ok::<Vector3<T>, IndexOutOfRange>(self.spec_col(index as int)),
            index >= 3 ==> r == Err::<Vector3<T>, IndexOutOfRange>(IndexOutOfRange { index, len: 3 }),
    {
        if index == 0 {
            Ok(Vector3::new(self.m00, self.m10, self.m20))
        } else if index == 1 {
            Ok(Vector3::new(self.m01, self.m11, self.m21))
        } else if index == 2 {
            Ok(Vector3::new(self.m02, self.m12, self.m22))
        } else {
            Err(IndexOutOfRange { index, len: 3 })
        }
    }

    /// A copy of column `index`.
    pub fn col(&self, index: usize) -> (r: Vector3<T>)
        requires
            index < 3,
        ensures
            r == self.spec_col(index as int),
    {
        self.col_checked(index).unwrap()
    }

    /// Row `index`, or the error when `index` is not below the dimension.
    pub fn row_checked(&self, index: usize) -> (r: Result<Vector3<T>, IndexOutOfRange>)
        ensures
            index < 3 ==> r == Ok::<Vector3<T>, IndexOutOfRange>(self.spec_row(index as int)),
            index >= 3 ==> r == Err::<Vector3<T>, IndexOutOfRange>(IndexOutOfRange { index, len: 3 }),
    {
        if index == 0 {
            Ok(Vector3::new(self.m00, self.m01, self.m02))
        } else if index == 1 {
            Ok(Vector3::new(self.m10, self.m11, self.m12))
        } else if index == 2 {
            Ok(Vector3::new(self.m20, self.m21, self.m22))
        } else {
            Err(IndexOutOfRange { index, len: 3 })
        }
    }

    /// A copy of row `index`.
    pub fn row(&self, index: usize) -> (r: Vector3<T>)
        requires
            index < 3,
        ensures
            r == self.spec_row(index as int),
    {
        self.row_checked(index).unwrap()
    }

    /// Element `elem_index` of column `col_index`.
    pub fn col_elem(&self, col_index: usize, elem_index: usize) -> (r: T)
        requires
            col_index < 3,
            elem_index < 3,
        ensures
            r == self.spec_at(elem_index as int, col_index as int),
    {
        *self.col_elem_ref(col_index, elem_index)
    }

    /// Element `elem_index` of row `row_index`.
    pub fn row_elem(&self, row_index: usize, elem_index: usize) -> (r: T)
        requires
            row_index < 3,
            elem_index < 3,
        ensures
            r == self.spec_at(row_index as int, elem_index as int),
    {
        *self.col_elem_ref(elem_index, row_index)
    }

    /// A reference to element `elem_index` of column `col_index`.
    pub fn col_elem_ref(&self, col_index: usize, elem_index: usize) -> (r: &T)
        requires
            col_index < 3,
            elem_index < 3,
        ensures
            *r == self.spec_at(elem_index as int, col_index as int),
    {
        if col_index == 0 && elem_index == 0 {
            &self.m00
        } else if col_index == 0 && elem_index == 1 {
            &self.m10
        } else if col_index == 0 && elem_index == 2 {
            &self.m20
        } else if col_index == 1 && elem_index == 0 {
            &self.m01
        } else if col_index == 1 && elem_index == 1 {
            &self.m11
        } else if col_index == 1 && elem_index == 2 {
            &self.m21
        } else if col_index == 2 && elem_index == 0 {
            &self.m02
        } else if col_index == 2 && elem_index == 1 {
            &self.m12
        } else {
            &self.m22
        }
    }

    /// A reference to element `elem_index` of row `row_index`.
    pub fn row_elem_ref(&self, row_index: usize, elem_index: usize) -> (r: &T)
        requires
            row_index < 3,
            elem_index < 3,
        ensures
            *r == self.spec_at(row_index as int, elem_index as int),
    {
        self.col_elem_ref(elem_index, row_index)
    }

    /// A mutable reference to element `elem_index` of column `col_index`; what is written
    /// through it lands in that element.
    pub fn col_elem_mut(&mut self, col_index: usize, elem_index: usize) -> (r: &mut T)
        requires
            col_index < 3,
            elem_index < 3,
        ensures
            *r == old(self).spec_at(elem_index as int, col_index as int),
            *final(self) == old(self).spec_with_at(elem_index as int, col_index as int, *final(r)),
    {
        if col_index == 0 && elem_index == 0 {
            &mut self.m00
        } else if col_index == 0 && elem_index == 1 {
            &mut self.m10
        } else if col_index == 0 && elem_index == 2 {
            &mut self.m20
        } else if col_index == 1 && elem_index == 0 {
            &mut self.m01
        } else if col_index == 1 && elem_index == 1 {
            &mut self.m11
        } else if col_index == 1 && elem_index == 2 {
            &mut self.m21
        } else if col_index == 2 && elem_index == 0 {
            &mut self.m02
        } else if col_index == 2 && elem_index == 1 {
            &mut self.m12
        } else {
            &mut self.m22
        }
    }

    /// A mutable reference to element `elem_index` of row `row_index`.
    pub fn row_elem_mut(&mut self, row_index: usize, elem_index: usize) -> (r: &mut T)
        requires
            row_index < 3,
            elem_index < 3,
        ensures
            *r == old(self).spec_at(row_index as int, elem_index as int),
            *final(self) == old(self).spec_with_at(row_index as int, elem_index as int, *final(r)),
    {
        self.col_elem_mut(elem_index, row_index)
    }

    /// Replaces element `elem_index` of column `col_index` with `value`.
    pub fn set_col_elem(&mut self, col_index: usize, elem_index: usize, value: T)
        requires
            col_index < 3,
            elem_index < 3,
        ensures
            final(self)@ == old(self)@.update(col_index * 3 + elem_index, value),
    {
        if col_index == 0 && elem_index == 0 {
            self.m00 = value;
        } else if col_index == 0 && elem_index == 1 {
            self.m10 = value;
        } else if col_index == 0 && elem_index == 2 {
            self.m20 = value;
        } else if col_index == 1 && elem_index == 0 {
            self.m01 = value;
        } else if col_index == 1 && elem_index == 1 {
            self.m11 = value;
        } else if col_index == 1 && elem_index == 2 {
            self.m21 = value;
        } else if col_index == 2 && elem_index == 0 {
            self.m02 = value;
        } else if col_index == 2 && elem_index == 1 {
            self.m12 = value;
        } else {
            self.m22 = value;
        }
        proof {
            assert(final(self)@ =~= old(self)@.update(col_index * 3 + elem_index, value));
        }
    }

    /// `d` on the diagonal, zero elsewhere.
    pub fn from_diagonal(d: Vector3<T>) -> (r: Self)
        ensures
            units_exact::<T>() ==> r == Self::spec_from_diagonal(d),
    {
        let z = T::zero();
        Self::from_components_row_major(d.x, z, z, z, d.y, z, z, z, d.z)
    }

    /// The identity: one on the diagonal, zero elsewhere.
    pub fn identity() -> (r: Self)
        ensures
            units_exact::<T>() ==> r == Self::spec_identity(),
    {
        Self::from_diagonal(Vector3::one())
    }

    /// Every element equal to the scalar's zero.
    pub fn zero() -> (r: Self)
        ensures
            units_exact::<T>() ==> r == Self::spec_splat(spec_zero::<T>()),
    {
        let s = T::zero();
        Matrix3 { m00: s, m10: s, m20: s, m01: s, m11: s, m21: s, m02: s, m12: s, m22: s }
    }

    /// Every element equal to the scalar's one.
    pub fn one() -> (r: Self)
        ensures
            units_exact::<T>() ==> r == Self::spec_splat(spec_one::<T>()),
    {
        let s = T::one();
        Matrix3 { m00: s, m10: s, m20: s, m01: s, m11: s, m21: s, m02: s, m12: s, m22: s }
    }

    /// The elements as an array, column by column.
    pub fn as_array(&self) -> (r: [T; 9])
        ensures
            r@ == self@,
    {
        let r = [self.m00, self.m10, self.m20, self.m01, self.m11, self.m21, self.m02, self.m12, self.m22];
        proof {
            assert(r@ =~= self@);
        }
        r
    }

    /// The elements as an array of columns.
    pub fn as_arrays(&self) -> (r: [[T; 3]; 3])
        ensures
            forall|c: int, e: int| 0 <= c < 3 && 0 <= e < 3 ==> #[trigger] r@[c]@[e] == self.spec_at(e, c),
    {
        [[self.m00, self.m10, self.m20], [self.m01, self.m11, self.m21], [self.m02, self.m12, self.m22]]
    }

    /// The determinant by cofactor expansion, term for term in the order the exec code
    /// evaluates it.
    pub open spec fn spec_det(self) -> Option<T> {
        let m00 = Some(self.m00);
        let m01 = Some(self.m01);
        let m02 = Some(self.m02);
        let m10 = Some(self.m10);
        let m11 = Some(self.m11);
        let m12 = Some(self.m12);
        let m20 = Some(self.m20);
        let m21 = Some(self.m21);
        let m22 = Some(self.m22);
        let t0 = opt_mul(opt_mul(m00, m11), m22);
        let t1 = opt_mul(opt_mul(m01, m12), m20);
        let t2 = opt_mul(opt_mul(m02, m10), m21);
        let t3 = opt_mul(opt_mul(m20, m11), m02);
        let t4 = opt_mul(opt_mul(m21, m12), m00);
        let t5 = opt_mul(opt_mul(m22, m10), m01);
        let s1 = opt_add(t0, t1);
        let s2 = opt_add(s1, t2);
        let s3 = opt_sub(s2, t3);
        let s4 = opt_sub(s3, t4);
        opt_sub(s4, t5)
    }

    /// The determinant, by the closed-form cofactor expansion.
    pub fn det(&self) -> (r: T)
        requires
            self.spec_det() is Some,
        ensures
            Some(r) == self.spec_det(),
    {
        let m00 = self.m00;
        let m01 = self.m01;
        let m02 = self.m02;
        let m10 = self.m10;
        let m11 = self.m11;
        let m12 = self.m12;
        let m20 = self.m20;
        let m21 = self.m21;
        let m22 = self.m22;
        m00 * m11 * m22
            + m01 * m12 * m20
            + m02 * m10 * m21
            - m20 * m11 * m02
            - m21 * m12 * m00
            - m22 * m10 * m01
    }

    /// The adjugate divided by the determinant, entry by entry; `d` is one over the
    /// determinant.
    pub open spec fn spec_inverse_of(self, d: Option<T>) -> Option<Self> {
        let m00 = Some(self.m00);
        let m01 = Some(self.m01);
        let m02 = Some(self.m02);
        let m10 = Some(self.m10);
        let m11 = Some(self.m11);
        let m12 = Some(self.m12);
        let m20 = Some(self.m20);
        let m21 = Some(self.m21);
        let m22 = Some(self.m22);
        mat3_of(
            opt_mul(d, opt_sub(opt_mul(m11, m22), opt_mul(m12, m21))),
            opt_mul(d, opt_sub(opt_mul(m12, m20), opt_mul(m10, m22))),
            opt_mul(d, opt_sub(opt_mul(m10, m21), opt_mul(m11, m20))),
            opt_mul(d, opt_sub(opt_mul(m02, m21), opt_mul(m01, m22))),
            opt_mul(d, opt_sub(opt_mul(m00, m22), opt_mul(m02, m20))),
            opt_mul(d, opt_sub(opt_mul(m01, m20), opt_mul(m00, m21))),
            opt_mul(d, opt_sub(opt_mul(m01, m12), opt_mul(m02, m11))),
            opt_mul(d, opt_sub(opt_mul(m02, m10), opt_mul(m00, m12))),
            opt_mul(d, opt_sub(opt_mul(m00, m11), opt_mul(m01, m10))),
        )
    }

    /// What `inverse` returns: `Some(None)` where the determinant equals zero,
    /// `Some(Some(m))` with `m` the adjugate over the determinant otherwise, and `None`
    /// where the scalar arithmetic of that has no defined result.
    pub open spec fn spec_inverse(self) -> Option<Option<Self>> {
        let det = self.spec_det();
        if det is Some && T::obeys_eq_spec() && units_exact::<T>() {
            if spec_eq(det->0, spec_zero::<T>()) {
                Some(None)
            } else {
                let inv = self.spec_inverse_of(opt_div(opt_one::<T>(), det));
                if inv is Some {
                    Some(inv)
                } else {
                    None
                }
            }
        } else {
            None
        }
    }

    /// The inverse: `None` when the determinant equals zero (an exact test, no tolerance),
    /// else the adjugate divided by the determinant.
    pub fn inverse(&self) -> (r: Option<Self>)
        requires
            self.spec_inverse() is Some,
        ensures
            Some(r) == self.spec_inverse(),
    {
        let det = self.det();
        if det.eq(&T::zero()) {
            None
        } else {
            let d = T::one() / det;
            let m00 = self.m00;
            let m01 = self.m01;
            let m02 = self.m02;
            let m10 = self.m10;
            let m11 = self.m11;
            let m12 = self.m12;
            let m20 = self.m20;
            let m21 = self.m21;
            let m22 = self.m22;
            Some(Self::from_components_row_major(
                d * (m11 * m22 - m12 * m21),
                d * (m02 * m21 - m01 * m22),
                d * (m01 * m12 - m02 * m11),
                d * (m12 * m20 - m10 * m22),
                d * (m00 * m22 - m02 * m20),
                d * (m02 * m10 - m00 * m12),
                d * (m10 * m21 - m11 * m20),
                d * (m01 * m20 - m00 * m21),
                d * (m00 * m11 - m01 * m10),
            ))
        }
    }
}

impl<T: Base> vstd::std_specs::ops::MulSpecImpl<Matrix3<T>> for Matrix3<T> {
    open spec fn obeys_mul_spec() -> bool {
        true
    }

    open spec fn mul_req(self, rhs: Matrix3<T>) -> bool {
        self.spec_mul(rhs) is Some
    }

    open spec fn mul_spec(self, rhs: Matrix3<T>) -> Self {
        self.spec_mul(rhs)->0
    }
}

impl<T: Base> Mul<Matrix3<T>> for Matrix3<T> {
    type Output = Self;

    fn mul(self, rhs: Matrix3<T>) -> (r: Self)
        ensures
            Some(r) == self.spec_mul(rhs),
    {
        let r0 = self.row(0);
        let r1 = self.row(1);
        let r2 = self.row(2);
        let c0 = rhs.col(0);
        let c1 = rhs.col(1);
        let c2 = rhs.col(2);
        Matrix3::from_components_col_major(
            r0.dot(c0),
            r1.dot(c0),
            r2.dot(c0),
            r0.dot(c1),
            r1.dot(c1),
            r2.dot(c1),
            r0.dot(c2),
            r1.dot(c2),
            r2.dot(c2),
        )
    }
}

impl<T: Base> vstd::std_specs::ops::MulSpecImpl<Vector3<T>> for Matrix3<T> {
    open spec fn obeys_mul_spec() -> bool {
        true
    }

    open spec fn mul_req(self, rhs: Vector3<T>) -> bool {
        self.spec_mul_vec(rhs) is Some
    }

    open spec fn mul_spec(self, rhs: Vector3<T>) -> Vector3<T> {
        self.spec_mul_vec(rhs)->0
    }
}

impl<T: Base> Mul<Vector3<T>> for Matrix3<T> {
    type Output = Vector3<T>;

    fn mul(self, rhs: Vector3<T>) -> (r: Vector3<T>)
        ensures
            Some(r) == self.spec_mul_vec(rhs),
    {
        let r0 = self.row(0);
        let r1 = self.row(1);
        let r2 = self.row(2);
        Vector3::new(r0.dot(rhs), r1.dot(rhs), r2.dot(rhs))
    }
}

/// A 4×4 matrix. The field `mRC` holds the element in row `R` and column `C`;
/// the fields are laid out column by column.
#[derive(Clone, Copy, Debug, PartialEq, PartialOrd)]
pub struct Matrix4<T: Base> {
    pub m00: T,
    pub m10: T,
    pub m20: T,
    pub m30: T,
    pub m01: T,
    pub m11: T,
    pub m21: T,
    pub m31: T,
    pub m02: T,
    pub m12: T,
    pub m22: T,
    pub m32: T,
    pub m03: T,
    pub m13: T,
    pub m23: T,
    pub m33: T,
}

/// The matrix of the given elements, listed column by column, where each of them is defined.
pub open spec fn mat4_of<T: Base>(
    m00: Option<T>,
    m10: Option<T>,
    m20: Option<T>,
    m30: Option<T>,
    m01: Option<T>,
    m11: Option<T>,
    m21: Option<T>,
    m31: Option<T>,
    m02: Option<T>,
    m12: Option<T>,
    m22: Option<T>,
    m32: Option<T>,
    m03: Option<T>,
    m13: Option<T>,
    m23: Option<T>,
    m33: Option<T>,
) -> Option<Matrix4<T>> {
    if m00 is Some && m10 is Some && m20 is Some && m30 is Some && m01 is Some && m11 is Some && m21 is Some && m31 is Some && m02 is Some && m12 is Some && m22 is Some && m32 is Some && m03 is Some && m13 is Some && m23 is Some && m33 is Some {
        Some(Matrix4 { m00: m00->0, m10: m10->0, m20: m20->0, m30: m30->0, m01: m01->0, m11: m11->0, m21: m21->0, m31: m31->0, m02: m02->0, m12: m12->0, m22: m22->0, m32: m32->0, m03: m03->0, m13: m13->0, m23: m23->0, m33: m33->0 })
    } else {
        None
    }
}

impl<T: Base> View for Matrix4<T> {
    type V = Seq<T>;

    /// The elements column by column: row `r` of column `c` at `c * 4 + r`.
    open spec fn view(&self) -> Seq<T> {
        seq![self.m00, self.m10, self.m20, self.m30, self.m01, self.m11, self.m21, self.m31, self.m02, self.m12, self.m22, self.m32, self.m03, self.m13, self.m23, self.m33]
    }
}

impl<T: Base> Matrix4<T> {
    /// The element in row `r` and column `c`.
    pub open spec fn spec_at(self, r: int, c: int) -> T {
        self@[c * 4 + r]
    }

    /// Column `i`.
    pub open spec fn spec_col(self, i: int) -> Vector4<T> {
        Vector4 { x: self.spec_at(0, i), y: self.spec_at(1, i), z: self.spec_at(2, i), w: self.spec_at(3, i) }
    }

    /// Row `i`.
    pub open spec fn spec_row(self, i: int) -> Vector4<T> {
        Vector4 { x: self.spec_at(i, 0), y: self.spec_at(i, 1), z: self.spec_at(i, 2), w: self.spec_at(i, 3) }
    }

    /// The element in row `r` and column `c` replaced with `v`.
    pub open spec fn spec_with_at(self, r: int, c: int, v: T) -> Self {
        Matrix4 {
            m00: if r == 0 && c == 0 { v } else { self.m00 },
            m10: if r == 1 && c == 0 { v } else { self.m10 },
            m20: if r == 2 && c == 0 { v } else { self.m20 },
            m30: if r == 3 && c == 0 { v } else { self.m30 },
            m01: if r == 0 && c == 1 { v } else { self.m01 },
            m11: if r == 1 && c == 1 { v } else { self.m11 },
            m21: if r == 2 && c == 1 { v } else { self.m21 },
            m31: if r == 3 && c == 1 { v } else { self.m31 },
            m02: if r == 0 && c == 2 { v } else { self.m02 },
            m12: if r == 1 && c == 2 { v } else { self.m12 },
            m22: if r == 2 && c == 2 { v } else { self.m22 },
            m32: if r == 3 && c == 2 { v } else { self.m32 },
            m03: if r == 0 && c == 3 { v } else { self.m03 },
            m13: if r == 1 && c == 3 { v } else { self.m13 },
            m23: if r == 2 && c == 3 { v } else { self.m23 },
            m33: if r == 3 && c == 3 { v } else { self.m33 },
        }
    }

    /// Rows and columns swapped.
    pub open spec fn spec_transpose(self) -> Self {
        Matrix4 { m00: self.m00, m10: self.m01, m20: self.m02, m30: self.m03, m01: self.m10, m11: self.m11, m21: self.m12, m31: self.m13, m02: self.m20, m12: self.m21, m22: self.m22, m32: self.m23, m03: self.m30, m13: self.m31, m23: self.m32, m33: self.m33 }
    }

    /// Every element equal to `s`.
    pub open spec fn spec_splat(s: T) -> Self {
        Matrix4 { m00: s, m10: s, m20: s, m30: s, m01: s, m11: s, m21: s, m31: s, m02: s, m12: s, m22: s, m32: s, m03: s, m13: s, m23: s, m33: s }
    }

    /// `d` on the diagonal, zero elsewhere.
    pub open spec fn spec_from_diagonal(d: Vector4<T>) -> Self {
        let z = spec_zero::<T>();
        Matrix4 { m00: d.x, m10: z, m20: z, m30: z, m01: z, m11: d.y, m21: z, m31: z, m02: z, m12: z, m22: d.z, m32: z, m03: z, m13: z, m23: z, m33: d.w }
    }

    /// The identity: one on the diagonal, zero elsewhere.
    pub open spec fn spec_identity() -> Self {
        Self::spec_from_diagonal(Vector4::spec_splat(spec_one::<T>()))
    }

    /// The matrix product: the element in row `r` and column `c` is the dot product of
    /// `self`'s row `r` and `o`'s column `c`.
    pub open spec fn spec_mul(self, o: Self) -> Option<Self> {
        mat4_of(
            self.spec_row(0).spec_dot(o.spec_col(0)),
            self.spec_row(1).spec_dot(o.spec_col(0)),
            self.spec_row(2).spec_dot(o.spec_col(0)),
            self.spec_row(3).spec_dot(o.spec_col(0)),
            self.spec_row(0).spec_dot(o.spec_col(1)),
            self.spec_row(1).spec_dot(o.spec_col(1)),
            self.spec_row(2).spec_dot(o.spec_col(1)),
            self.spec_row(3).spec_dot(o.spec_col(1)),
            self.spec_row(0).spec_dot(o.spec_col(2)),
            self.spec_row(1).spec_dot(o.spec_col(2)),
            self.spec_row(2).spec_dot(o.spec_col(2)),
            self.spec_row(3).spec_dot(o.spec_col(2)),
            self.spec_row(0).spec_dot(o.spec_col(3)),
            self.spec_row(1).spec_dot(o.spec_col(3)),
            self.spec_row(2).spec_dot(o.spec_col(3)),
            self.spec_row(3).spec_dot(o.spec_col(3)),
        )
    }

    /// The product with a column vector: component `r` is the dot product of row `r` and `v`.
    pub open spec fn spec_mul_vec(self, v: Vector4<T>) -> Option<Vector4<T>> {
        vec4_of(self.spec_row(0).spec_dot(v), self.spec_row(1).spec_dot(v), self.spec_row(2).spec_dot(v), self.spec_row(3).spec_dot(v))
    }

    /// The number of rows, which is also the number of columns.
    pub fn dims() -> (r: usize)
        ensures
            r == 4,
    {
        4
    }

    /// The matrix of the given elements, listed row by row.
    pub fn from_components_row_major(
        m00: T,
        m01: T,
        m02: T,
        m03: T,
        m10: T,
        m11: T,
        m12: T,
        m13: T,
        m20: T,
        m21: T,
        m22: T,
        m23: T,
        m30: T,
        m31: T,
        m32: T,
        m33: T,
    ) -> (r: Self)
        ensures
            r == (Matrix4 { m00, m01, m02, m03, m10, m11, m12, m13, m20, m21, m22, m23, m30, m31, m32, m33 }),
    {
        Matrix4 { m00, m01, m02, m03, m10, m11, m12, m13, m20, m21, m22, m23, m30, m31, m32, m33 }
    }

    /// The matrix of the given elements, listed column by column.
    pub fn from_components_col_major(
        m00: T,
        m10: T,
        m20: T,
        m30: T,
        m01: T,
        m11: T,
        m21: T,
        m31: T,
        m02: T,
        m12: T,
        m22: T,
        m32: T,
        m03: T,
        m13: T,
        m23: T,
        m33: T,
    ) -> (r: Self)
        ensures
            r == (Matrix4 { m00, m10, m20, m30, m01, m11, m21, m31, m02, m12, m22, m32, m03, m13, m23, m33 }),
    {
        Matrix4 { m00, m10, m20, m30, m01, m11, m21, m31, m02, m12, m22, m32, m03, m13, m23, m33 }
    }

    /// The matrix with the given columns.
    pub fn from_cols(c0: Vector4<T>, c1: Vector4<T>, c2: Vector4<T>, c3: Vector4<T>) -> (r: Self)
        ensures
            r.spec_col(0) == c0,
            r.spec_col(1) == c1,
            r.spec_col(2) == c2,
            r.spec_col(3) == c3,
    {
        Self::from_components_col_major(c0.x, c0.y, c0.z, c0.w, c1.x, c1.y, c1.z, c1.w, c2.x, c2.y, c2.z, c2.w, c3.x, c3.y, c3.z, c3.w)
    }

    /// The matrix with the given rows.
    pub fn from_rows(r0: Vector4<T>, r1: Vector4<T>, r2: Vector4<T>, r3: Vector4<T>) -> (r: Self)
        ensures
            r.spec_row(0) == r0,
            r.spec_row(1) == r1,
            r.spec_row(2) == r2,
            r.spec_row(3) == r3,
    {
        Self::from_components_row_major(r0.x, r0.y, r0.z, r0.w, r1.x, r1.y, r1.z, r1.w, r2.x, r2.y, r2.z, r2.w, r3.x, r3.y, r3.z, r3.w)
    }

    /// Rows and columns swapped.
    pub fn transpose(&self) -> (r: Self)
        ensures
            r == self.spec_transpose(),
    {
        Self::from_components_row_major(self.m00, self.m10, self.m20, self.m30, self.m01, self.m11, self.m21, self.m31, self.m02, self.m12, self.m22, self.m32, self.m03, self.m13, self.m23, self.m33)
    }

    /// Column `index`, or the error when `index` is not below the dimension.
    pub fn col_checked(&self, index: usize) -> (r: Result<Vector4<T>, IndexOutOfRange>)
        ensures
            index < 4 ==> r == Ok::<Vector4<T>, IndexOutOfRange>(self.spec_col(index as int)),
            index >= 4 ==> r == Err::<Vector4<T>, IndexOutOfRange>(IndexOutOfRange { index, len: 4 }),
    {
        if index == 0 {
            Ok(Vector4::new(self.m00, self.m10, self.m20, self.m30))
        } else if index == 1 {
            Ok(Vector4::new(self.m01, self.m11, self.m21, self.m31))
        } else if index == 2 {
            Ok(Vector4::new(self.m02, self.m12, self.m22, self.m32))
        } else if index == 3 {
            Ok(Vector4::new(self.m03, self.m13, self.m23, self.m33))
        } else {
            Err(IndexOutOfRange { index, len: 4 })
        }
    }

    /// A copy of column `index`.
    pub fn col(&self, index: usize) -> (r: Vector4<T>)
        requires
            index < 4,
        ensures
            r == self.spec_col(index as int),
    {
        self.col_checked(index).unwrap()
    }

    /// Row `index`, or the error when `index` is not below the dimension.
    pub fn row_checked(&self, index: usize) -> (r: Result<Vector4<T>, IndexOutOfRange>)
        ensures
            index < 4 ==> r == Ok::<Vector4<T>, IndexOutOfRange>(self.spec_row(index as int)),
            index >= 4 ==> r == Err::<Vector4<T>, IndexOutOfRange>(IndexOutOfRange { index, len: 4 }),
    {
        if index == 0 {
            Ok(Vector4::new(self.m00, self.m01, self.m02, self.m03))
        } else if index == 1 {
            Ok(Vector4::new(self.m10, self.m11, self.m12, self.m13))
        } else if index == 2 {
            Ok(Vector4::new(self.m20, self.m21, self.m22, self.m23))
        } else if index == 3 {
            Ok(Vector4::new(self.m30, self.m31, self.m32, self.m33))
        } else {
            Err(IndexOutOfRange { index, len: 4 })
        }
    }

    /// A copy of row `index`.
    pub fn row(&self, index: usize) -> (r: Vector4<T>)
        requires
            index < 4,
        ensures
            r == self.spec_row(index as int),
    {
        self.row_checked(index).unwrap()
    }

    /// Element `elem_index` of column `col_index`.
    pub fn col_elem(&self, col_index: usize, elem_index: usize) -> (r: T)
        requires
            col_index < 4,
            elem_index < 4,
        ensures
            r == self.spec_at(elem_index as int, col_index as int),
    {
        *self.col_elem_ref(col_index, elem_index)
    }

    /// Element `elem_index` of row `row_index`.
    pub fn row_elem(&self, row_index: usize, elem_index: usize) -> (r: T)
        requires
            row_index < 4,
            elem_index < 4,
        ensures
            r == self.spec_at(row_index as int, elem_index as int),
    {
        *self.col_elem_ref(elem_index, row_index)
    }

    /// A reference to element `elem_index` of column `col_index`.
    pub fn col_elem_ref(&self, col_index: usize, elem_index: usize) -> (r: &T)
        requires
            col_index < 4,
            elem_index < 4,
        ensures
            *r == self.spec_at(elem_index as int, col_index as int),
    {
        if col_index == 0 && elem_index == 0 {
            &self.m00
        } else if col_index == 0 && elem_index == 1 {
            &self.m10
        } else if col_index == 0 && elem_index == 2 {
            &self.m20
        } else if col_index == 0 && elem_index == 3 {
            &self.m30
        } else if col_index == 1 && elem_index == 0 {
            &self.m01
        } else if col_index == 1 && elem_index == 1 {
            &self.m11
        } else if col_index == 1 && elem_index == 2 {
            &self.m21
        } else if col_index == 1 && elem_index == 3 {
            &self.m31
        } else if col_index == 2 && elem_index == 0 {
            &self.m02
        } else if col_index == 2 && elem_index == 1 {
            &self.m12
        } else if col_index == 2 && elem_index == 2 {
            &self.m22
        } else if col_index == 2 && elem_index == 3 {
            &self.m32
        } else if col_index == 3 && elem_index == 0 {
            &self.m03
        } else if col_index == 3 && elem_index == 1 {
            &self.m13
        } else if col_index == 3 && elem_index == 2 {
            &self.m23
        } else {
            &self.m33
        }
    }

    /// A reference to element `elem_index` of row `row_index`.
    pub fn row_elem_ref(&self, row_index: usize, elem_index: usize) -> (r: &T)
        requires
            row_index < 4,
            elem_index < 4,
        ensures
            *r == self.spec_at(row_index as int, elem_index as int),
    {
        self.col_elem_ref(elem_index, row_index)
    }

    /// A mutable reference to element `elem_index` of column `col_index`; what is written
    /// through it lands in that element.
    pub fn col_elem_mut(&mut self, col_index: usize, elem_index: usize) -> (r: &mut T)
        requires
            col_index < 4,
            elem_index < 4,
        ensures
            *r == old(self).spec_at(elem_index as int, col_index as int),
            *final(self) == old(self).spec_with_at(elem_index as int, col_index as int, *final(r)),
    {
        if col_index == 0 && elem_index == 0 {
            &mut self.m00
        } else if col_index == 0 && elem_index == 1 {
            &mut self.m10
        } else if col_index == 0 && elem_index == 2 {
            &mut self.m20
        } else if col_index == 0 && elem_index == 3 {
            &mut self.m30
        } else if col_index == 1 && elem_index == 0 {
            &mut self.m01
        } else if col_index == 1 && elem_index == 1 {
            &mut self.m11
        } else if col_index == 1 && elem_index == 2 {
            &mut self.m21
        } else if col_index == 1 && elem_index == 3 {
            &mut self.m31
        } else if col_index == 2 && elem_index == 0 {
            &mut self.m02
        } else if col_index == 2 && elem_index == 1 {
            &mut self.m12
        } else if col_index == 2 && elem_index == 2 {
            &mut self.m22
        } else if col_index == 2 && elem_index == 3 {
            &mut self.m32
        } else if col_index == 3 && elem_index == 0 {
            &mut self.m03
        } else if col_index == 3 && elem_index == 1 {
            &mut self.m13
        } else if col_index == 3 && elem_index == 2 {
            &mut self.m23
        } else {
            &mut self.m33
        }
    }

    /// A mutable reference to element `elem_index` of row `row_index`.
    pub fn row_elem_mut(&mut self, row_index: usize, elem_index: usize) -> (r: &mut T)
        requires
            row_index < 4,
            elem_index < 4,
        ensures
            *r == old(self).spec_at(row_index as int, elem_index as int),
            *final(self) == old(self).spec_with_at(row_index as int, elem_index as int, *final(r)),
    {
        self.col_elem_mut(elem_index, row_index)
    }

    /// Replaces element `elem_index` of column `col_index` with `value`.
    pub fn set_col_elem(&mut self, col_index: usize, elem_index: usize, value: T)
        requires
            col_index < 4,
            elem_index < 4,
        ensures
            final(self)@ == old(self)@.update(col_index * 4 + elem_index, value),
    {
        if col_index == 0 && elem_index == 0 {
            self.m00 = value;
        } else if col_index == 0 && elem_index == 1 {
            self.m10 = value;
        } else if col_index == 0 && elem_index == 2 {
            self.m20 = value;
        } else if col_index == 0 && elem_index == 3 {
            self.m30 = value;
        } else if col_index == 1 && elem_index == 0 {
            self.m01 = value;
        } else if col_index == 1 && elem_index == 1 {
            self.m11 = value;
        } else if col_index == 1 && elem_index == 2 {
            self.m21 = value;
        } else if col_index == 1 && elem_index == 3 {
            self.m31 = value;
        } else if col_index == 2 && elem_index == 0 {
            self.m02 = value;
        } else if col_index == 2 && elem_index == 1 {
            self.m12 = value;
        } else if col_index == 2 && elem_index == 2 {
            self.m22 = value;
        } else if col_index == 2 && elem_index == 3 {
            self.m32 = value;
        } else if col_index == 3 && elem_index == 0 {
            self.m03 = value;
        } else if col_index == 3 && elem_index == 1 {
            self.m13 = value;
        } else if col_index == 3 && elem_index == 2 {
            self.m23 = value;
        } else {
            self.m33 = value;
        }
        proof {
            assert(final(self)@ =~= old(self)@.update(col_index * 4 + elem_index, value));
        }
    }

    /// `d` on the diagonal, zero elsewhere.
    pub fn from_diagonal(d: Vector4<T>) -> (r: Self)
        ensures
            units_exact::<T>() ==> r == Self::spec_from_diagonal(d),
    {
        let z = T::zero();
        Self::from_components_row_major(d.x, z, z, z, z, d.y, z, z, z, z, d.z, z, z, z, z, d.w)
    }

    /// The identity: one on the diagonal, zero elsewhere.
    pub fn identity() -> (r: Self)
        ensures
            units_exact::<T>() ==> r == Self::spec_identity(),
    {
        Self::from_diagonal(Vector4::one())
    }

    /// Every element equal to the scalar's zero.
    pub fn zero() -> (r: Self)
        ensures
            units_exact::<T>() ==> r == Self::spec_splat(spec_zero::<T>()),
    {
        let s = T::zero();
        Matrix4 { m00: s, m10: s, m20: s, m30: s, m01: s, m11: s, m21: s, m31: s, m02: s, m12: s, m22: s, m32: s, m03: s, m13: s, m23: s, m33: s }
    }

    /// Every element equal to the scalar's one.
    pub fn one() -> (r: Self)
        ensures
            units_exact::<T>() ==> r == Self::spec_splat(spec_one::<T>()),
    {
        let s = T::one();
        Matrix4 { m00: s, m10: s, m20: s, m30: s, m01: s, m11: s, m21: s, m31: s, m02: s, m12: s, m22: s, m32: s, m03: s, m13: s, m23: s, m33: s }
    }

    /// The elements as an array, column by column.
    pub fn as_array(&self) -> (r: [T; 16])
        ensures
            r@ == self@,
    {
        let r = [self.m00, self.m10, self.m20, self.m30, self.m01, self.m11, self.m21, self.m31, self.m02, self.m12, self.m22, self.m32, self.m03, self.m13, self.m23, self.m33];
        proof {
            assert(r@ =~= self@);
        }
        r
    }

    /// The elements as an array of columns.
    pub fn as_arrays(&self) -> (r: [[T; 4]; 4])
        ensures
            forall|c: int, e: int| 0 <= c < 4 && 0 <= e < 4 ==> #[trigger] r@[c]@[e] == self.spec_at(e, c),
    {
        [[self.m00, self.m10, self.m20, self.m30], [self.m01, self.m11, self.m21, self.m31], [self.m02, self.m12, self.m22, self.m32], [self.m03, self.m13, self.m23, self.m33]]
    }

    /// The determinant by cofactor expansion, term for term in the order the exec code
    /// evaluates it.
    pub open spec fn spec_det(self) -> Option<T> {
        let m00 = Some(self.m00);
        let m01 = Some(self.m01);
        let m02 = Some(self.m02);
        let m03 = Some(self.m03);
        let m10 = Some(self.m10);
        let m11 = Some(self.m11);
        let m12 = Some(self.m12);
        let m13 = Some(self.m13);
        let m20 = Some(self.m20);
        let m21 = Some(self.m21);
        let m22 = Some(self.m22);
        let m23 = Some(self.m23);
        let m30 = Some(self.m30);
        let m31 = Some(self.m31);
        let m32 = Some(self.m32);
        let m33 = Some(self.m33);
        let t0 = opt_mul(opt_mul(opt_mul(m00, m11), m22), m33);
        let t1 = opt_mul(opt_mul(opt_mul(m00, m12), m23), m31);
        let t2 = opt_mul(opt_mul(opt_mul(m00, m13), m21), m32);
        let t3 = opt_mul(opt_mul(opt_mul(m01, m10), m23), m32);
        let t4 = opt_mul(opt_mul(opt_mul(m01, m12), m20), m33);
        let t5 = opt_mul(opt_mul(opt_mul(m01, m13), m22), m30);
        let t6 = opt_mul(opt_mul(opt_mul(m02, m10), m21), m33);
        let t7 = opt_mul(opt_mul(opt_mul(m02, m11), m23), m30);
        let t8 = opt_mul(opt_mul(opt_mul(m02, m13), m20), m31);
        let t9 = opt_mul(opt_mul(opt_mul(m03, m10), m22), m31);
        let t10 = opt_mul(opt_mul(opt_mul(m03, m11), m20), m32);
        let t11 = opt_mul(opt_mul(opt_mul(m03, m12), m21), m30);
        let t12 = opt_mul(opt_mul(opt_mul(m00, m11), m23), m32);
        let t13 = opt_mul(opt_mul(opt_mul(m00, m12), m21), m33);
        let t14 = opt_mul(opt_mul(opt_mul(m00, m13), m22), m31);
        let t15 = opt_mul(opt_mul(opt_mul(m01, m10), m22), m33);
        let t16 = opt_mul(opt_mul(opt_mul(m01, m12), m23), m30);
        let t17 = opt_mul(opt_mul(opt_mul(m01, m13), m20), m32);
        let t18 = opt_mul(opt_mul(opt_mul(m02, m10), m23), m31);
        let t19 = opt_mul(opt_mul(opt_mul(m02, m11), m20), m33);
        let t20 = opt_mul(opt_mul(opt_mul(m02, m13), m21), m30);
        let t21 = opt_mul(opt_mul(opt_mul(m03, m10), m21), m32);
        let t22 = opt_mul(opt_mul(opt_mul(m03, m11), m22), m30);
        let t23 = opt_mul(opt_mul(opt_mul(m03, m12), m20), m31);
        let s1 = opt_add(t0, t1);
        let s2 = opt_add(s1, t2);
        let s3 = opt_add(s2, t3);
        let s4 = opt_add(s3, t4);
        let s5 = opt_add(s4, t5);
        let s6 = opt_add(s5, t6);
        let s7 = opt_add(s6, t7);
        let s8 = opt_add(s7, t8);
        let s9 = opt_add(s8, t9);
        let s10 = opt_add(s9, t10);
        let s11 = opt_add(s10, t11);
        let s12 = opt_sub(s11, t12);
        let s13 = opt_sub(s12, t13);
        let s14 = opt_sub(s13, t14);
        let s15 = opt_sub(s14, t15);
        let s16 = opt_sub(s15, t16);
        let s17 = opt_sub(s16, t17);
        let s18 = opt_sub(s17, t18);
        let s19 = opt_sub(s18, t19);
        let s20 = opt_sub(s19, t20);
        let s21 = opt_sub(s20, t21);
        let s22 = opt_sub(s21, t22);
        opt_sub(s22, t23)
    }

    /// The determinant, by the closed-form cofactor expansion.
    pub fn det(&self) -> (r: T)
        requires
            self.spec_det() is Some,
        ensures
            Some(r) == self.spec_det(),
    {
        let m00 = self.m00;
        let m01 = self.m01;
        let m02 = self.m02;
        let m03 = self.m03;
        let m10 = self.m10;
        let m11 = self.m11;
        let m12 = self.m12;
        let m13 = self.m13;
        let m20 = self.m20;
        let m21 = self.m21;
        let m22 = self.m22;
        let m23 = self.m23;
        let m30 = self.m30;
        let m31 = self.m31;
        let m32 = self.m32;
        let m33 = self.m33;
        m00 * m11 * m22 * m33
            + m00 * m12 * m23 * m31
            + m00 * m13 * m21 * m32
            + m01 * m10 * m23 * m32
            + m01 * m12 * m20 * m33
            + m01 * m13 * m22 * m30
            + m02 * m10 * m21 * m33
            + m02 * m11 * m23 * m30
            + m02 * m13 * m20 * m31
            + m03 * m10 * m22 * m31
            + m03 * m11 * m20 * m32
            + m03 * m12 * m21 * m30
            - m00 * m11 * m23 * m32
            - m00 * m12 * m21 * m33
            - m00 * m13 * m22 * m31
            - m01 * m10 * m22 * m33
            - m01 * m12 * m23 * m30
            - m01 * m13 * m20 * m32
            - m02 * m10 * m23 * m31
            - m02 * m11 * m20 * m33
            - m02 * m13 * m21 * m30
            - m03 * m10 * m21 * m32
            - m03 * m11 * m22 * m30
            - m03 * m12 * m20 * m31
    }

    /// The adjugate divided by the determinant, entry by entry; `d` is one over the
    /// determinant.
    pub open spec fn spec_inverse_of(self, d: Option<T>) -> Option<Self> {
        let m00 = Some(self.m00);
        let m01 = Some(self.m01);
        let m02 = Some(self.m02);
        let m03 = Some(self.m03);
        let m10 = Some(self.m10);
        let m11 = Some(self.m11);
        let m12 = Some(self.m12);
        let m13 = Some(self.m13);
        let m20 = Some(self.m20);
        let m21 = Some(self.m21);
        let m22 = Some(self.m22);
        let m23 = Some(self.m23);
        let m30 = Some(self.m30);
        let m31 = Some(self.m31);
        let m32 = Some(self.m32);
        let m33 = Some(self.m33);
        mat4_of(
            opt_mul(d, opt_sub(opt_sub(opt_sub(opt_add(opt_add(opt_mul(opt_mul(m11, m22), m33), opt_mul(opt_mul(m12, m23), m31)), opt_mul(opt_mul(m13, m21), m32)), opt_mul(opt_mul(m11, m23), m32)), opt_mul(opt_mul(m12, m21), m33)), opt_mul(opt_mul(m13, m22), m31))),
            opt_mul(d, opt_sub(opt_sub(opt_sub(opt_add(opt_add(opt_mul(opt_mul(m10, m23), m32), opt_mul(opt_mul(m12, m20), m33)), opt_mul(opt_mul(m13, m22), m30)), opt_mul(opt_mul(m10, m22), m33)), opt_mul(opt_mul(m12, m23), m30)), opt_mul(opt_mul(m13, m20), m32))),
            opt_mul(d, opt_sub(opt_sub(opt_sub(opt_add(opt_add(opt_mul(opt_mul(m10, m21), m33), opt_mul(opt_mul(m11, m23), m30)), opt_mul(opt_mul(m13, m20), m31)), opt_mul(opt_mul(m10, m23), m31)), opt_mul(opt_mul(m11, m20), m33)), opt_mul(opt_mul(m13, m21), m30))),
            opt_mul(d, opt_sub(opt_sub(opt_sub(opt_add(opt_add(opt_mul(opt_mul(m10, m22), m31), opt_mul(opt_mul(m11, m20), m32)), opt_mul(opt_mul(m12, m21), m30)), opt_mul(opt_mul(m10, m21), m32)), opt_mul(opt_mul(m11, m22), m30)), opt_mul(opt_mul(m12, m20), m31))),
            opt_mul(d, opt_sub(opt_sub(opt_sub(opt_add(opt_add(opt_mul(opt_mul(m01, m23), m32), opt_mul(opt_mul(m02, m21), m33)), opt_mul(opt_mul(m03, m22), m31)), opt_mul(opt_mul(m01, m22), m33)), opt_mul(opt_mul(m02, m23), m31)), opt_mul(opt_mul(m03, m21), m32))),
            opt_mul(d, opt_sub(opt_sub(opt_sub(opt_add(opt_add(opt_mul(opt_mul(m00, m22), m33), opt_mul(opt_mul(m02, m23), m30)), opt_mul(opt_mul(m03, m20), m32)), opt_mul(opt_mul(m00, m23), m32)), opt_mul(opt_mul(m02, m20), m33)), opt_mul(opt_mul(m03, m22), m30))),
            opt_mul(d, opt_sub(opt_sub(opt_sub(opt_add(opt_add(opt_mul(opt_mul(m00, m23), m31), opt_mul(opt_mul(m01, m20), m33)), opt_mul(opt_mul(m03, m21), m30)), opt_mul(opt_mul(m00, m21), m33)), opt_mul(opt_mul(m01, m23), m30)), opt_mul(opt_mul(m03, m20), m31))),
            opt_mul(d, opt_sub(opt_sub(opt_sub(opt_add(opt_add(opt_mul(opt_mul(m00, m21), m32), opt_mul(opt_mul(m01, m22), m30)), opt_mul(opt_mul(m02, m20), m31)), opt_mul(opt_mul(m00, m22), m31)), opt_mul(opt_mul(m01, m20), m32)), opt_mul(opt_mul(m02, m21), m30))),
            opt_mul(d, opt_sub(opt_sub(opt_sub(opt_add(opt_add(opt_mul(opt_mul(m01, m12), m33), opt_mul(opt_mul(m02, m13), m31)), opt_mul(opt_mul(m03, m11), m32)), opt_mul(opt_mul(m01, m13), m32)), opt_mul(opt_mul(m02, m11), m33)), opt_mul(opt_mul(m03, m12), m31))),
            opt_mul(d, opt_sub(opt_sub(opt_sub(opt_add(opt_add(opt_mul(opt_mul(m00, m13), m32), opt_mul(opt_mul(m02, m10), m33)), opt_mul(opt_mul(m03, m12), m30)), opt_mul(opt_mul(m00, m12), m33)), opt_mul(opt_mul(m02, m13), m30)), opt_mul(opt_mul(m03, m10), m32))),
            opt_mul(d, opt_sub(opt_sub(opt_sub(opt_add(opt_add(opt_mul(opt_mul(m00, m11), m33), opt_mul(opt_mul(m01, m13), m30)), opt_mul(opt_mul(m03, m10), m31)), opt_mul(opt_mul(m00, m13), m31)), opt_mul(opt_mul(m01, m10), m33)), opt_mul(opt_mul(m03, m11), m30))),
            opt_mul(d, opt_sub(opt_sub(opt_sub(opt_add(opt_add(opt_mul(opt_mul(m00, m12), m31), opt_mul(opt_mul(m01, m10), m32)), opt_mul(opt_mul(m02, m11), m30)), opt_mul(opt_mul(m00, m11), m32)), opt_mul(opt_mul(m01, m12), m30)), opt_mul(opt_mul(m02, m10), m31))),
            opt_mul(d, opt_sub(opt_sub(opt_sub(opt_add(opt_add(opt_mul(opt_mul(m01, m13), m22), opt_mul(opt_mul(m02, m11), m23)), opt_mul(opt_mul(m03, m12), m21)), opt_mul(opt_mul(m01, m12), m23)), opt_mul(opt_mul(m02, m13), m21)), opt_mul(opt_mul(m03, m11), m22))),
            opt_mul(d, opt_sub(opt_sub(opt_sub(opt_add(opt_add(opt_mul(opt_mul(m00, m12), m23), opt_mul(opt_mul(m02, m13), m20)), opt_mul(opt_mul(m03, m10), m22)), opt_mul(opt_mul(m00, m13), m22)), opt_mul(opt_mul(m02, m10), m23)), opt_mul(opt_mul(m03, m12), m20))),
            opt_mul(d, opt_sub(opt_sub(opt_sub(opt_add(opt_add(opt_mul(opt_mul(m00, m13), m21), opt_mul(opt_mul(m01, m10), m23)), opt_mul(opt_mul(m03, m11), m20)), opt_mul(opt_mul(m00, m11), m23)), opt_mul(opt_mul(m01, m13), m20)), opt_mul(opt_mul(m03, m10), m21))),
            opt_mul(d, opt_sub(opt_sub(opt_sub(opt_add(opt_add(opt_mul(opt_mul(m00, m11), m22), opt_mul(opt_mul(m01, m12), m20)), opt_mul(opt_mul(m02, m10), m21)), opt_mul(opt_mul(m00, m12), m21)), opt_mul(opt_mul(m01, m10), m22)), opt_mul(opt_mul(m02, m11), m20))),
        )
    }

    /// What `inverse` returns: `Some(None)` where the determinant equals zero,
    /// `Some(Some(m))` with `m` the adjugate over the determinant otherwise, and `None`
    /// where the scalar arithmetic of that has no defined result.
    pub open spec fn spec_inverse(self) -> Option<Option<Self>> {
        let det = self.spec_det();
        if det is Some && T::obeys_eq_spec() && units_exact::<T>() {
            if spec_eq(det->0, spec_zero::<T>()) {
                Some(None)
            } else {
                let inv = self.spec_inverse_of(opt_div(opt_one::<T>(), det));
                if inv is Some {
                    Some(inv)
                } else {
                    None
                }
            }
        } else {
            None
        }
    }

    /// The inverse: `None` when the determinant equals zero (an exact test, no tolerance),
    /// else the adjugate divided by the determinant.
    pub fn inverse(&self) -> (r: Option<Self>)
        requires
            self.spec_inverse() is Some,
        ensures
            Some(r) == self.spec_inverse(),
    {
        let det = self.det();
        if det.eq(&T::zero()) {
            None
        } else {
            let d = T::one() / det;
            let m00 = self.m00;
            let m01 = self.m01;
            let m02 = self.m02;
            let m03 = self.m03;
            let m10 = self.m10;
            let m11 = self.m11;
            let m12 = self.m12;
            let m13 = self.m13;
            let m20 = self.m20;
            let m21 = self.m21;
            let m22 = self.m22;
            let m23 = self.m23;
            let m30 = self.m30;
            let m31 = self.m31;
            let m32 = self.m32;
            let m33 = self.m33;
            Some(Self::from_components_row_major(
                d * (m11 * m22 * m33 + m12 * m23 * m31 + m13 * m21 * m32 - m11 * m23 * m32 - m12 * m21 * m33 - m13 * m22 * m31),
                d * (m01 * m23 * m32 + m02 * m21 * m33 + m03 * m22 * m31 - m01 * m22 * m33 - m02 * m23 * m31 - m03 * m21 * m32),
                d * (m01 * m12 * m33 + m02 * m13 * m31 + m03 * m11 * m32 - m01 * m13 * m32 - m02 * m11 * m33 - m03 * m12 * m31),
                d * (m01 * m13 * m22 + m02 * m11 * m23 + m03 * m12 * m21 - m01 * m12 * m23 - m02 * m13 * m21 - m03 * m11 * m22),
                d * (m10 * m23 * m32 + m12 * m20 * m33 + m13 * m22 * m30 - m10 * m22 * m33 - m12 * m23 * m30 - m13 * m20 * m32),
                d * (m00 * m22 * m33 + m02 * m23 * m30 + m03 * m20 * m32 - m00 * m23 * m32 - m02 * m20 * m33 - m03 * m22 * m30),
                d * (m00 * m13 * m32 + m02 * m10 * m33 + m03 * m12 * m30 - m00 * m12 * m33 - m02 * m13 * m30 - m03 * m10 * m32),
                d * (m00 * m12 * m23 + m02 * m13 * m20 + m03 * m10 * m22 - m00 * m13 * m22 - m02 * m10 * m23 - m03 * m12 * m20),
                d * (m10 * m21 * m33 + m11 * m23 * m30 + m13 * m20 * m31 - m10 * m23 * m31 - m11 * m20 * m33 - m13 * m21 * m30),
                d * (m00 * m23 * m31 + m01 * m20 * m33 + m03 * m21 * m30 - m00 * m21 * m33 - m01 * m23 * m30 - m03 * m20 * m31),
                d * (m00 * m11 * m33 + m01 * m13 * m30 + m03 * m10 * m31 - m00 * m13 * m31 - m01 * m10 * m33 - m03 * m11 * m30),
                d * (m00 * m13 * m21 + m01 * m10 * m23 + m03 * m11 * m20 - m00 * m11 * m23 - m01 * m13 * m20 - m03 * m10 * m21),
                d * (m10 * m22 * m31 + m11 * m20 * m32 + m12 * m21 * m30 - m10 * m21 * m32 - m11 * m22 * m30 - m12 * m20 * m31),
                d * (m00 * m21 * m32 + m01 * m22 * m30 + m02 * m20 * m31 - m00 * m22 * m31 - m01 * m20 * m32 - m02 * m21 * m30),
                d * (m00 * m12 * m31 + m01 * m10 * m32 + m02 * m11 * m30 - m00 * m11 * m32 - m01 * m12 * m30 - m02 * m10 * m31),
                d * (m00 * m11 * m22 + m01 * m12 * m20 + m02 * m10 * m21 - m00 * m12 * m21 - m01 * m10 * m22 - m02 * m11 * m20),
            ))
        }
    }

    /// The adjugate divided by the determinant (the cofactors summed in another order), entry by entry; `d` is one over the
    /// determinant.
    pub open spec fn spec_inverse1_of(self, d: Option<T>) -> Option<Self> {
        let m00 = Some(self.m00);
        let m01 = Some(self.m01);
        let m02 = Some(self.m02);
        let m03 = Some(self.m03);
        let m10 = Some(self.m10);
        let m11 = Some(self.m11);
        let m12 = Some(self.m12);
        let m13 = Some(self.m13);
        let m20 = Some(self.m20);
        let m21 = Some(self.m21);
        let m22 = Some(self.m22);
        let m23 = Some(self.m23);
        let m30 = Some(self.m30);
        let m31 = Some(self.m31);
        let m32 = Some(self.m32);
        let m33 = Some(self.m33);
        mat4_of(
            opt_mul(d, opt_sub(opt_sub(opt_sub(opt_add(opt_add(opt_mul(opt_mul(m11, m22), m33), opt_mul(opt_mul(m21, m32), m13)), opt_mul(opt_mul(m31, m12), m23)), opt_mul(opt_mul(m11, m32), m23)), opt_mul(opt_mul(m21, m12), m33)), opt_mul(opt_mul(m31, m22), m13))),
            opt_mul(d, opt_sub(opt_sub(opt_sub(opt_add(opt_add(opt_mul(opt_mul(m10, m32), m23), opt_mul(opt_mul(m20, m12), m33)), opt_mul(opt_mul(m30, m22), m13)), opt_mul(opt_mul(m10, m22), m33)), opt_mul(opt_mul(m20, m32), m13)), opt_mul(opt_mul(m30, m12), m23))),
            opt_mul(d, opt_sub(opt_sub(opt_sub(opt_add(opt_add(opt_mul(opt_mul(m10, m21), m33), opt_mul(opt_mul(m20, m31), m13)), opt_mul(opt_mul(m30, m11), m23)), opt_mul(opt_mul(m10, m31), m23)), opt_mul(opt_mul(m20, m11), m33)), opt_mul(opt_mul(m30, m21), m13))),
            opt_mul(d, opt_sub(opt_sub(opt_sub(opt_add(opt_add(opt_mul(opt_mul(m10, m31), m22), opt_mul(opt_mul(m20, m11), m32)), opt_mul(opt_mul(m30, m21), m12)), opt_mul(opt_mul(m10, m21), m32)), opt_mul(opt_mul(m20, m31), m12)), opt_mul(opt_mul(m30, m11), m22))),
            opt_mul(d, opt_sub(opt_sub(opt_sub(opt_add(opt_add(opt_mul(opt_mul(m01, m32), m23), opt_mul(opt_mul(m21, m02), m33)), opt_mul(opt_mul(m31, m22), m03)), opt_mul(opt_mul(m01, m22), m33)), opt_mul(opt_mul(m21, m32), m03)), opt_mul(opt_mul(m31, m02), m23))),
            opt_mul(d, opt_sub(opt_sub(opt_sub(opt_add(opt_add(opt_mul(opt_mul(m00, m22), m33), opt_mul(opt_mul(m20, m32), m03)), opt_mul(opt_mul(m30, m02), m23)), opt_mul(opt_mul(m00, m32), m23)), opt_mul(opt_mul(m20, m02), m33)), opt_mul(opt_mul(m30, m22), m03))),
            opt_mul(d, opt_sub(opt_sub(opt_sub(opt_add(opt_add(opt_mul(opt_mul(m00, m31), m23), opt_mul(opt_mul(m20, m01), m33)), opt_mul(opt_mul(m30, m21), m03)), opt_mul(opt_mul(m00, m21), m33)), opt_mul(opt_mul(m20, m31), m03)), opt_mul(opt_mul(m30, m01), m23))),
            opt_mul(d, opt_sub(opt_sub(opt_sub(opt_add(opt_add(opt_mul(opt_mul(m00, m21), m32), opt_mul(opt_mul(m20, m31), m02)), opt_mul(opt_mul(m30, m01), m22)), opt_mul(opt_mul(m00, m31), m22)), opt_mul(opt_mul(m20, m01), m32)), opt_mul(opt_mul(m30, m21), m02))),
            opt_mul(d, opt_sub(opt_sub(opt_sub(opt_add(opt_add(opt_mul(opt_mul(m01, m12), m33), opt_mul(opt_mul(m11, m32), m03)), opt_mul(opt_mul(m31, m02), m13)), opt_mul(opt_mul(m01, m32), m13)), opt_mul(opt_mul(m11, m02), m33)), opt_mul(opt_mul(m31, m12), m03))),
            opt_mul(d, opt_sub(opt_sub(opt_sub(opt_add(opt_add(opt_mul(opt_mul(m00, m32), m13), opt_mul(opt_mul(m10, m02), m33)), opt_mul(opt_mul(m30, m12), m03)), opt_mul(opt_mul(m00, m12), m33)), opt_mul(opt_mul(m10, m32), m03)), opt_mul(opt_mul(m30, m02), m13))),
            opt_mul(d, opt_sub(opt_sub(opt_sub(opt_add(opt_add(opt_mul(opt_mul(m00, m11), m33), opt_mul(opt_mul(m10, m31), m03)), opt_mul(opt_mul(m30, m01), m13)), opt_mul(opt_mul(m00, m31), m13)), opt_mul(opt_mul(m10, m01), m33)), opt_mul(opt_mul(m30, m11), m03))),
            opt_mul(d, opt_sub(opt_sub(opt_sub(opt_add(opt_add(opt_mul(opt_mul(m00, m31), m12), opt_mul(opt_mul(m10, m01), m32)), opt_mul(opt_mul(m30, m11), m02)), opt_mul(opt_mul(m00, m11), m32)), opt_mul(opt_mul(m10, m31), m02)), opt_mul(opt_mul(m30, m01), m12))),
            opt_mul(d, opt_sub(opt_sub(opt_sub(opt_add(opt_add(opt_mul(opt_mul(m01, m22), m13), opt_mul(opt_mul(m11, m02), m23)), opt_mul(opt_mul(m21, m12), m03)), opt_mul(opt_mul(m01, m12), m23)), opt_mul(opt_mul(m11, m22), m03)), opt_mul(opt_mul(m21, m02), m13))),
            opt_mul(d, opt_sub(opt_sub(opt_sub(opt_add(opt_add(opt_mul(opt_mul(m00, m12), m23), opt_mul(opt_mul(m10, m22), m03)), opt_mul(opt_mul(m20, m02), m13)), opt_mul(opt_mul(m00, m22), m13)), opt_mul(opt_mul(m10, m02), m23)), opt_mul(opt_mul(m20, m12), m03))),
            opt_mul(d, opt_sub(opt_sub(opt_sub(opt_add(opt_add(opt_mul(opt_mul(m00, m21), m13), opt_mul(opt_mul(m10, m01), m23)), opt_mul(opt_mul(m20, m11), m03)), opt_mul(opt_mul(m00, m11), m23)), opt_mul(opt_mul(m10, m21), m03)), opt_mul(opt_mul(m20, m01), m13))),
            opt_mul(d, opt_sub(opt_sub(opt_sub(opt_add(opt_add(opt_mul(opt_mul(m00, m11), m22), opt_mul(opt_mul(m10, m21), m02)), opt_mul(opt_mul(m20, m01), m12)), opt_mul(opt_mul(m00, m21), m12)), opt_mul(opt_mul(m10, m01), m22)), opt_mul(opt_mul(m20, m11), m02))),
        )
    }

    /// What `inverse1` returns: `Some(None)` where the determinant equals zero,
    /// `Some(Some(m))` with `m` the adjugate over the determinant otherwise, and `None`
    /// where the scalar arithmetic of that has no defined result.
    pub open spec fn spec_inverse1(self) -> Option<Option<Self>> {
        let det = self.spec_det();
        if det is Some && T::obeys_eq_spec() && units_exact::<T>() {
            if spec_eq(det->0, spec_zero::<T>()) {
                Some(None)
            } else {
                let inv = self.spec_inverse1_of(opt_div(opt_one::<T>(), det));
                if inv is Some {
                    Some(inv)
                } else {
                    None
                }
            }
        } else {
            None
        }
    }

    /// The inverse: `None` when the determinant equals zero (an exact test, no tolerance),
    /// else the adjugate divided by the determinant.
    pub fn inverse1(&self) -> (r: Option<Self>)
        requires
            self.spec_inverse1() is Some,
        ensures
            Some(r) == self.spec_inverse1(),
    {
        let det = self.det();
        if det.eq(&T::zero()) {
            None
        } else {
            let d = T::one() / det;
            let m00 = self.m00;
            let m01 = self.m01;
            let m02 = self.m02;
            let m03 = self.m03;
            let m10 = self.m10;
            let m11 = self.m11;
            let m12 = self.m12;
            let m13 = self.m13;
            let m20 = self.m20;
            let m21 = self.m21;
            let m22 = self.m22;
            let m23 = self.m23;
            let m30 = self.m30;
            let m31 = self.m31;
            let m32 = self.m32;
            let m33 = self.m33;
            Some(Self::from_components_row_major(
                d * (m11 * m22 * m33 + m21 * m32 * m13 + m31 * m12 * m23 - m11 * m32 * m23 - m21 * m12 * m33 - m31 * m22 * m13),
                d * (m01 * m32 * m23 + m21 * m02 * m33 + m31 * m22 * m03 - m01 * m22 * m33 - m21 * m32 * m03 - m31 * m02 * m23),
                d * (m01 * m12 * m33 + m11 * m32 * m03 + m31 * m02 * m13 - m01 * m32 * m13 - m11 * m02 * m33 - m31 * m12 * m03),
                d * (m01 * m22 * m13 + m11 * m02 * m23 + m21 * m12 * m03 - m01 * m12 * m23 - m11 * m22 * m03 - m21 * m02 * m13),
                d * (m10 * m32 * m23 + m20 * m12 * m33 + m30 * m22 * m13 - m10 * m22 * m33 - m20 * m32 * m13 - m30 * m12 * m23),
                d * (m00 * m22 * m33 + m20 * m32 * m03 + m30 * m02 * m23 - m00 * m32 * m23 - m20 * m02 * m33 - m30 * m22 * m03),
                d * (m00 * m32 * m13 + m10 * m02 * m33 + m30 * m12 * m03 - m00 * m12 * m33 - m10 * m32 * m03 - m30 * m02 * m13),
                d * (m00 * m12 * m23 + m10 * m22 * m03 + m20 * m02 * m13 - m00 * m22 * m13 - m10 * m02 * m23 - m20 * m12 * m03),
                d * (m10 * m21 * m33 + m20 * m31 * m13 + m30 * m11 * m23 - m10 * m31 * m23 - m20 * m11 * m33 - m30 * m21 * m13),
                d * (m00 * m31 * m23 + m20 * m01 * m33 + m30 * m21 * m03 - m00 * m21 * m33 - m20 * m31 * m03 - m30 * m01 * m23),
                d * (m00 * m11 * m33 + m10 * m31 * m03 + m30 * m01 * m13 - m00 * m31 * m13 - m10 * m01 * m33 - m30 * m11 * m03),
                d * (m00 * m21 * m13 + m10 * m01 * m23 + m20 * m11 * m03 - m00 * m11 * m23 - m10 * m21 * m03 - m20 * m01 * m13),
                d * (m10 * m31 * m22 + m20 * m11 * m32 + m30 * m21 * m12 - m10 * m21 * m32 - m20 * m31 * m12 - m30 * m11 * m22),
                d * (m00 * m21 * m32 + m20 * m31 * m02 + m30 * m01 * m22 - m00 * m31 * m22 - m20 * m01 * m32 - m30 * m21 * m02),
                d * (m00 * m31 * m12 + m10 * m01 * m32 + m30 * m11 * m02 - m00 * m11 * m32 - m10 * m31 * m02 - m30 * m01 * m12),
                d * (m00 * m11 * m22 + m10 * m21 * m02 + m20 * m01 * m12 - m00 * m21 * m12 - m10 * m01 * m22 - m20 * m11 * m02),
            ))
        }
    }

    /// A translation by `(x, y, z)`: the identity with `x, y, z` in the last column.
    pub open spec fn spec_new_translation(x: T, y: T, z: T) -> Self {
        Matrix4 {
            m00: spec_one::<T>(),
            m10: spec_zero::<T>(),
            m20: spec_zero::<T>(),
            m30: spec_zero::<T>(),
            m01: spec_zero::<T>(),
            m11: spec_one::<T>(),
            m21: spec_zero::<T>(),
            m31: spec_zero::<T>(),
            m02: spec_zero::<T>(),
            m12: spec_zero::<T>(),
            m22: spec_one::<T>(),
            m32: spec_zero::<T>(),
            m03: x,
            m13: y,
            m23: z,
            m33: spec_one::<T>(),
        }
    }

    /// A translation by `(x, y, z)`: the identity with `x, y, z` in the last column.
    pub fn new_translation(x: T, y: T, z: T) -> (r: Self)
        ensures
            units_exact::<T>() ==> r == Self::spec_new_translation(x, y, z),
    {
        let zero = T::zero();
        let one = T::one();
        Self::from_components_row_major(
            one,
            zero,
            zero,
            x,
            zero,
            one,
            zero,
            y,
            zero,
            zero,
            one,
            z,
            zero,
            zero,
            zero,
            one,
        )
    }

    /// A translation by `v`.
    pub fn new_translation_from_vector(v: Vector3<T>) -> (r: Self)
        ensures
            units_exact::<T>() ==> r == Self::spec_new_translation(v.x, v.y, v.z),
    {
        Self::new_translation(v.x, v.y, v.z)
    }

    /// A scaling by `x, y, z` along the axes: those on the diagonal, then one.
    pub open spec fn spec_new_scale(x: T, y: T, z: T) -> Self {
        Matrix4 {
            m00: x,
            m10: spec_zero::<T>(),
            m20: spec_zero::<T>(),
            m30: spec_zero::<T>(),
            m01: spec_zero::<T>(),
            m11: y,
            m21: spec_zero::<T>(),
            m31: spec_zero::<T>(),
            m02: spec_zero::<T>(),
            m12: spec_zero::<T>(),
            m22: z,
            m32: spec_zero::<T>(),
            m03: spec_zero::<T>(),
            m13: spec_zero::<T>(),
            m23: spec_zero::<T>(),
            m33: spec_one::<T>(),
        }
    }

    /// A scaling by `x, y, z` along the axes: those on the diagonal, then one.
    pub fn new_scale(x: T, y: T, z: T) -> (r: Self)
        ensures
            units_exact::<T>() ==> r == Self::spec_new_scale(x, y, z),
    {
        let zero = T::zero();
        let one = T::one();
        Self::from_components_row_major(
            x,
            zero,
            zero,
            zero,
            zero,
            y,
            zero,
            zero,
            zero,
            zero,
            z,
            zero,
            zero,
            zero,
            zero,
            one,
        )
    }

    /// A scaling by the components of `v`.
    pub fn new_scale_from_vector(v: Vector3<T>) -> (r: Self)
        ensures
            units_exact::<T>() ==> r == Self::spec_new_scale(v.x, v.y, v.z),
    {
        Self::new_scale(v.x, v.y, v.z)
    }

    /// A scaling by `s` along every axis.
    pub fn new_scale_uniform(s: T) -> (r: Self)
        ensures
            units_exact::<T>() ==> r == Self::spec_new_scale(s, s, s),
    {
        Self::new_scale(s, s, s)
    }

    /// The rotation about the unit vector `axis` by the angle whose cosine and sine are given (Rodrigues' formula).
    pub open spec fn spec_new_rotation_cos_sin(axis: Vector3<T>, cos_a: T, sin_a: T) -> Option<Self> {
        let zero = opt_zero::<T>();
        let one = opt_one::<T>();
        let k = opt_sub(one, Some(cos_a));
        mat4_of(
            opt_add(opt_mul(opt_mul(Some(axis.x), Some(axis.x)), k), Some(cos_a)),
            opt_add(opt_mul(opt_mul(Some(axis.y), Some(axis.x)), k), opt_mul(Some(axis.z), Some(sin_a))),
            opt_sub(opt_mul(opt_mul(Some(axis.z), Some(axis.x)), k), opt_mul(Some(axis.y), Some(sin_a))),
            zero,
            opt_sub(opt_mul(opt_mul(Some(axis.x), Some(axis.y)), k), opt_mul(Some(axis.z), Some(sin_a))),
            opt_add(opt_mul(opt_mul(Some(axis.y), Some(axis.y)), k), Some(cos_a)),
            opt_add(opt_mul(opt_mul(Some(axis.z), Some(axis.y)), k), opt_mul(Some(axis.x), Some(sin_a))),
            zero,
            opt_add(opt_mul(opt_mul(Some(axis.x), Some(axis.z)), k), opt_mul(Some(axis.y), Some(sin_a))),
            opt_sub(opt_mul(opt_mul(Some(axis.y), Some(axis.z)), k), opt_mul(Some(axis.x), Some(sin_a))),
            opt_add(opt_mul(opt_mul(Some(axis.z), Some(axis.z)), k), Some(cos_a)),
            zero,
            zero,
            zero,
            zero,
            one,
        )
    }

    /// The rotation about the unit vector `axis` by the angle whose cosine and sine are given (Rodrigues' formula).
    pub fn new_rotation_cos_sin(axis: Vector3<T>, cos_a: T, sin_a: T) -> (r: Self)
        requires
            Self::spec_new_rotation_cos_sin(axis, cos_a, sin_a) is Some,
        ensures
            Some(r) == Self::spec_new_rotation_cos_sin(axis, cos_a, sin_a),
    {
        let zero = T::zero();
        let one = T::one();
        let k = one - cos_a;
        Self::from_components_row_major(
            axis.x * axis.x * k + cos_a,
            axis.x * axis.y * k - axis.z * sin_a,
            axis.x * axis.z * k + axis.y * sin_a,
            zero,
            axis.y * axis.x * k + axis.z * sin_a,
            axis.y * axis.y * k + cos_a,
            axis.y * axis.z * k - axis.x * sin_a,
            zero,
            axis.z * axis.x * k - axis.y * sin_a,
            axis.z * axis.y * k + axis.x * sin_a,
            axis.z * axis.z * k + cos_a,
            zero,
            zero,
            zero,
            zero,
            one,
        )
    }
}

impl<T: Base> vstd::std_specs::ops::MulSpecImpl<Matrix4<T>> for Matrix4<T> {
    open spec fn obeys_mul_spec() -> bool {
        true
    }

    open spec fn mul_req(self, rhs: Matrix4<T>) -> bool {
        self.spec_mul(rhs) is Some
    }

    open spec fn mul_spec(self, rhs: Matrix4<T>) -> Self {
        self.spec_mul(rhs)->0
    }
}

impl<T: Base> Mul<Matrix4<T>> for Matrix4<T> {
    type Output = Self;

    fn mul(self, rhs: Matrix4<T>) -> (r: Self)
        ensures
            Some(r) == self.spec_mul(rhs),
    {
        let r0 = self.row(0);
        let r1 = self.row(1);
        let r2 = self.row(2);
        let r3 = self.row(3);
        let c0 = rhs.col(0);
        let c1 = rhs.col(1);
        let c2 = rhs.col(2);
        let c3 = rhs.col(3);
        Matrix4::from_components_col_major(
            r0.dot(c0),
            r1.dot(c0),
            r2.dot(c0),
            r3.dot(c0),
            r0.dot(c1),
            r1.dot(c1),
            r2.dot(c1),
            r3.dot(c1),
            r0.dot(c2),
            r1.dot(c2),
            r2.dot(c2),
            r3.dot(c2),
            r0.dot(c3),
            r1.dot(c3),
            r2.dot(c3),
            r3.dot(c3),
        )
    }
}

impl<T: Base> vstd::std_specs::ops::MulSpecImpl<Vector4<T>> for Matrix4<T> {
    open spec fn obeys_mul_spec() -> bool {
        true
    }

    open spec fn mul_req(self, rhs: Vector4<T>) -> bool {
        self.spec_mul_vec(rhs) is Some
    }

    open spec fn mul_spec(self, rhs: Vector4<T>) -> Vector4<T> {
        self.spec_mul_vec(rhs)->0
    }
}

impl<T: Base> Mul<Vector4<T>> for Matrix4<T> {
    type Output = Vector4<T>;

    fn mul(self, rhs: Vector4<T>) -> (r: Vector4<T>)
        ensures
            Some(r) == self.spec_mul_vec(rhs),
    {
        let r0 = self.row(0);
        let r1 = self.row(1);
        let r2 = self.row(2);
        let r3 = self.row(3);
        Vector4::new(r0.dot(rhs), r1.dot(rhs), r2.dot(rhs), r3.dot(rhs))
    }
}

impl<T: Base + Neg<Output = T>> Matrix4<T> {
    /// The rotation about the x axis by the angle whose cosine and sine are given.
    pub open spec fn spec_new_rotation_x_cos_sin(cos_a: T, sin_a: T) -> Option<Self> {
        let zero = opt_zero::<T>();
        let one = opt_one::<T>();
        mat4_of(
            one,
            zero,
            zero,
            zero,
            zero,
            Some(cos_a),
            Some(sin_a),
            zero,
            zero,
            opt_neg(Some(sin_a)),
            Some(cos_a),
            zero,
            zero,
            zero,
            zero,
            one,
        )
    }

    /// The rotation about the x axis by the angle whose cosine and sine are given.
    pub fn new_rotation_x_cos_sin(cos_a: T, sin_a: T) -> (r: Self)
        requires
            Self::spec_new_rotation_x_cos_sin(cos_a, sin_a) is Some,
        ensures
            Some(r) == Self::spec_new_rotation_x_cos_sin(cos_a, sin_a),
    {
        let zero = T::zero();
        let one = T::one();
        Self::from_components_row_major(
            one,
            zero,
            zero,
            zero,
            zero,
            cos_a,
            sin_a.neg(),
            zero,
            zero,
            sin_a,
            cos_a,
            zero,
            zero,
            zero,
            zero,
            one,
        )
    }

    /// The rotation about the y axis by the angle whose cosine and sine are given.
    pub open spec fn spec_new_rotation_y_cos_sin(cos_a: T, sin_a: T) -> Option<Self> {
        let zero = opt_zero::<T>();
        let one = opt_one::<T>();
        mat4_of(
            Some(cos_a),
            zero,
            opt_neg(Some(sin_a)),
            zero,
            zero,
            one,
            zero,
            zero,
            Some(sin_a),
            zero,
            Some(cos_a),
            zero,
            zero,
            zero,
            zero,
            one,
        )
    }

    /// The rotation about the y axis by the angle whose cosine and sine are given.
    pub fn new_rotation_y_cos_sin(cos_a: T, sin_a: T) -> (r: Self)
        requires
            Self::spec_new_rotation_y_cos_sin(cos_a, sin_a) is Some,
        ensures
            Some(r) == Self::spec_new_rotation_y_cos_sin(cos_a, sin_a),
    {
        let zero = T::zero();
        let one = T::one();
        Self::from_components_row_major(
            cos_a,
            zero,
            sin_a,
            zero,
            zero,
            one,
            zero,
            zero,
            sin_a.neg(),
            zero,
            cos_a,
            zero,
            zero,
            zero,
            zero,
            one,
        )
    }

    /// The rotation about the z axis by the angle whose cosine and sine are given.
    pub open spec fn spec_new_rotation_z_cos_sin(cos_a: T, sin_a: T) -> Option<Self> {
        let zero = opt_zero::<T>();
        let one = opt_one::<T>();
        mat4_of(
            Some(cos_a),
            Some(sin_a),
            zero,
            zero,
            opt_neg(Some(sin_a)),
            Some(cos_a),
            zero,
            zero,
            zero,
            zero,
            one,
            zero,
            zero,
            zero,
            zero,
            one,
        )
    }

    /// The rotation about the z axis by the angle whose cosine and sine are given.
    pub fn new_rotation_z_cos_sin(cos_a: T, sin_a: T) -> (r: Self)
        requires
            Self::spec_new_rotation_z_cos_sin(cos_a, sin_a) is Some,
        ensures
            Some(r) == Self::spec_new_rotation_z_cos_sin(cos_a, sin_a),
    {
        let zero = T::zero();
        let one = T::one();
        Self::from_components_row_major(
            cos_a,
            sin_a.neg(),
            zero,
            zero,
            sin_a,
            cos_a,
            zero,
            zero,
            zero,
            zero,
            one,
            zero,
            zero,
            zero,
            zero,
            one,
        )
    }

    /// The perspective projection of the view frustum with the given near-plane bounds and depth range.
    pub open spec fn spec_new_perspective_from_bounds(left: T, right: T, bottom: T, top: T, z_near: T, z_far: T) -> Option<Self> {
        let zero = opt_zero::<T>();
        let one = opt_one::<T>();
        let two = opt_add(one, one);
        let w = opt_sub(Some(right), Some(left));
        let h = opt_sub(Some(top), Some(bottom));
        let d = opt_sub(Some(z_far), Some(z_near));
        mat4_of(
            opt_div(opt_mul(two, Some(z_near)), w),
            zero,
            zero,
            zero,
            zero,
            opt_div(opt_mul(two, Some(z_near)), h),
            zero,
            zero,
            opt_div(opt_add(Some(right), Some(left)), w),
            opt_div(opt_add(Some(top), Some(bottom)), h),
            opt_div(opt_neg(opt_add(Some(z_far), Some(z_near))), d),
            opt_neg(one),
            zero,
            zero,
            opt_div(opt_mul(opt_mul(opt_neg(two), Some(z_far)), Some(z_near)), d),
            zero,
        )
    }

    /// The perspective projection of the view frustum with the given near-plane bounds and depth range.
    pub fn new_perspective_from_bounds(left: T, right: T, bottom: T, top: T, z_near: T, z_far: T) -> (r: Self)
        requires
            Self::spec_new_perspective_from_bounds(left, right, bottom, top, z_near, z_far) is Some,
        ensures
            Some(r) == Self::spec_new_perspective_from_bounds(left, right, bottom, top, z_near, z_far),
    {
        let zero = T::zero();
        let one = T::one();
        let two = one + one;
        let w = right - left;
        let h = top - bottom;
        let d = z_far - z_near;
        Self::from_components_row_major(
            two * z_near / w,
            zero,
            (right + left) / w,
            zero,
            zero,
            two * z_near / h,
            (top + bottom) / h,
            zero,
            zero,
            zero,
            (z_far + z_near).neg() / d,
            two.neg() * z_far * z_near / d,
            zero,
            zero,
            one.neg(),
            zero,
        )
    }

    /// The orthographic projection of the box with the given bounds and depth range.
    pub open spec fn spec_new_orthographic_from_bounds(left: T, right: T, bottom: T, top: T, z_near: T, z_far: T) -> Option<Self> {
        let zero = opt_zero::<T>();
        let one = opt_one::<T>();
        let two = opt_add(one, one);
        let w = opt_sub(Some(right), Some(left));
        let h = opt_sub(Some(top), Some(bottom));
        let d = opt_sub(Some(z_far), Some(z_near));
        mat4_of(
            opt_div(two, w),
            zero,
            zero,
            zero,
            zero,
            opt_div(two, h),
            zero,
            zero,
            zero,
            zero,
            opt_div(opt_neg(two), d),
            zero,
            opt_div(opt_neg(opt_add(Some(right), Some(left))), w),
            opt_div(opt_neg(opt_add(Some(top), Some(bottom))), h),
            opt_div(opt_neg(opt_add(Some(z_far), Some(z_near))), d),
            one,
        )
    }

    /// The orthographic projection of the box with the given bounds and depth range.
    pub fn new_orthographic_from_bounds(left: T, right: T, bottom: T, top: T, z_near: T, z_far: T) -> (r: Self)
        requires
            Self::spec_new_orthographic_from_bounds(left, right, bottom, top, z_near, z_far) is Some,
        ensures
            Some(r) == Self::spec_new_orthographic_from_bounds(left, right, bottom, top, z_near, z_far),
    {
        let zero = T::zero();
        let one = T::one();
        let two = one + one;
        let w = right - left;
        let h = top - bottom;
        let d = z_far - z_near;
        Self::from_components_row_major(
            two / w,
            zero,
            zero,
            (right + left).neg() / w,
            zero,
            two / h,
            zero,
            (top + bottom).neg() / h,
            zero,
            zero,
            two.neg() / d,
            (z_far + z_near).neg() / d,
            zero,
            zero,
            zero,
            one,
        )
    }

    /// The orthographic projection of the centred box of the given width and height and depth range.
    pub open spec fn spec_new_orthographic_from_dimensions(width: T, height: T, z_near: T, z_far: T) -> Option<Self> {
        let zero = opt_zero::<T>();
        let one = opt_one::<T>();
        let two = opt_add(one, one);
        let d = opt_sub(Some(z_far), Some(z_near));
        mat4_of(
            opt_div(two, Some(width)),
            zero,
            zero,
            zero,
            zero,
            opt_div(two, Some(height)),
            zero,
            zero,
            zero,
            zero,
            opt_div(opt_neg(two), d),
            zero,
            zero,
            zero,
            opt_div(opt_neg(opt_add(Some(z_far), Some(z_near))), d),
            one,
        )
    }

    /// The orthographic projection of the centred box of the given width and height and depth range.
    pub fn new_orthographic_from_dimensions(width: T, height: T, z_near: T, z_far: T) -> (r: Self)
        requires
            Self::spec_new_orthographic_from_dimensions(width, height, z_near, z_far) is Some,
        ensures
            Some(r) == Self::spec_new_orthographic_from_dimensions(width, height, z_near, z_far),
    {
        let zero = T::zero();
        let one = T::one();
        let two = one + one;
        let d = z_far - z_near;
        Self::from_components_row_major(
            two / width,
            zero,
            zero,
            zero,
            zero,
            two / height,
            zero,
            zero,
            zero,
            zero,
            two.neg() / d,
            (z_far + z_near).neg() / d,
            zero,
            zero,
            zero,
            one,
        )
    }

    /// The view matrix for an eye at `eye` with the unit side, up and forward directions `s`, `u` and `f`.
    pub open spec fn spec_new_look_at_from_basis(eye: Vector3<T>, s: Vector3<T>, u: Vector3<T>, f: Vector3<T>) -> Option<Self> {
        let zero = opt_zero::<T>();
        let one = opt_one::<T>();
        mat4_of(
            Some(s.x),
            Some(u.x),
            opt_neg(Some(f.x)),
            zero,
            Some(s.y),
            Some(u.y),
            opt_neg(Some(f.y)),
            zero,
            Some(s.z),
            Some(u.z),
            opt_neg(Some(f.z)),
            zero,
            opt_neg(opt_add(opt_add(opt_mul(Some(s.x), Some(eye.x)), opt_mul(Some(s.y), Some(eye.y))), opt_mul(Some(s.z), Some(eye.z)))),
            opt_neg(opt_add(opt_add(opt_mul(Some(u.x), Some(eye.x)), opt_mul(Some(u.y), Some(eye.y))), opt_mul(Some(u.z), Some(eye.z)))),
            opt_add(opt_add(opt_mul(Some(f.x), Some(eye.x)), opt_mul(Some(f.y), Some(eye.y))), opt_mul(Some(f.z), Some(eye.z))),
            one,
        )
    }

    /// The view matrix for an eye at `eye` with the unit side, up and forward directions `s`, `u` and `f`.
    pub fn new_look_at_from_basis(eye: Vector3<T>, s: Vector3<T>, u: Vector3<T>, f: Vector3<T>) -> (r: Self)
        requires
            Self::spec_new_look_at_from_basis(eye, s, u, f) is Some,
        ensures
            Some(r) == Self::spec_new_look_at_from_basis(eye, s, u, f),
    {
        let zero = T::zero();
        let one = T::one();
        Self::from_components_row_major(
            s.x,
            s.y,
            s.z,
            (s.x * eye.x + s.y * eye.y + s.z * eye.z).neg(),
            u.x,
            u.y,
            u.z,
            (u.x * eye.x + u.y * eye.y + u.z * eye.z).neg(),
            f.x.neg(),
            f.y.neg(),
            f.z.neg(),
            f.x * eye.x + f.y * eye.y + f.z * eye.z,
            zero,
            zero,
            zero,
            one,
        )
    }
}

impl<T: Base> Matrix3<T> {
    /// The matrix that transforms normals for the linear map `model`: the transpose of its
    /// inverse, or `None` where `model` has none.
    pub fn new_normal_matrix(model_matrix: &Matrix3<T>) -> (r: Option<Self>)
        requires
            model_matrix.spec_inverse() is Some,
        ensures
            r == match model_matrix.spec_inverse()->0 {
                Some(inv) => Some(inv.spec_transpose()),
                None => None,
            },
    {
        if let Some(inv) = model_matrix.inverse() {
            Some(inv.transpose())
        } else {
            None
        }
    }

    /// The upper-left 3×3 block of `m`.
    pub open spec fn spec_upper_left(m: Matrix4<T>) -> Self {
        Matrix3 {
            m00: m.m00,
            m10: m.m10,
            m20: m.m20,
            m01: m.m01,
            m11: m.m11,
            m21: m.m21,
            m02: m.m02,
            m12: m.m12,
            m22: m.m22,
        }
    }
}

impl<T: Base> From<Matrix4<T>> for Matrix3<T> {
    /// The upper-left 3×3 block.
    fn from(m: Matrix4<T>) -> (r: Self)
        ensures
            r == Self::spec_upper_left(m),
    {
        Matrix3::from_components_row_major(m.m00, m.m01, m.m02, m.m10, m.m11, m.m12, m.m20, m.m21, m.m22)
    }
}

impl<T: Base> vstd::std_specs::convert::FromSpecImpl<Matrix4<T>> for Matrix3<T> {
    open spec fn obeys_from_spec() -> bool {
        true
    }

    open spec fn from_spec(m: Matrix4<T>) -> Self {
        Self::spec_upper_left(m)
    }
}

} // verus!
