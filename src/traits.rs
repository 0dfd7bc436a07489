use vstd::prelude::*;

verus! {

use core::ops::Neg;
use crate::matrix::{Matrix2, Matrix3, Matrix4};
use crate::scalar::Base;
use crate::vector::{Vector2, Vector3, Vector4};
use vstd::std_specs::cmp::PartialOrdSpec;

/// The right-handed cross product.
pub trait Cross<RHS = Self> {
    type Output;

    /// Whether `cross` has a defined result on these arguments.
    spec fn cross_req(self, rhs: RHS) -> bool;

    /// What `cross` returns.
    spec fn cross_spec(self, rhs: RHS) -> Self::Output;

    fn cross(self, rhs: RHS) -> (r: Self::Output)
        requires
            self.cross_req(rhs),
        ensures
            r == self.cross_spec(rhs),
    ;
}

/// The dot product.
pub trait Dot<RHS> {
    type Output;

    /// Whether `dot` has a defined result on these arguments.
    spec fn dot_req(self, rhs: RHS) -> bool;

    /// What `dot` returns.
    spec fn dot_spec(self, rhs: RHS) -> Self::Output;

    fn dot(self, rhs: RHS) -> (r: Self::Output)
        requires
            self.dot_req(rhs),
        ensures
            r == self.dot_spec(rhs),
    ;
}

/// The component-wise minimum.
pub trait CwMin<RHS = Self> {
    type Output;

    /// Whether `cw_min` is specified on these arguments.
    spec fn cw_min_req(self, rhs: RHS) -> bool;

    /// What `cw_min` returns.
    spec fn cw_min_spec(self, rhs: RHS) -> Self::Output;

    fn cw_min(self, rhs: RHS) -> (r: Self::Output)
        requires
            self.cw_min_req(rhs),
        ensures
            r == self.cw_min_spec(rhs),
    ;
}

/// The component-wise maximum.
pub trait CwMax<RHS = Self> {
    type Output;

    /// Whether `cw_max` is specified on these arguments.
    spec fn cw_max_req(self, rhs: RHS) -> bool;

    /// What `cw_max` returns.
    spec fn cw_max_spec(self, rhs: RHS) -> Self::Output;

    fn cw_max(self, rhs: RHS) -> (r: Self::Output)
        requires
            self.cw_max_req(rhs),
        ensures
            r == self.cw_max_spec(rhs),
    ;
}

/// The component-wise absolute value.
pub trait CwAbs<RHS = Self> {
    type Output;

    /// Whether `cw_abs` has a defined result on this argument.
    spec fn cw_abs_req(self) -> bool;

    /// What `cw_abs` returns.
    spec fn cw_abs_spec(self) -> Self::Output;

    fn cw_abs(self) -> (r: Self::Output)
        requires
            self.cw_abs_req(),
        ensures
            r == self.cw_abs_spec(),
    ;
}

/// Access to a component by its index.
pub trait Elem<I> {
    type Output;

    /// Whether `index` addresses a component.
    spec fn elem_req(self, index: I) -> bool;

    /// The component at `index`.
    spec fn elem_spec(self, index: I) -> Self::Output;

    fn elem(self, index: I) -> (r: Self::Output)
        requires
            self.elem_req(index),
        ensures
            r == self.elem_spec(index),
    ;
}

/// The elements as one flat array, column by column.
pub trait AsArray {
    type Output;

    /// Whether `as_array` applies.
    spec fn as_array_req(self) -> bool;

    /// Whether `r` holds the elements column by column.
    spec fn as_array_ensures(self, r: Self::Output) -> bool;

    fn as_array(self) -> (r: Self::Output)
        requires
            self.as_array_req(),
        ensures
            self.as_array_ensures(r),
    ;
}

/// The elements as an array of columns.
pub trait AsArrays {
    type Output;

    /// Whether `as_arrays` applies.
    spec fn as_arrays_req(self) -> bool;

    /// Whether `r` holds the columns in order.
    spec fn as_arrays_ensures(self, r: Self::Output) -> bool;

    fn as_arrays(self) -> (r: Self::Output)
        requires
            self.as_arrays_req(),
        ensures
            self.as_arrays_ensures(r),
    ;
}

/// Access to a matrix element by column or by row.
pub trait MatrixAccess {
    type Output;

    /// Whether both indices are below the dimension.
    spec fn access_req(self, index: usize, elem_index: usize) -> bool;

    /// The element in row `r` and column `c`.
    spec fn at_spec(self, r: int, c: int) -> Self::Output;

    fn col_elem(self, col_index: usize, elem_index: usize) -> (r: Self::Output)
        requires
            self.access_req(col_index, elem_index),
        ensures
            r == self.at_spec(elem_index as int, col_index as int),
    ;

    fn row_elem(self, row_index: usize, elem_index: usize) -> (r: Self::Output)
        requires
            self.access_req(row_index, elem_index),
        ensures
            r == self.at_spec(row_index as int, elem_index as int),
    ;
}

/// Access by reference to a matrix element by column or by row.
pub trait MatrixAccessRef<'a> {
    type Output;

    /// Whether both indices are below the dimension.
    spec fn access_req(self, index: usize, elem_index: usize) -> bool;

    /// The element in row `r` and column `c`.
    spec fn at_spec(self, r: int, c: int) -> Self::Output;

    fn col_elem_ref(self, col_index: usize, elem_index: usize) -> (r: &'a Self::Output)
        requires
            self.access_req(col_index, elem_index),
        ensures
            *r == self.at_spec(elem_index as int, col_index as int),
    ;

    fn row_elem_ref(self, row_index: usize, elem_index: usize) -> (r: &'a Self::Output)
        requires
            self.access_req(row_index, elem_index),
        ensures
            *r == self.at_spec(row_index as int, elem_index as int),
    ;
}

/// Mutable access to a component by its index.
pub trait ElemMut<I>: Sized {
    type Output;

    /// Whether `index` addresses a component.
    spec fn elem_mut_req(&self, index: I) -> bool;

    /// The component at `index`.
    spec fn elem_at(&self, index: I) -> Self::Output;

    /// `self` with the component at `index` replaced with `v`.
    spec fn with_elem(&self, index: I, v: Self::Output) -> Self;

    fn elem_mut(&mut self, index: I) -> (r: &mut Self::Output)
        requires
            old(self).elem_mut_req(index),
        ensures
            *r == old(self).elem_at(index),
            *final(self) == old(self).with_elem(index, *final(r)),
    ;
}

/// Mutable access to a matrix element by column or by row.
pub trait MatrixAccessMut: Sized {
    type Output;

    /// Whether both indices are below the dimension.
    spec fn access_mut_req(&self, index: usize, elem_index: usize) -> bool;

    /// The element in row `r` and column `c`.
    spec fn at(&self, r: int, c: int) -> Self::Output;

    /// `self` with the element in row `r` and column `c` replaced with `v`.
    spec fn with_at(&self, r: int, c: int, v: Self::Output) -> Self;

    fn col_elem_mut(&mut self, col_index: usize, elem_index: usize) -> (r: &mut Self::Output)
        requires
            old(self).access_mut_req(col_index, elem_index),
        ensures
            *r == old(self).at(elem_index as int, col_index as int),
            *final(self) == old(self).with_at(elem_index as int, col_index as int, *final(r)),
    ;

    fn row_elem_mut(&mut self, row_index: usize, elem_index: usize) -> (r: &mut Self::Output)
        requires
            old(self).access_mut_req(row_index, elem_index),
        ensures
            *r == old(self).at(row_index as int, elem_index as int),
            *final(self) == old(self).with_at(row_index as int, elem_index as int, *final(r)),
    ;
}

impl<T: Base> Cross for Vector3<T> {
    type Output = Self;

    open spec fn cross_req(self, rhs: Self) -> bool {
        self.spec_cross(rhs) is Some
    }

    open spec fn cross_spec(self, rhs: Self) -> Self {
        self.spec_cross(rhs)->0
    }

    fn cross(self, rhs: Self) -> (r: Self) {
        Vector3::cross(self, rhs)
    }
}

impl<T: Base> Dot<Vector2<T>> for Vector2<T> {
    type Output = T;

    open spec fn dot_req(self, rhs: Vector2<T>) -> bool {
        self.spec_dot(rhs) is Some
    }

    open spec fn dot_spec(self, rhs: Vector2<T>) -> T {
        self.spec_dot(rhs)->0
    }

    fn dot(self, rhs: Vector2<T>) -> (r: T) {
        Vector2::dot(self, rhs)
    }
}

impl<T: Base> CwMin for Vector2<T> {
    type Output = Self;

    open spec fn cw_min_req(self, rhs: Self) -> bool {
        T::obeys_partial_cmp_spec()
    }

    open spec fn cw_min_spec(self, rhs: Self) -> Self {
        self.spec_cw_min(rhs)
    }

    fn cw_min(self, rhs: Self) -> (r: Self) {
        Vector2::cw_min(self, rhs)
    }
}

impl<T: Base> CwMax for Vector2<T> {
    type Output = Self;

    open spec fn cw_max_req(self, rhs: Self) -> bool {
        T::obeys_partial_cmp_spec()
    }

    open spec fn cw_max_spec(self, rhs: Self) -> Self {
        self.spec_cw_max(rhs)
    }

    fn cw_max(self, rhs: Self) -> (r: Self) {
        Vector2::cw_max(self, rhs)
    }
}

impl<T: Base + Neg<Output = T>> CwAbs for Vector2<T> {
    type Output = Self;

    open spec fn cw_abs_req(self) -> bool {
        T::obeys_partial_cmp_spec() && self.spec_cw_abs() is Some
    }

    open spec fn cw_abs_spec(self) -> Self {
        self.spec_cw_abs()->0
    }

    fn cw_abs(self) -> (r: Self) {
        Vector2::cw_abs(self)
    }
}

impl<T: Base> Elem<usize> for Vector2<T> {
    type Output = T;

    open spec fn elem_req(self, index: usize) -> bool {
        index < 2
    }

    open spec fn elem_spec(self, index: usize) -> T {
        self@[index as int]
    }

    fn elem(self, index: usize) -> (r: T) {
        Vector2::elem(&self, index)
    }
}

impl<T: Base> Dot<Vector3<T>> for Vector3<T> {
    type Output = T;

    open spec fn dot_req(self, rhs: Vector3<T>) -> bool {
        self.spec_dot(rhs) is Some
    }

    open spec fn dot_spec(self, rhs: Vector3<T>) -> T {
        self.spec_dot(rhs)->0
    }

    fn dot(self, rhs: Vector3<T>) -> (r: T) {
        Vector3::dot(self, rhs)
    }
}

impl<T: Base> CwMin for Vector3<T> {
    type Output = Self;

    open spec fn cw_min_req(self, rhs: Self) -> bool {
        T::obeys_partial_cmp_spec()
    }

    open spec fn cw_min_spec(self, rhs: Self) -> Self {
        self.spec_cw_min(rhs)
    }

    fn cw_min(self, rhs: Self) -> (r: Self) {
        Vector3::cw_min(self, rhs)
    }
}

impl<T: Base> CwMax for Vector3<T> {
    type Output = Self;

    open spec fn cw_max_req(self, rhs: Self) -> bool {
        T::obeys_partial_cmp_spec()
    }

    open spec fn cw_max_spec(self, rhs: Self) -> Self {
        self.spec_cw_max(rhs)
    }

    fn cw_max(self, rhs: Self) -> (r: Self) {
        Vector3::cw_max(self, rhs)
    }
}

impl<T: Base + Neg<Output = T>> CwAbs for Vector3<T> {
    type Output = Self;

    open spec fn cw_abs_req(self) -> bool {
        T::obeys_partial_cmp_spec() && self.spec_cw_abs() is Some
    }

    open spec fn cw_abs_spec(self) -> Self {
        self.spec_cw_abs()->0
    }

    fn cw_abs(self) -> (r: Self) {
        Vector3::cw_abs(self)
    }
}

impl<T: Base> Elem<usize> for Vector3<T> {
    type Output = T;

    open spec fn elem_req(self, index: usize) -> bool {
        index < 3
    }

    open spec fn elem_spec(self, index: usize) -> T {
        self@[index as int]
    }

    fn elem(self, index: usize) -> (r: T) {
        Vector3::elem(&self, index)
    }
}

impl<T: Base> Dot<Vector4<T>> for Vector4<T> {
    type Output = T;

    open spec fn dot_req(self, rhs: Vector4<T>) -> bool {
        self.spec_dot(rhs) is Some
    }

    open spec fn dot_spec(self, rhs: Vector4<T>) -> T {
        self.spec_dot(rhs)->0
    }

    fn dot(self, rhs: Vector4<T>) -> (r: T) {
        Vector4::dot(self, rhs)
    }
}

impl<T: Base> CwMin for Vector4<T> {
    type Output = Self;

    open spec fn cw_min_req(self, rhs: Self) -> bool {
        T::obeys_partial_cmp_spec()
    }

    open spec fn cw_min_spec(self, rhs: Self) -> Self {
        self.spec_cw_min(rhs)
    }

    fn cw_min(self, rhs: Self) -> (r: Self) {
        Vector4::cw_min(self, rhs)
    }
}

impl<T: Base> CwMax for Vector4<T> {
    type Output = Self;

    open spec fn cw_max_req(self, rhs: Self) -> bool {
        T::obeys_partial_cmp_spec()
    }

    open spec fn cw_max_spec(self, rhs: Self) -> Self {
        self.spec_cw_max(rhs)
    }

    fn cw_max(self, rhs: Self) -> (r: Self) {
        Vector4::cw_max(self, rhs)
    }
}

impl<T: Base + Neg<Output = T>> CwAbs for Vector4<T> {
    type Output = Self;

    open spec fn cw_abs_req(self) -> bool {
        T::obeys_partial_cmp_spec() && self.spec_cw_abs() is Some
    }

    open spec fn cw_abs_spec(self) -> Self {
        self.spec_cw_abs()->0
    }

    fn cw_abs(self) -> (r: Self) {
        Vector4::cw_abs(self)
    }
}

impl<T: Base> Elem<usize> for Vector4<T> {
    type Output = T;

    open spec fn elem_req(self, index: usize) -> bool {
        index < 4
    }

    open spec fn elem_spec(self, index: usize) -> T {
        self@[index as int]
    }

    fn elem(self, index: usize) -> (r: T) {
        Vector4::elem(&self, index)
    }
}

impl<T: Base> ElemMut<usize> for Vector2<T> {
    type Output = T;

    open spec fn elem_mut_req(&self, index: usize) -> bool {
        index < 2
    }

    open spec fn elem_at(&self, index: usize) -> T {
        self@[index as int]
    }

    open spec fn with_elem(&self, index: usize, v: T) -> Self {
        self.spec_with_elem(index as int, v)
    }

    fn elem_mut(&mut self, index: usize) -> (r: &mut T) {
        Vector2::elem_mut(self, index)
    }
}

impl<T: Base> ElemMut<usize> for Vector3<T> {
    type Output = T;

    open spec fn elem_mut_req(&self, index: usize) -> bool {
        index < 3
    }

    open spec fn elem_at(&self, index: usize) -> T {
        self@[index as int]
    }

    open spec fn with_elem(&self, index: usize, v: T) -> Self {
        self.spec_with_elem(index as int, v)
    }

    fn elem_mut(&mut self, index: usize) -> (r: &mut T) {
        Vector3::elem_mut(self, index)
    }
}

impl<T: Base> ElemMut<usize> for Vector4<T> {
    type Output = T;

    open spec fn elem_mut_req(&self, index: usize) -> bool {
        index < 4
    }

    open spec fn elem_at(&self, index: usize) -> T {
        self@[index as int]
    }

    open spec fn with_elem(&self, index: usize, v: T) -> Self {
        self.spec_with_elem(index as int, v)
    }

    fn elem_mut(&mut self, index: usize) -> (r: &mut T) {
        Vector4::elem_mut(self, index)
    }
}

impl<T: Base> MatrixAccessMut for Matrix2<T> {
    type Output = T;

    open spec fn access_mut_req(&self, index: usize, elem_index: usize) -> bool {
        index < 2 && elem_index < 2
    }

    open spec fn at(&self, r: int, c: int) -> T {
        self.spec_at(r, c)
    }

    open spec fn with_at(&self, r: int, c: int, v: T) -> Self {
        self.spec_with_at(r, c, v)
    }

    fn col_elem_mut(&mut self, col_index: usize, elem_index: usize) -> (r: &mut T) {
        Matrix2::col_elem_mut(self, col_index, elem_index)
    }

    fn row_elem_mut(&mut self, row_index: usize, elem_index: usize) -> (r: &mut T) {
        Matrix2::row_elem_mut(self, row_index, elem_index)
    }
}

impl<'a, T: Base> AsArray for &'a Matrix2<T> {
    type Output = [T; 4];

    open spec fn as_array_req(self) -> bool {
        true
    }

    open spec fn as_array_ensures(self, r: [T; 4]) -> bool {
        r@ == self@
    }

    fn as_array(self) -> (r: [T; 4]) {
        Matrix2::as_array(self)
    }
}

impl<'a, T: Base> AsArrays for &'a Matrix2<T> {
    type Output = [[T; 2]; 2];

    open spec fn as_arrays_req(self) -> bool {
        true
    }

    open spec fn as_arrays_ensures(self, r: [[T; 2]; 2]) -> bool {
        forall|c: int, e: int| 0 <= c < 2 && 0 <= e < 2 ==> #[trigger] r@[c]@[e] == self.spec_at(e, c)
    }

    fn as_arrays(self) -> (r: [[T; 2]; 2]) {
        Matrix2::as_arrays(self)
    }
}

impl<T: Base> MatrixAccess for Matrix2<T> {
    type Output = T;

    open spec fn access_req(self, index: usize, elem_index: usize) -> bool {
        index < 2 && elem_index < 2
    }

    open spec fn at_spec(self, r: int, c: int) -> T {
        self.spec_at(r, c)
    }

    fn col_elem(self, col_index: usize, elem_index: usize) -> (r: T) {
        Matrix2::col_elem(&self, col_index, elem_index)
    }

    fn row_elem(self, row_index: usize, elem_index: usize) -> (r: T) {
        Matrix2::row_elem(&self, row_index, elem_index)
    }
}

impl<'a, T: Base> MatrixAccessRef<'a> for &'a Matrix2<T> {
    type Output = T;

    open spec fn access_req(self, index: usize, elem_index: usize) -> bool {
        index < 2 && elem_index < 2
    }

    open spec fn at_spec(self, r: int, c: int) -> T {
        self.spec_at(r, c)
    }

    fn col_elem_ref(self, col_index: usize, elem_index: usize) -> (r: &'a T) {
        Matrix2::col_elem_ref(self, col_index, elem_index)
    }

    fn row_elem_ref(self, row_index: usize, elem_index: usize) -> (r: &'a T) {
        Matrix2::row_elem_ref(self, row_index, elem_index)
    }
}

impl<T: Base> MatrixAccessMut for Matrix3<T> {
    type Output = T;

    open spec fn access_mut_req(&self, index: usize, elem_index: usize) -> bool {
        index < 3 && elem_index < 3
    }

    open spec fn at(&self, r: int, c: int) -> T {
        self.spec_at(r, c)
    }

    open spec fn with_at(&self, r: int, c: int, v: T) -> Self {
        self.spec_with_at(r, c, v)
    }

    fn col_elem_mut(&mut self, col_index: usize, elem_index: usize) -> (r: &mut T) {
        Matrix3::col_elem_mut(self, col_index, elem_index)
    }

    fn row_elem_mut(&mut self, row_index: usize, elem_index: usize) -> (r: &mut T) {
        Matrix3::row_elem_mut(self, row_index, elem_index)
    }
}

impl<'a, T: Base> AsArray for &'a Matrix3<T> {
    type Output = [T; 9];

    open spec fn as_array_req(self) -> bool {
        true
    }

    open spec fn as_array_ensures(self, r: [T; 9]) -> bool {
        r@ == self@
    }

    fn as_array(self) -> (r: [T; 9]) {
        Matrix3::as_array(self)
    }
}

impl<'a, T: Base> AsArrays for &'a Matrix3<T> {
    type Output = [[T; 3]; 3];

    open spec fn as_arrays_req(self) -> bool {
        true
    }

    open spec fn as_arrays_ensures(self, r: [[T; 3]; 3]) -> bool {
        forall|c: int, e: int| 0 <= c < 3 && 0 <= e < 3 ==> #[trigger] r@[c]@[e] == self.spec_at(e, c)
    }

    fn as_arrays(self) -> (r: [[T; 3]; 3]) {
        Matrix3::as_arrays(self)
    }
}

impl<T: Base> MatrixAccess for Matrix3<T> {
    type Output = T;

    open spec fn access_req(self, index: usize, elem_index: usize) -> bool {
        index < 3 && elem_index < 3
    }

    open spec fn at_spec(self, r: int, c: int) -> T {
        self.spec_at(r, c)
    }

    fn col_elem(self, col_index: usize, elem_index: usize) -> (r: T) {
        Matrix3::col_elem(&self, col_index, elem_index)
    }

    fn row_elem(self, row_index: usize, elem_index: usize) -> (r: T) {
        Matrix3::row_elem(&self, row_index, elem_index)
    }
}

impl<'a, T: Base> MatrixAccessRef<'a> for &'a Matrix3<T> {
    type Output = T;

    open spec fn access_req(self, index: usize, elem_index: usize) -> bool {
        index < 3 && elem_index < 3
    }

    open spec fn at_spec(self, r: int, c: int) -> T {
        self.spec_at(r, c)
    }

    fn col_elem_ref(self, col_index: usize, elem_index: usize) -> (r: &'a T) {
        Matrix3::col_elem_ref(self, col_index, elem_index)
    }

    fn row_elem_ref(self, row_index: usize, elem_index: usize) -> (r: &'a T) {
        Matrix3::row_elem_ref(self, row_index, elem_index)
    }
}

impl<T: Base> MatrixAccessMut for Matrix4<T> {
    type Output = T;

    open spec fn access_mut_req(&self, index: usize, elem_index: usize) -> bool {
        index < 4 && elem_index < 4
    }

    open spec fn at(&self, r: int, c: int) -> T {
        self.spec_at(r, c)
    }

    open spec fn with_at(&self, r: int, c: int, v: T) -> Self {
        self.spec_with_at(r, c, v)
    }

    fn col_elem_mut(&mut self, col_index: usize, elem_index: usize) -> (r: &mut T) {
        Matrix4::col_elem_mut(self, col_index, elem_index)
    }

    fn row_elem_mut(&mut self, row_index: usize, elem_index: usize) -> (r: &mut T) {
        Matrix4::row_elem_mut(self, row_index, elem_index)
    }
}

impl<'a, T: Base> AsArray for &'a Matrix4<T> {
    type Output = [T; 16];

    open spec fn as_array_req(self) -> bool {
        true
    }

    open spec fn as_array_ensures(self, r: [T; 16]) -> bool {
        r@ == self@
    }

    fn as_array(self) -> (r: [T; 16]) {
        Matrix4::as_array(self)
    }
}

impl<'a, T: Base> AsArrays for &'a Matrix4<T> {
    type Output = [[T; 4]; 4];

    open spec fn as_arrays_req(self) -> bool {
        true
    }

    open spec fn as_arrays_ensures(self, r: [[T; 4]; 4]) -> bool {
        forall|c: int, e: int| 0 <= c < 4 && 0 <= e < 4 ==> #[trigger] r@[c]@[e] == self.spec_at(e, c)
    }

    fn as_arrays(self) -> (r: [[T; 4]; 4]) {
        Matrix4::as_arrays(self)
    }
}

impl<T: Base> MatrixAccess for Matrix4<T> {
    type Output = T;

    open spec fn access_req(self, index: usize, elem_index: usize) -> bool {
        index < 4 && elem_index < 4
    }

    open spec fn at_spec(self, r: int, c: int) -> T {
        self.spec_at(r, c)
    }

    fn col_elem(self, col_index: usize, elem_index: usize) -> (r: T) {
        Matrix4::col_elem(&self, col_index, elem_index)
    }

    fn row_elem(self, row_index: usize, elem_index: usize) -> (r: T) {
        Matrix4::row_elem(&self, row_index, elem_index)
    }
}

impl<'a, T: Base> MatrixAccessRef<'a> for &'a Matrix4<T> {
    type Output = T;

    open spec fn access_req(self, index: usize, elem_index: usize) -> bool {
        index < 4 && elem_index < 4
    }

    open spec fn at_spec(self, r: int, c: int) -> T {
        self.spec_at(r, c)
    }

    fn col_elem_ref(self, col_index: usize, elem_index: usize) -> (r: &'a T) {
        Matrix4::col_elem_ref(self, col_index, elem_index)
    }

    fn row_elem_ref(self, row_index: usize, elem_index: usize) -> (r: &'a T) {
        Matrix4::row_elem_ref(self, row_index, elem_index)
    }
}

} // verus!
