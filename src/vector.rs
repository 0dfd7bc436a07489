use vstd::prelude::*;

verus! {

use core::ops::{Add, Div, Mul, Neg, Sub};
use crate::scalar::{opt_add, opt_div, opt_mul, opt_neg, opt_sub, spec_lt, spec_one, spec_zero, units_exact, Base};
use crate::error::IndexOutOfRange;
use vstd::std_specs::cmp::PartialOrdSpec;
use vstd::std_specs::ops::{AddSpec, DivSpec, MulSpec, NegSpec, SubSpec};

/// A vector of 2 components, named x, y in this order.
#[derive(Clone, Copy, Debug, PartialEq, PartialOrd)]
pub struct Vector2<T: Base> {
    pub x: T,
    pub y: T,
}

/// The vector of the given components, where each of them is defined.
pub open spec fn vec2_of<T: Base>(x: Option<T>, y: Option<T>) -> Option<Vector2<T>> {
    if x is Some && y is Some {
        Some(Vector2 { x: x->0, y: y->0 })
    } else {
        None
    }
}

impl<T: Base> View for Vector2<T> {
    type V = Seq<T>;

    /// The components in index order.
    open spec fn view(&self) -> Seq<T> {
        seq![self.x, self.y]
    }
}

impl<T: Base> Vector2<T> {
    /// Every component equal to `s`.
    pub open spec fn spec_splat(s: T) -> Self {
        Vector2 { x: s, y: s }
    }

    /// The component at `index` replaced with `v`.
    pub open spec fn spec_with_elem(self, index: int, v: T) -> Self {
        Vector2 {
            x: if index == 0 { v } else { self.x },
            y: if index == 1 { v } else { self.y },
        }
    }

    /// Component-wise sum.
    pub open spec fn spec_add(self, o: Self) -> Option<Self> {
        vec2_of(opt_add(Some(self.x), Some(o.x)), opt_add(Some(self.y), Some(o.y)))
    }

    /// Component-wise difference.
    pub open spec fn spec_sub(self, o: Self) -> Option<Self> {
        vec2_of(opt_sub(Some(self.x), Some(o.x)), opt_sub(Some(self.y), Some(o.y)))
    }

    /// Component-wise product.
    pub open spec fn spec_mul(self, o: Self) -> Option<Self> {
        vec2_of(opt_mul(Some(self.x), Some(o.x)), opt_mul(Some(self.y), Some(o.y)))
    }

    /// Component-wise quotient.
    pub open spec fn spec_div(self, o: Self) -> Option<Self> {
        vec2_of(opt_div(Some(self.x), Some(o.x)), opt_div(Some(self.y), Some(o.y)))
    }

    /// Every component multiplied by `s`.
    pub open spec fn spec_mul_scalar(self, s: T) -> Option<Self> {
        vec2_of(opt_mul(Some(self.x), Some(s)), opt_mul(Some(self.y), Some(s)))
    }

    /// Every component divided by `s`.
    pub open spec fn spec_div_scalar(self, s: T) -> Option<Self> {
        vec2_of(opt_div(Some(self.x), Some(s)), opt_div(Some(self.y), Some(s)))
    }

    /// `s` multiplied by every component.
    pub open spec fn spec_scalar_mul(s: T, v: Self) -> Option<Self> {
        vec2_of(opt_mul(Some(s), Some(v.x)), opt_mul(Some(s), Some(v.y)))
    }

    /// `s` divided by every component.
    pub open spec fn spec_scalar_div(s: T, v: Self) -> Option<Self> {
        vec2_of(opt_div(Some(s), Some(v.x)), opt_div(Some(s), Some(v.y)))
    }

    /// The sum of the component-wise products, added up from the first component on.
    pub open spec fn spec_dot(self, o: Self) -> Option<T> {
        opt_add(opt_mul(Some(self.x), Some(o.x)), opt_mul(Some(self.y), Some(o.y)))
    }

    /// Component-wise minimum: `self`'s component where it is less, else `o`'s.
    pub open spec fn spec_cw_min(self, o: Self) -> Self {
        Vector2 {
            x: if spec_lt(self.x, o.x) { self.x } else { o.x },
            y: if spec_lt(self.y, o.y) { self.y } else { o.y },
        }
    }

    /// Component-wise maximum: `self`'s component where `o`'s is less, else `o`'s.
    pub open spec fn spec_cw_max(self, o: Self) -> Self {
        Vector2 {
            x: if spec_lt(o.x, self.x) { self.x } else { o.x },
            y: if spec_lt(o.y, self.y) { self.y } else { o.y },
        }
    }

    /// The vector of the given components.
    pub fn new(x: T, y: T) -> (r: Self)
        ensures
            r == (Vector2 { x, y }),
    {
        Vector2 { x, y }
    }

    /// The number of components.
    pub fn dims() -> (r: usize)
        ensures
            r == 2,
    {
        2
    }

    /// Every component equal to the scalar's zero.
    pub fn zero() -> (r: Self)
        ensures
            units_exact::<T>() ==> r == Self::spec_splat(spec_zero::<T>()),
    {
        let s = T::zero();
        Vector2 { x: s, y: s }
    }

    /// Every component equal to the scalar's one.
    pub fn one() -> (r: Self)
        ensures
            units_exact::<T>() ==> r == Self::spec_splat(spec_one::<T>()),
    {
        let s = T::one();
        Vector2 { x: s, y: s }
    }

    /// The components as an array, in index order.
    pub fn as_array(&self) -> (r: [T; 2])
        ensures
            r@ == self@,
    {
        let r = [self.x, self.y];
        proof {
            assert(r@ =~= self@);
        }
        r
    }

    /// The component at `index`, or the error when `index` is not below the dimension.
    pub fn elem_checked(&self, index: usize) -> (r: Result<T, IndexOutOfRange>)
        ensures
            index < 2 ==> r == Ok::<T, IndexOutOfRange>(self@[index as int]),
            index >= 2 ==> r == Err::<T, IndexOutOfRange>(IndexOutOfRange { index, len: 2 }),
    {
        if index == 0 {
            Ok(self.x)
        } else if index == 1 {
            Ok(self.y)
        } else {
            Err(IndexOutOfRange { index, len: 2 })
        }
    }

    /// The component at `index`; the same as the named field at that position.
    pub fn elem(&self, index: usize) -> (r: T)
        requires
            index < 2,
        ensures
            r == self@[index as int],
    {
        self.elem_checked(index).unwrap()
    }

    /// Replaces the component at `index` with `value`.
    pub fn set_elem(&mut self, index: usize, value: T)
        requires
            index < 2,
        ensures
            final(self)@ == old(self)@.update(index as int, value),
    {
        if index == 0 {
            self.x = value;
        } else {
            self.y = value;
        }
        proof {
            assert(final(self)@ =~= old(self)@.update(index as int, value));
        }
    }

    /// A mutable reference to the component at `index`; what is written through it lands
    /// in that component.
    pub fn elem_mut(&mut self, index: usize) -> (r: &mut T)
        requires
            index < 2,
        ensures
            *r == old(self)@[index as int],
            *final(self) == old(self).spec_with_elem(index as int, *final(r)),
    {
        if index == 0 {
            &mut self.x
        } else {
            &mut self.y
        }
    }

    /// The dot product: the sum of the component-wise products.
    pub fn dot(self, rhs: Self) -> (r: T)
        requires
            self.spec_dot(rhs) is Some,
        ensures
            Some(r) == self.spec_dot(rhs),
    {
        self.x * rhs.x + self.y * rhs.y
    }

    /// Component-wise minimum.
    pub fn cw_min(self, rhs: Self) -> (r: Self)
        requires
            T::obeys_partial_cmp_spec(),
        ensures
            r == self.spec_cw_min(rhs),
    {
        Vector2 {
            x: if self.x.lt(&rhs.x) { self.x } else { rhs.x },
            y: if self.y.lt(&rhs.y) { self.y } else { rhs.y },
        }
    }

    /// Component-wise maximum.
    pub fn cw_max(self, rhs: Self) -> (r: Self)
        requires
            T::obeys_partial_cmp_spec(),
        ensures
            r == self.spec_cw_max(rhs),
    {
        Vector2 {
            x: if rhs.x.lt(&self.x) { self.x } else { rhs.x },
            y: if rhs.y.lt(&self.y) { self.y } else { rhs.y },
        }
    }

    /// Adds `rhs` component-wise, in place.
    pub fn add_assign(&mut self, rhs: Self)
        requires
            old(self).spec_add(rhs) is Some,
        ensures
            Some(*final(self)) == old(self).spec_add(rhs),
    {
        self.x = self.x + rhs.x;
        self.y = self.y + rhs.y;
    }

    /// Subtracts `rhs` component-wise, in place.
    pub fn sub_assign(&mut self, rhs: Self)
        requires
            old(self).spec_sub(rhs) is Some,
        ensures
            Some(*final(self)) == old(self).spec_sub(rhs),
    {
        self.x = self.x - rhs.x;
        self.y = self.y - rhs.y;
    }

    /// Multiplies by `rhs` component-wise, in place.
    pub fn mul_assign(&mut self, rhs: Self)
        requires
            old(self).spec_mul(rhs) is Some,
        ensures
            Some(*final(self)) == old(self).spec_mul(rhs),
    {
        self.x = self.x * rhs.x;
        self.y = self.y * rhs.y;
    }

    /// Divides by `rhs` component-wise, in place.
    pub fn div_assign(&mut self, rhs: Self)
        requires
            old(self).spec_div(rhs) is Some,
        ensures
            Some(*final(self)) == old(self).spec_div(rhs),
    {
        self.x = self.x / rhs.x;
        self.y = self.y / rhs.y;
    }

    /// Multiplies every component by `rhs`, in place.
    pub fn mul_assign_scalar(&mut self, rhs: T)
        requires
            old(self).spec_mul_scalar(rhs) is Some,
        ensures
            Some(*final(self)) == old(self).spec_mul_scalar(rhs),
    {
        self.x = self.x * rhs;
        self.y = self.y * rhs;
    }

    /// Divides every component by `rhs`, in place.
    pub fn div_assign_scalar(&mut self, rhs: T)
        requires
            old(self).spec_div_scalar(rhs) is Some,
        ensures
            Some(*final(self)) == old(self).spec_div_scalar(rhs),
    {
        self.x = self.x / rhs;
        self.y = self.y / rhs;
    }

    /// `s` multiplied by every component of `v`.
    pub fn scalar_mul(s: T, v: Self) -> (r: Self)
        requires
            Self::spec_scalar_mul(s, v) is Some,
        ensures
            Some(r) == Self::spec_scalar_mul(s, v),
    {
        Vector2 { x: s * v.x, y: s * v.y }
    }

    /// `s` divided by every component of `v`.
    pub fn scalar_div(s: T, v: Self) -> (r: Self)
        requires
            Self::spec_scalar_div(s, v) is Some,
        ensures
            Some(r) == Self::spec_scalar_div(s, v),
    {
        Vector2 { x: s / v.x, y: s / v.y }
    }
}

impl<T: Base + Neg<Output = T>> Vector2<T> {
    /// Component-wise negation.
    pub open spec fn spec_neg(self) -> Option<Self> {
        vec2_of(opt_neg(Some(self.x)), opt_neg(Some(self.y)))
    }

    /// Component-wise absolute value: a component below zero is negated.
    pub open spec fn spec_cw_abs(self) -> Option<Self> {
        if units_exact::<T>() {
            vec2_of(if spec_lt(self.x, spec_zero::<T>()) { opt_neg(Some(self.x)) } else { Some(self.x) }, if spec_lt(self.y, spec_zero::<T>()) { opt_neg(Some(self.y)) } else { Some(self.y) })
        } else {
            None
        }
    }

    /// Component-wise absolute value.
    pub fn cw_abs(self) -> (r: Self)
        requires
            T::obeys_partial_cmp_spec(),
            self.spec_cw_abs() is Some,
        ensures
            Some(r) == self.spec_cw_abs(),
    {
        let zero = T::zero();
        Vector2 {
            x: if self.x.lt(&zero) { self.x.neg() } else { self.x },
            y: if self.y.lt(&zero) { self.y.neg() } else { self.y },
        }
    }
}

impl<T: Base> vstd::std_specs::ops::AddSpecImpl for Vector2<T> {
    open spec fn obeys_add_spec() -> bool {
        true
    }

    open spec fn add_req(self, rhs: Self) -> bool {
        self.spec_add(rhs) is Some
    }

    open spec fn add_spec(self, rhs: Self) -> Self {
        self.spec_add(rhs)->0
    }
}

impl<T: Base> Add for Vector2<T> {
    type Output = Self;

    fn add(self, rhs: Self) -> (r: Self)
        ensures
            Some(r) == self.spec_add(rhs),
    {
        Vector2 { x: self.x + rhs.x, y: self.y + rhs.y }
    }
}

impl<T: Base> vstd::std_specs::ops::SubSpecImpl for Vector2<T> {
    open spec fn obeys_sub_spec() -> bool {
        true
    }

    open spec fn sub_req(self, rhs: Self) -> bool {
        self.spec_sub(rhs) is Some
    }

    open spec fn sub_spec(self, rhs: Self) -> Self {
        self.spec_sub(rhs)->0
    }
}

impl<T: Base> Sub for Vector2<T> {
    type Output = Self;

    fn sub(self, rhs: Self) -> (r: Self)
        ensures
            Some(r) == self.spec_sub(rhs),
    {
        Vector2 { x: self.x - rhs.x, y: self.y - rhs.y }
    }
}

impl<T: Base> vstd::std_specs::ops::MulSpecImpl<Vector2<T>> for Vector2<T> {
    open spec fn obeys_mul_spec() -> bool {
        true
    }

    open spec fn mul_req(self, rhs: Vector2<T>) -> bool {
        self.spec_mul(rhs) is Some
    }

    open spec fn mul_spec(self, rhs: Vector2<T>) -> Self {
        self.spec_mul(rhs)->0
    }
}

impl<T: Base> Mul<Vector2<T>> for Vector2<T> {
    type Output = Self;

    fn mul(self, rhs: Vector2<T>) -> (r: Self)
        ensures
            Some(r) == self.spec_mul(rhs),
    {
        Vector2 { x: self.x * rhs.x, y: self.y * rhs.y }
    }
}

impl<T: Base> vstd::std_specs::ops::MulSpecImpl<T> for Vector2<T> {
    open spec fn obeys_mul_spec() -> bool {
        true
    }

    open spec fn mul_req(self, rhs: T) -> bool {
        self.spec_mul_scalar(rhs) is Some
    }

    open spec fn mul_spec(self, rhs: T) -> Self {
        self.spec_mul_scalar(rhs)->0
    }
}

impl<T: Base> Mul<T> for Vector2<T> {
    type Output = Self;

    fn mul(self, rhs: T) -> (r: Self)
        ensures
            Some(r) == self.spec_mul_scalar(rhs),
    {
        Vector2 { x: self.x * rhs, y: self.y * rhs }
    }
}

impl<T: Base> vstd::std_specs::ops::DivSpecImpl<Vector2<T>> for Vector2<T> {
    open spec fn obeys_div_spec() -> bool {
        true
    }

    open spec fn div_req(self, rhs: Vector2<T>) -> bool {
        self.spec_div(rhs) is Some
    }

    open spec fn div_spec(self, rhs: Vector2<T>) -> Self {
        self.spec_div(rhs)->0
    }
}

impl<T: Base> Div<Vector2<T>> for Vector2<T> {
    type Output = Self;

    fn div(self, rhs: Vector2<T>) -> (r: Self)
        ensures
            Some(r) == self.spec_div(rhs),
    {
        Vector2 { x: self.x / rhs.x, y: self.y / rhs.y }
    }
}

impl<T: Base> vstd::std_specs::ops::DivSpecImpl<T> for Vector2<T> {
    open spec fn obeys_div_spec() -> bool {
        true
    }

    open spec fn div_req(self, rhs: T) -> bool {
        self.spec_div_scalar(rhs) is Some
    }

    open spec fn div_spec(self, rhs: T) -> Self {
        self.spec_div_scalar(rhs)->0
    }
}

impl<T: Base> Div<T> for Vector2<T> {
    type Output = Self;

    fn div(self, rhs: T) -> (r: Self)
        ensures
            Some(r) == self.spec_div_scalar(rhs),
    {
        Vector2 { x: self.x / rhs, y: self.y / rhs }
    }
}

impl<T: Base> Default for Vector2<T> {
    /// The zero vector.
    fn default() -> (r: Self)
        ensures
            units_exact::<T>() ==> r == Self::spec_splat(spec_zero::<T>()),
    {
        Self::zero()
    }
}

impl<T: Base + Neg<Output = T>> vstd::std_specs::ops::NegSpecImpl for Vector2<T> {
    open spec fn obeys_neg_spec() -> bool {
        true
    }

    open spec fn neg_req(self) -> bool {
        self.spec_neg() is Some
    }

    open spec fn neg_spec(self) -> Self {
        self.spec_neg()->0
    }
}

impl<T: Base + Neg<Output = T>> Neg for Vector2<T> {
    type Output = Self;

    fn neg(self) -> (r: Self)
        ensures
            Some(r) == self.spec_neg(),
    {
        Vector2 { x: self.x.neg(), y: self.y.neg() }
    }
}

/// A vector of 3 components, named x, y, z in this order.
#[derive(Clone, Copy, Debug, PartialEq, PartialOrd)]
pub struct Vector3<T: Base> {
    pub x: T,
    pub y: T,
    pub z: T,
}

/// The vector of the given components, where each of them is defined.
pub open spec fn vec3_of<T: Base>(x: Option<T>, y: Option<T>, z: Option<T>) -> Option<Vector3<T>> {
    if x is Some && y is Some && z is Some {
        Some(Vector3 { x: x->0, y: y->0, z: z->0 })
    } else {
        None
    }
}

impl<T: Base> View for Vector3<T> {
    type V = Seq<T>;

    /// The components in index order.
    open spec fn view(&self) -> Seq<T> {
        seq![self.x, self.y, self.z]
    }
}

impl<T: Base> Vector3<T> {
    /// Every component equal to `s`.
    pub open spec fn spec_splat(s: T) -> Self {
        Vector3 { x: s, y: s, z: s }
    }

    /// The component at `index` replaced with `v`.
    pub open spec fn spec_with_elem(self, index: int, v: T) -> Self {
        Vector3 {
            x: if index == 0 { v } else { self.x },
            y: if index == 1 { v } else { self.y },
            z: if index == 2 { v } else { self.z },
        }
    }

    /// Component-wise sum.
    pub open spec fn spec_add(self, o: Self) -> Option<Self> {
        vec3_of(opt_add(Some(self.x), Some(o.x)), opt_add(Some(self.y), Some(o.y)), opt_add(Some(self.z), Some(o.z)))
    }

    /// Component-wise difference.
    pub open spec fn spec_sub(self, o: Self) -> Option<Self> {
        vec3_of(opt_sub(Some(self.x), Some(o.x)), opt_sub(Some(self.y), Some(o.y)), opt_sub(Some(self.z), Some(o.z)))
    }

    /// Component-wise product.
    pub open spec fn spec_mul(self, o: Self) -> Option<Self> {
        vec3_of(opt_mul(Some(self.x), Some(o.x)), opt_mul(Some(self.y), Some(o.y)), opt_mul(Some(self.z), Some(o.z)))
    }

    /// Component-wise quotient.
    pub open spec fn spec_div(self, o: Self) -> Option<Self> {
        vec3_of(opt_div(Some(self.x), Some(o.x)), opt_div(Some(self.y), Some(o.y)), opt_div(Some(self.z), Some(o.z)))
    }

    /// Every component multiplied by `s`.
    pub open spec fn spec_mul_scalar(self, s: T) -> Option<Self> {
        vec3_of(opt_mul(Some(self.x), Some(s)), opt_mul(Some(self.y), Some(s)), opt_mul(Some(self.z), Some(s)))
    }

    /// Every component divided by `s`.
    pub open spec fn spec_div_scalar(self, s: T) -> Option<Self> {
        vec3_of(opt_div(Some(self.x), Some(s)), opt_div(Some(self.y), Some(s)), opt_div(Some(self.z), Some(s)))
    }

    /// `s` multiplied by every component.
    pub open spec fn spec_scalar_mul(s: T, v: Self) -> Option<Self> {
        vec3_of(opt_mul(Some(s), Some(v.x)), opt_mul(Some(s), Some(v.y)), opt_mul(Some(s), Some(v.z)))
    }

    /// `s` divided by every component.
    pub open spec fn spec_scalar_div(s: T, v: Self) -> Option<Self> {
        vec3_of(opt_div(Some(s), Some(v.x)), opt_div(Some(s), Some(v.y)), opt_div(Some(s), Some(v.z)))
    }

    /// The sum of the component-wise products, added up from the first component on.
    pub open spec fn spec_dot(self, o: Self) -> Option<T> {
        opt_add(opt_add(opt_mul(Some(self.x), Some(o.x)), opt_mul(Some(self.y), Some(o.y))), opt_mul(Some(self.z), Some(o.z)))
    }

    /// Component-wise minimum: `self`'s component where it is less, else `o`'s.
    pub open spec fn spec_cw_min(self, o: Self) -> Self {
        Vector3 {
            x: if spec_lt(self.x, o.x) { self.x } else { o.x },
            y: if spec_lt(self.y, o.y) { self.y } else { o.y },
            z: if spec_lt(self.z, o.z) { self.z } else { o.z },
        }
    }

    /// Component-wise maximum: `self`'s component where `o`'s is less, else `o`'s.
    pub open spec fn spec_cw_max(self, o: Self) -> Self {
        Vector3 {
            x: if spec_lt(o.x, self.x) { self.x } else { o.x },
            y: if spec_lt(o.y, self.y) { self.y } else { o.y },
            z: if spec_lt(o.z, self.z) { self.z } else { o.z },
        }
    }

    /// The vector of the given components.
    pub fn new(x: T, y: T, z: T) -> (r: Self)
        ensures
            r == (Vector3 { x, y, z }),
    {
        Vector3 { x, y, z }
    }

    /// The number of components.
    pub fn dims() -> (r: usize)
        ensures
            r == 3,
    {
        3
    }

    /// Every component equal to the scalar's zero.
    pub fn zero() -> (r: Self)
        ensures
            units_exact::<T>() ==> r == Self::spec_splat(spec_zero::<T>()),
    {
        let s = T::zero();
        Vector3 { x: s, y: s, z: s }
    }

    /// Every component equal to the scalar's one.
    pub fn one() -> (r: Self)
        ensures
            units_exact::<T>() ==> r == Self::spec_splat(spec_one::<T>()),
    {
        let s = T::one();
        Vector3 { x: s, y: s, z: s }
    }

    /// The components as an array, in index order.
    pub fn as_array(&self) -> (r: [T; 3])
        ensures
            r@ == self@,
    {
        let r = [self.x, self.y, self.z];
        proof {
            assert(r@ =~= self@);
        }
        r
    }

    /// The component at `index`, or the error when `index` is not below the dimension.
    pub fn elem_checked(&self, index: usize) -> (r: Result<T, IndexOutOfRange>)
        ensures
            index < 3 ==> r == Ok::<T, IndexOutOfRange>(self@[index as int]),
            index >= 3 ==> r == Err::<T, IndexOutOfRange>(IndexOutOfRange { index, len: 3 }),
    {
        if index == 0 {
            Ok(self.x)
        } else if index == 1 {
            Ok(self.y)
        } else if index == 2 {
            Ok(self.z)
        } else {
            Err(IndexOutOfRange { index, len: 3 })
        }
    }

    /// The component at `index`; the same as the named field at that position.
    pub fn elem(&self, index: usize) -> (r: T)
        requires
            index < 3,
        ensures
            r == self@[index as int],
    {
        self.elem_checked(index).unwrap()
    }

    /// Replaces the component at `index` with `value`.
    pub fn set_elem(&mut self, index: usize, value: T)
        requires
            index < 3,
        ensures
            final(self)@ == old(self)@.update(index as int, value),
    {
        if index == 0 {
            self.x = value;
        } else if index == 1 {
            self.y = value;
        } else {
            self.z = value;
        }
        proof {
            assert(final(self)@ =~= old(self)@.update(index as int, value));
        }
    }

    /// A mutable reference to the component at `index`; what is written through it lands
    /// in that component.
    pub fn elem_mut(&mut self, index: usize) -> (r: &mut T)
        requires
            index < 3,
        ensures
            *r == old(self)@[index as int],
            *final(self) == old(self).spec_with_elem(index as int, *final(r)),
    {
        if index == 0 {
            &mut self.x
        } else if index == 1 {
            &mut self.y
        } else {
            &mut self.z
        }
    }

    /// The dot product: the sum of the component-wise products.
    pub fn dot(self, rhs: Self) -> (r: T)
        requires
            self.spec_dot(rhs) is Some,
        ensures
            Some(r) == self.spec_dot(rhs),
    {
        self.x * rhs.x + self.y * rhs.y + self.z * rhs.z
    }

    /// Component-wise minimum.
    pub fn cw_min(self, rhs: Self) -> (r: Self)
        requires
            T::obeys_partial_cmp_spec(),
        ensures
            r == self.spec_cw_min(rhs),
    {
        Vector3 {
            x: if self.x.lt(&rhs.x) { self.x } else { rhs.x },
            y: if self.y.lt(&rhs.y) { self.y } else { rhs.y },
            z: if self.z.lt(&rhs.z) { self.z } else { rhs.z },
        }
    }

    /// Component-wise maximum.
    pub fn cw_max(self, rhs: Self) -> (r: Self)
        requires
            T::obeys_partial_cmp_spec(),
        ensures
            r == self.spec_cw_max(rhs),
    {
        Vector3 {
            x: if rhs.x.lt(&self.x) { self.x } else { rhs.x },
            y: if rhs.y.lt(&self.y) { self.y } else { rhs.y },
            z: if rhs.z.lt(&self.z) { self.z } else { rhs.z },
        }
    }

    /// Adds `rhs` component-wise, in place.
    pub fn add_assign(&mut self, rhs: Self)
        requires
            old(self).spec_add(rhs) is Some,
        ensures
            Some(*final(self)) == old(self).spec_add(rhs),
    {
        self.x = self.x + rhs.x;
        self.y = self.y + rhs.y;
        self.z = self.z + rhs.z;
    }

    /// Subtracts `rhs` component-wise, in place.
    pub fn sub_assign(&mut self, rhs: Self)
        requires
            old(self).spec_sub(rhs) is Some,
        ensures
            Some(*final(self)) == old(self).spec_sub(rhs),
    {
        self.x = self.x - rhs.x;
        self.y = self.y - rhs.y;
        self.z = self.z - rhs.z;
    }

    /// Multiplies by `rhs` component-wise, in place.
    pub fn mul_assign(&mut self, rhs: Self)
        requires
            old(self).spec_mul(rhs) is Some,
        ensures
            Some(*final(self)) == old(self).spec_mul(rhs),
    {
        self.x = self.x * rhs.x;
        self.y = self.y * rhs.y;
        self.z = self.z * rhs.z;
    }

    /// Divides by `rhs` component-wise, in place.
    pub fn div_assign(&mut self, rhs: Self)
        requires
            old(self).spec_div(rhs) is Some,
        ensures
            Some(*final(self)) == old(self).spec_div(rhs),
    {
        self.x = self.x / rhs.x;
        self.y = self.y / rhs.y;
        self.z = self.z / rhs.z;
    }

    /// Multiplies every component by `rhs`, in place.
    pub fn mul_assign_scalar(&mut self, rhs: T)
        requires
            old(self).spec_mul_scalar(rhs) is Some,
        ensures
            Some(*final(self)) == old(self).spec_mul_scalar(rhs),
    {
        self.x = self.x * rhs;
        self.y = self.y * rhs;
        self.z = self.z * rhs;
    }

    /// Divides every component by `rhs`, in place.
    pub fn div_assign_scalar(&mut self, rhs: T)
        requires
            old(self).spec_div_scalar(rhs) is Some,
        ensures
            Some(*final(self)) == old(self).spec_div_scalar(rhs),
    {
        self.x = self.x / rhs;
        self.y = self.y / rhs;
        self.z = self.z / rhs;
    }

    /// `s` multiplied by every component of `v`.
    pub fn scalar_mul(s: T, v: Self) -> (r: Self)
        requires
            Self::spec_scalar_mul(s, v) is Some,
        ensures
            Some(r) == Self::spec_scalar_mul(s, v),
    {
        Vector3 { x: s * v.x, y: s * v.y, z: s * v.z }
    }

    /// `s` divided by every component of `v`.
    pub fn scalar_div(s: T, v: Self) -> (r: Self)
        requires
            Self::spec_scalar_div(s, v) is Some,
        ensures
            Some(r) == Self::spec_scalar_div(s, v),
    {
        Vector3 { x: s / v.x, y: s / v.y, z: s / v.z }
    }

    /// The right-handed cross product.
    pub open spec fn spec_cross(self, o: Self) -> Option<Self> {
        vec3_of(
            opt_sub(opt_mul(Some(self.y), Some(o.z)), opt_mul(Some(self.z), Some(o.y))),
            opt_sub(opt_mul(Some(self.z), Some(o.x)), opt_mul(Some(self.x), Some(o.z))),
            opt_sub(opt_mul(Some(self.x), Some(o.y)), opt_mul(Some(self.y), Some(o.x))),
        )
    }

    /// The right-handed cross product `(y·z' − z·y', z·x' − x·z', x·y' − y·x')`.
    pub fn cross(self, rhs: Self) -> (r: Self)
        requires
            self.spec_cross(rhs) is Some,
        ensures
            Some(r) == self.spec_cross(rhs),
    {
        Vector3 {
            x: self.y * rhs.z - self.z * rhs.y,
            y: self.z * rhs.x - self.x * rhs.z,
            z: self.x * rhs.y - self.y * rhs.x,
        }
    }
}

impl<T: Base + Neg<Output = T>> Vector3<T> {
    /// Component-wise negation.
    pub open spec fn spec_neg(self) -> Option<Self> {
        vec3_of(opt_neg(Some(self.x)), opt_neg(Some(self.y)), opt_neg(Some(self.z)))
    }

    /// Component-wise absolute value: a component below zero is negated.
    pub open spec fn spec_cw_abs(self) -> Option<Self> {
        if units_exact::<T>() {
            vec3_of(if spec_lt(self.x, spec_zero::<T>()) { opt_neg(Some(self.x)) } else { Some(self.x) }, if spec_lt(self.y, spec_zero::<T>()) { opt_neg(Some(self.y)) } else { Some(self.y) }, if spec_lt(self.z, spec_zero::<T>()) { opt_neg(Some(self.z)) } else { Some(self.z) })
        } else {
            None
        }
    }

    /// Component-wise absolute value.
    pub fn cw_abs(self) -> (r: Self)
        requires
            T::obeys_partial_cmp_spec(),
            self.spec_cw_abs() is Some,
        ensures
            Some(r) == self.spec_cw_abs(),
    {
        let zero = T::zero();
        Vector3 {
            x: if self.x.lt(&zero) { self.x.neg() } else { self.x },
            y: if self.y.lt(&zero) { self.y.neg() } else { self.y },
            z: if self.z.lt(&zero) { self.z.neg() } else { self.z },
        }
    }
}

impl<T: Base> vstd::std_specs::ops::AddSpecImpl for Vector3<T> {
    open spec fn obeys_add_spec() -> bool {
        true
    }

    open spec fn add_req(self, rhs: Self) -> bool {
        self.spec_add(rhs) is Some
    }

    open spec fn add_spec(self, rhs: Self) -> Self {
        self.spec_add(rhs)->0
    }
}

impl<T: Base> Add for Vector3<T> {
    type Output = Self;

    fn add(self, rhs: Self) -> (r: Self)
        ensures
            Some(r) == self.spec_add(rhs),
    {
        Vector3 { x: self.x + rhs.x, y: self.y + rhs.y, z: self.z + rhs.z }
    }
}

impl<T: Base> vstd::std_specs::ops::SubSpecImpl for Vector3<T> {
    open spec fn obeys_sub_spec() -> bool {
        true
    }

    open spec fn sub_req(self, rhs: Self) -> bool {
        self.spec_sub(rhs) is Some
    }

    open spec fn sub_spec(self, rhs: Self) -> Self {
        self.spec_sub(rhs)->0
    }
}

impl<T: Base> Sub for Vector3<T> {
    type Output = Self;

    fn sub(self, rhs: Self) -> (r: Self)
        ensures
            Some(r) == self.spec_sub(rhs),
    {
        Vector3 { x: self.x - rhs.x, y: self.y - rhs.y, z: self.z - rhs.z }
    }
}

impl<T: Base> vstd::std_specs::ops::MulSpecImpl<Vector3<T>> for Vector3<T> {
    open spec fn obeys_mul_spec() -> bool {
        true
    }

    open spec fn mul_req(self, rhs: Vector3<T>) -> bool {
        self.spec_mul(rhs) is Some
    }

    open spec fn mul_spec(self, rhs: Vector3<T>) -> Self {
        self.spec_mul(rhs)->0
    }
}

impl<T: Base> Mul<Vector3<T>> for Vector3<T> {
    type Output = Self;

    fn mul(self, rhs: Vector3<T>) -> (r: Self)
        ensures
            Some(r) == self.spec_mul(rhs),
    {
        Vector3 { x: self.x * rhs.x, y: self.y * rhs.y, z: self.z * rhs.z }
    }
}

impl<T: Base> vstd::std_specs::ops::MulSpecImpl<T> for Vector3<T> {
    open spec fn obeys_mul_spec() -> bool {
        true
    }

    open spec fn mul_req(self, rhs: T) -> bool {
        self.spec_mul_scalar(rhs) is Some
    }

    open spec fn mul_spec(self, rhs: T) -> Self {
        self.spec_mul_scalar(rhs)->0
    }
}

impl<T: Base> Mul<T> for Vector3<T> {
    type Output = Self;

    fn mul(self, rhs: T) -> (r: Self)
        ensures
            Some(r) == self.spec_mul_scalar(rhs),
    {
        Vector3 { x: self.x * rhs, y: self.y * rhs, z: self.z * rhs }
    }
}

impl<T: Base> vstd::std_specs::ops::DivSpecImpl<Vector3<T>> for Vector3<T> {
    open spec fn obeys_div_spec() -> bool {
        true
    }

    open spec fn div_req(self, rhs: Vector3<T>) -> bool {
        self.spec_div(rhs) is Some
    }

    open spec fn div_spec(self, rhs: Vector3<T>) -> Self {
        self.spec_div(rhs)->0
    }
}

impl<T: Base> Div<Vector3<T>> for Vector3<T> {
    type Output = Self;

    fn div(self, rhs: Vector3<T>) -> (r: Self)
        ensures
            Some(r) == self.spec_div(rhs),
    {
        Vector3 { x: self.x / rhs.x, y: self.y / rhs.y, z: self.z / rhs.z }
    }
}

impl<T: Base> vstd::std_specs::ops::DivSpecImpl<T> for Vector3<T> {
    open spec fn obeys_div_spec() -> bool {
        true
    }

    open spec fn div_req(self, rhs: T) -> bool {
        self.spec_div_scalar(rhs) is Some
    }

    open spec fn div_spec(self, rhs: T) -> Self {
        self.spec_div_scalar(rhs)->0
    }
}

impl<T: Base> Div<T> for Vector3<T> {
    type Output = Self;

    fn div(self, rhs: T) -> (r: Self)
        ensures
            Some(r) == self.spec_div_scalar(rhs),
    {
        Vector3 { x: self.x / rhs, y: self.y / rhs, z: self.z / rhs }
    }
}

impl<T: Base> Default for Vector3<T> {
    /// The zero vector.
    fn default() -> (r: Self)
        ensures
            units_exact::<T>() ==> r == Self::spec_splat(spec_zero::<T>()),
    {
        Self::zero()
    }
}

impl<T: Base + Neg<Output = T>> vstd::std_specs::ops::NegSpecImpl for Vector3<T> {
    open spec fn obeys_neg_spec() -> bool {
        true
    }

    open spec fn neg_req(self) -> bool {
        self.spec_neg() is Some
    }

    open spec fn neg_spec(self) -> Self {
        self.spec_neg()->0
    }
}

impl<T: Base + Neg<Output = T>> Neg for Vector3<T> {
    type Output = Self;

    fn neg(self) -> (r: Self)
        ensures
            Some(r) == self.spec_neg(),
    {
        Vector3 { x: self.x.neg(), y: self.y.neg(), z: self.z.neg() }
    }
}

/// A vector of 4 components, named x, y, z, w in this order.
#[derive(Clone, Copy, Debug, PartialEq, PartialOrd)]
pub struct Vector4<T: Base> {
    pub x: T,
    pub y: T,
    pub z: T,
    pub w: T,
}

/// The vector of the given components, where each of them is defined.
pub open spec fn vec4_of<T: Base>(x: Option<T>, y: Option<T>, z: Option<T>, w: Option<T>) -> Option<Vector4<T>> {
    if x is Some && y is Some && z is Some && w is Some {
        Some(Vector4 { x: x->0, y: y->0, z: z->0, w: w->0 })
    } else {
        None
    }
}

impl<T: Base> View for Vector4<T> {
    type V = Seq<T>;

    /// The components in index order.
    open spec fn view(&self) -> Seq<T> {
        seq![self.x, self.y, self.z, self.w]
    }
}

impl<T: Base> Vector4<T> {
    /// Every component equal to `s`.
    pub open spec fn spec_splat(s: T) -> Self {
        Vector4 { x: s, y: s, z: s, w: s }
    }

    /// The component at `index` replaced with `v`.
    pub open spec fn spec_with_elem(self, index: int, v: T) -> Self {
        Vector4 {
            x: if index == 0 { v } else { self.x },
            y: if index == 1 { v } else { self.y },
            z: if index == 2 { v } else { self.z },
            w: if index == 3 { v } else { self.w },
        }
    }

    /// Component-wise sum.
    pub open spec fn spec_add(self, o: Self) -> Option<Self> {
        vec4_of(opt_add(Some(self.x), Some(o.x)), opt_add(Some(self.y), Some(o.y)), opt_add(Some(self.z), Some(o.z)), opt_add(Some(self.w), Some(o.w)))
    }

    /// Component-wise difference.
    pub open spec fn spec_sub(self, o: Self) -> Option<Self> {
        vec4_of(opt_sub(Some(self.x), Some(o.x)), opt_sub(Some(self.y), Some(o.y)), opt_sub(Some(self.z), Some(o.z)), opt_sub(Some(self.w), Some(o.w)))
    }

    /// Component-wise product.
    pub open spec fn spec_mul(self, o: Self) -> Option<Self> {
        vec4_of(opt_mul(Some(self.x), Some(o.x)), opt_mul(Some(self.y), Some(o.y)), opt_mul(Some(self.z), Some(o.z)), opt_mul(Some(self.w), Some(o.w)))
    }

    /// Component-wise quotient.
    pub open spec fn spec_div(self, o: Self) -> Option<Self> {
        vec4_of(opt_div(Some(self.x), Some(o.x)), opt_div(Some(self.y), Some(o.y)), opt_div(Some(self.z), Some(o.z)), opt_div(Some(self.w), Some(o.w)))
    }

    /// Every component multiplied by `s`.
    pub open spec fn spec_mul_scalar(self, s: T) -> Option<Self> {
        vec4_of(opt_mul(Some(self.x), Some(s)), opt_mul(Some(self.y), Some(s)), opt_mul(Some(self.z), Some(s)), opt_mul(Some(self.w), Some(s)))
    }

    /// Every component divided by `s`.
    pub open spec fn spec_div_scalar(self, s: T) -> Option<Self> {
        vec4_of(opt_div(Some(self.x), Some(s)), opt_div(Some(self.y), Some(s)), opt_div(Some(self.z), Some(s)), opt_div(Some(self.w), Some(s)))
    }

    /// `s` multiplied by every component.
    pub open spec fn spec_scalar_mul(s: T, v: Self) -> Option<Self> {
        vec4_of(opt_mul(Some(s), Some(v.x)), opt_mul(Some(s), Some(v.y)), opt_mul(Some(s), Some(v.z)), opt_mul(Some(s), Some(v.w)))
    }

    /// `s` divided by every component.
    pub open spec fn spec_scalar_div(s: T, v: Self) -> Option<Self> {
        vec4_of(opt_div(Some(s), Some(v.x)), opt_div(Some(s), Some(v.y)), opt_div(Some(s), Some(v.z)), opt_div(Some(s), Some(v.w)))
    }

    /// The sum of the component-wise products, added up from the first component on.
    pub open spec fn spec_dot(self, o: Self) -> Option<T> {
        opt_add(opt_add(opt_add(opt_mul(Some(self.x), Some(o.x)), opt_mul(Some(self.y), Some(o.y))), opt_mul(Some(self.z), Some(o.z))), opt_mul(Some(self.w), Some(o.w)))
    }

    /// Component-wise minimum: `self`'s component where it is less, else `o`'s.
    pub open spec fn spec_cw_min(self, o: Self) -> Self {
        Vector4 {
            x: if spec_lt(self.x, o.x) { self.x } else { o.x },
            y: if spec_lt(self.y, o.y) { self.y } else { o.y },
            z: if spec_lt(self.z, o.z) { self.z } else { o.z },
            w: if spec_lt(self.w, o.w) { self.w } else { o.w },
        }
    }

    /// Component-wise maximum: `self`'s component where `o`'s is less, else `o`'s.
    pub open spec fn spec_cw_max(self, o: Self) -> Self {
        Vector4 {
            x: if spec_lt(o.x, self.x) { self.x } else { o.x },
            y: if spec_lt(o.y, self.y) { self.y } else { o.y },
            z: if spec_lt(o.z, self.z) { self.z } else { o.z },
            w: if spec_lt(o.w, self.w) { self.w } else { o.w },
        }
    }

    /// The vector of the given components.
    pub fn new(x: T, y: T, z: T, w: T) -> (r: Self)
        ensures
            r == (Vector4 { x, y, z, w }),
    {
        Vector4 { x, y, z, w }
    }

    /// The number of components.
    pub fn dims() -> (r: usize)
        ensures
            r == 4,
    {
        4
    }

    /// Every component equal to the scalar's zero.
    pub fn zero() -> (r: Self)
        ensures
            units_exact::<T>() ==> r == Self::spec_splat(spec_zero::<T>()),
    {
        let s = T::zero();
        Vector4 { x: s, y: s, z: s, w: s }
    }

    /// Every component equal to the scalar's one.
    pub fn one() -> (r: Self)
        ensures
            units_exact::<T>() ==> r == Self::spec_splat(spec_one::<T>()),
    {
        let s = T::one();
        Vector4 { x: s, y: s, z: s, w: s }
    }

    /// The components as an array, in index order.
    pub fn as_array(&self) -> (r: [T; 4])
        ensures
            r@ == self@,
    {
        let r = [self.x, self.y, self.z, self.w];
        proof {
            assert(r@ =~= self@);
        }
        r
    }

    /// The component at `index`, or the error when `index` is not below the dimension.
    pub fn elem_checked(&self, index: usize) -> (r: Result<T, IndexOutOfRange>)
        ensures
            index < 4 ==> r == Ok::<T, IndexOutOfRange>(self@[index as int]),
            index >= 4 ==> r == Err::<T, IndexOutOfRange>(IndexOutOfRange { index, len: 4 }),
    {
        if index == 0 {
            Ok(self.x)
        } else if index == 1 {
            Ok(self.y)
        } else if index == 2 {
            Ok(self.z)
        } else if index == 3 {
            Ok(self.w)
        } else {
            Err(IndexOutOfRange { index, len: 4 })
        }
    }

    /// The component at `index`; the same as the named field at that position.
    pub fn elem(&self, index: usize) -> (r: T)
        requires
            index < 4,
        ensures
            r == self@[index as int],
    {
        self.elem_checked(index).unwrap()
    }

    /// Replaces the component at `index` with `value`.
    pub fn set_elem(&mut self, index: usize, value: T)
        requires
            index < 4,
        ensures
            final(self)@ == old(self)@.update(index as int, value),
    {
        if index == 0 {
            self.x = value;
        } else if index == 1 {
            self.y = value;
        } else if index == 2 {
            self.z = value;
        } else {
            self.w = value;
        }
        proof {
            assert(final(self)@ =~= old(self)@.update(index as int, value));
        }
    }

    /// A mutable reference to the component at `index`; what is written through it lands
    /// in that component.
    pub fn elem_mut(&mut self, index: usize) -> (r: &mut T)
        requires
            index < 4,
        ensures
            *r == old(self)@[index as int],
            *final(self) == old(self).spec_with_elem(index as int, *final(r)),
    {
        if index == 0 {
            &mut self.x
        } else if index == 1 {
            &mut self.y
        } else if index == 2 {
            &mut self.z
        } else {
            &mut self.w
        }
    }

    /// The dot product: the sum of the component-wise products.
    pub fn dot(self, rhs: Self) -> (r: T)
        requires
            self.spec_dot(rhs) is Some,
        ensures
            Some(r) == self.spec_dot(rhs),
    {
        self.x * rhs.x + self.y * rhs.y + self.z * rhs.z + self.w * rhs.w
    }

    /// Component-wise minimum.
    pub fn cw_min(self, rhs: Self) -> (r: Self)
        requires
            T::obeys_partial_cmp_spec(),
        ensures
            r == self.spec_cw_min(rhs),
    {
        Vector4 {
            x: if self.x.lt(&rhs.x) { self.x } else { rhs.x },
            y: if self.y.lt(&rhs.y) { self.y } else { rhs.y },
            z: if self.z.lt(&rhs.z) { self.z } else { rhs.z },
            w: if self.w.lt(&rhs.w) { self.w } else { rhs.w },
        }
    }

    /// Component-wise maximum.
    pub fn cw_max(self, rhs: Self) -> (r: Self)
        requires
            T::obeys_partial_cmp_spec(),
        ensures
            r == self.spec_cw_max(rhs),
    {
        Vector4 {
            x: if rhs.x.lt(&self.x) { self.x } else { rhs.x },
            y: if rhs.y.lt(&self.y) { self.y } else { rhs.y },
            z: if rhs.z.lt(&self.z) { self.z } else { rhs.z },
            w: if rhs.w.lt(&self.w) { self.w } else { rhs.w },
        }
    }

    /// Adds `rhs` component-wise, in place.
    pub fn add_assign(&mut self, rhs: Self)
        requires
            old(self).spec_add(rhs) is Some,
        ensures
            Some(*final(self)) == old(self).spec_add(rhs),
    {
        self.x = self.x + rhs.x;
        self.y = self.y + rhs.y;
        self.z = self.z + rhs.z;
        self.w = self.w + rhs.w;
    }

    /// Subtracts `rhs` component-wise, in place.
    pub fn sub_assign(&mut self, rhs: Self)
        requires
            old(self).spec_sub(rhs) is Some,
        ensures
            Some(*final(self)) == old(self).spec_sub(rhs),
    {
        self.x = self.x - rhs.x;
        self.y = self.y - rhs.y;
        self.z = self.z - rhs.z;
        self.w = self.w - rhs.w;
    }

    /// Multiplies by `rhs` component-wise, in place.
    pub fn mul_assign(&mut self, rhs: Self)
        requires
            old(self).spec_mul(rhs) is Some,
        ensures
            Some(*final(self)) == old(self).spec_mul(rhs),
    {
        self.x = self.x * rhs.x;
        self.y = self.y * rhs.y;
        self.z = self.z * rhs.z;
        self.w = self.w * rhs.w;
    }

    /// Divides by `rhs` component-wise, in place.
    pub fn div_assign(&mut self, rhs: Self)
        requires
            old(self).spec_div(rhs) is Some,
        ensures
            Some(*final(self)) == old(self).spec_div(rhs),
    {
        self.x = self.x / rhs.x;
        self.y = self.y / rhs.y;
        self.z = self.z / rhs.z;
        self.w = self.w / rhs.w;
    }

    /// Multiplies every component by `rhs`, in place.
    pub fn mul_assign_scalar(&mut self, rhs: T)
        requires
            old(self).spec_mul_scalar(rhs) is Some,
        ensures
            Some(*final(self)) == old(self).spec_mul_scalar(rhs),
    {
        self.x = self.x * rhs;
        self.y = self.y * rhs;
        self.z = self.z * rhs;
        self.w = self.w * rhs;
    }

    /// Divides every component by `rhs`, in place.
    pub fn div_assign_scalar(&mut self, rhs: T)
        requires
            old(self).spec_div_scalar(rhs) is Some,
        ensures
            Some(*final(self)) == old(self).spec_div_scalar(rhs),
    {
        self.x = self.x / rhs;
        self.y = self.y / rhs;
        self.z = self.z / rhs;
        self.w = self.w / rhs;
    }

    /// `s` multiplied by every component of `v`.
    pub fn scalar_mul(s: T, v: Self) -> (r: Self)
        requires
            Self::spec_scalar_mul(s, v) is Some,
        ensures
            Some(r) == Self::spec_scalar_mul(s, v),
    {
        Vector4 { x: s * v.x, y: s * v.y, z: s * v.z, w: s * v.w }
    }

    /// `s` divided by every component of `v`.
    pub fn scalar_div(s: T, v: Self) -> (r: Self)
        requires
            Self::spec_scalar_div(s, v) is Some,
        ensures
            Some(r) == Self::spec_scalar_div(s, v),
    {
        Vector4 { x: s / v.x, y: s / v.y, z: s / v.z, w: s / v.w }
    }

    /// The first three components divided by the fourth.
    pub open spec fn spec_wdiv(self) -> Option<Vector3<T>> {
        crate::vector::vec3_of(
            opt_div(Some(self.x), Some(self.w)),
            opt_div(Some(self.y), Some(self.w)),
            opt_div(Some(self.z), Some(self.w)),
        )
    }

    /// The first three components divided by the fourth (homogeneous to Cartesian).
    pub fn wdiv(&self) -> (r: Vector3<T>)
        requires
            self.spec_wdiv() is Some,
        ensures
            Some(r) == self.spec_wdiv(),
    {
        Vector3::new(self.x / self.w, self.y / self.w, self.z / self.w)
    }
}

impl<T: Base + Neg<Output = T>> Vector4<T> {
    /// Component-wise negation.
    pub open spec fn spec_neg(self) -> Option<Self> {
        vec4_of(opt_neg(Some(self.x)), opt_neg(Some(self.y)), opt_neg(Some(self.z)), opt_neg(Some(self.w)))
    }

    /// Component-wise absolute value: a component below zero is negated.
    pub open spec fn spec_cw_abs(self) -> Option<Self> {
        if units_exact::<T>() {
            vec4_of(if spec_lt(self.x, spec_zero::<T>()) { opt_neg(Some(self.x)) } else { Some(self.x) }, if spec_lt(self.y, spec_zero::<T>()) { opt_neg(Some(self.y)) } else { Some(self.y) }, if spec_lt(self.z, spec_zero::<T>()) { opt_neg(Some(self.z)) } else { Some(self.z) }, if spec_lt(self.w, spec_zero::<T>()) { opt_neg(Some(self.w)) } else { Some(self.w) })
        } else {
            None
        }
    }

    /// Component-wise absolute value.
    pub fn cw_abs(self) -> (r: Self)
        requires
            T::obeys_partial_cmp_spec(),
            self.spec_cw_abs() is Some,
        ensures
            Some(r) == self.spec_cw_abs(),
    {
        let zero = T::zero();
        Vector4 {
            x: if self.x.lt(&zero) { self.x.neg() } else { self.x },
            y: if self.y.lt(&zero) { self.y.neg() } else { self.y },
            z: if self.z.lt(&zero) { self.z.neg() } else { self.z },
            w: if self.w.lt(&zero) { self.w.neg() } else { self.w },
        }
    }
}

impl<T: Base> vstd::std_specs::ops::AddSpecImpl for Vector4<T> {
    open spec fn obeys_add_spec() -> bool {
        true
    }

    open spec fn add_req(self, rhs: Self) -> bool {
        self.spec_add(rhs) is Some
    }

    open spec fn add_spec(self, rhs: Self) -> Self {
        self.spec_add(rhs)->0
    }
}

impl<T: Base> Add for Vector4<T> {
    type Output = Self;

    fn add(self, rhs: Self) -> (r: Self)
        ensures
            Some(r) == self.spec_add(rhs),
    {
        Vector4 { x: self.x + rhs.x, y: self.y + rhs.y, z: self.z + rhs.z, w: self.w + rhs.w }
    }
}

impl<T: Base> vstd::std_specs::ops::SubSpecImpl for Vector4<T> {
    open spec fn obeys_sub_spec() -> bool {
        true
    }

    open spec fn sub_req(self, rhs: Self) -> bool {
        self.spec_sub(rhs) is Some
    }

    open spec fn sub_spec(self, rhs: Self) -> Self {
        self.spec_sub(rhs)->0
    }
}

impl<T: Base> Sub for Vector4<T> {
    type Output = Self;

    fn sub(self, rhs: Self) -> (r: Self)
        ensures
            Some(r) == self.spec_sub(rhs),
    {
        Vector4 { x: self.x - rhs.x, y: self.y - rhs.y, z: self.z - rhs.z, w: self.w - rhs.w }
    }
}

impl<T: Base> vstd::std_specs::ops::MulSpecImpl<Vector4<T>> for Vector4<T> {
    open spec fn obeys_mul_spec() -> bool {
        true
    }

    open spec fn mul_req(self, rhs: Vector4<T>) -> bool {
        self.spec_mul(rhs) is Some
    }

    open spec fn mul_spec(self, rhs: Vector4<T>) -> Self {
        self.spec_mul(rhs)->0
    }
}

impl<T: Base> Mul<Vector4<T>> for Vector4<T> {
    type Output = Self;

    fn mul(self, rhs: Vector4<T>) -> (r: Self)
        ensures
            Some(r) == self.spec_mul(rhs),
    {
        Vector4 { x: self.x * rhs.x, y: self.y * rhs.y, z: self.z * rhs.z, w: self.w * rhs.w }
    }
}

impl<T: Base> vstd::std_specs::ops::MulSpecImpl<T> for Vector4<T> {
    open spec fn obeys_mul_spec() -> bool {
        true
    }

    open spec fn mul_req(self, rhs: T) -> bool {
        self.spec_mul_scalar(rhs) is Some
    }

    open spec fn mul_spec(self, rhs: T) -> Self {
        self.spec_mul_scalar(rhs)->0
    }
}

impl<T: Base> Mul<T> for Vector4<T> {
    type Output = Self;

    fn mul(self, rhs: T) -> (r: Self)
        ensures
            Some(r) == self.spec_mul_scalar(rhs),
    {
        Vector4 { x: self.x * rhs, y: self.y * rhs, z: self.z * rhs, w: self.w * rhs }
    }
}

impl<T: Base> vstd::std_specs::ops::DivSpecImpl<Vector4<T>> for Vector4<T> {
    open spec fn obeys_div_spec() -> bool {
        true
    }

    open spec fn div_req(self, rhs: Vector4<T>) -> bool {
        self.spec_div(rhs) is Some
    }

    open spec fn div_spec(self, rhs: Vector4<T>) -> Self {
        self.spec_div(rhs)->0
    }
}

impl<T: Base> Div<Vector4<T>> for Vector4<T> {
    type Output = Self;

    fn div(self, rhs: Vector4<T>) -> (r: Self)
        ensures
            Some(r) == self.spec_div(rhs),
    {
        Vector4 { x: self.x / rhs.x, y: self.y / rhs.y, z: self.z / rhs.z, w: self.w / rhs.w }
    }
}

impl<T: Base> vstd::std_specs::ops::DivSpecImpl<T> for Vector4<T> {
    open spec fn obeys_div_spec() -> bool {
        true
    }

    open spec fn div_req(self, rhs: T) -> bool {
        self.spec_div_scalar(rhs) is Some
    }

    open spec fn div_spec(self, rhs: T) -> Self {
        self.spec_div_scalar(rhs)->0
    }
}

impl<T: Base> Div<T> for Vector4<T> {
    type Output = Self;

    fn div(self, rhs: T) -> (r: Self)
        ensures
            Some(r) == self.spec_div_scalar(rhs),
    {
        Vector4 { x: self.x / rhs, y: self.y / rhs, z: self.z / rhs, w: self.w / rhs }
    }
}

impl<T: Base> Default for Vector4<T> {
    /// The zero vector.
    fn default() -> (r: Self)
        ensures
            units_exact::<T>() ==> r == Self::spec_splat(spec_zero::<T>()),
    {
        Self::zero()
    }
}

impl<T: Base + Neg<Output = T>> vstd::std_specs::ops::NegSpecImpl for Vector4<T> {
    open spec fn obeys_neg_spec() -> bool {
        true
    }

    open spec fn neg_req(self) -> bool {
        self.spec_neg() is Some
    }

    open spec fn neg_spec(self) -> Self {
        self.spec_neg()->0
    }
}

impl<T: Base + Neg<Output = T>> Neg for Vector4<T> {
    type Output = Self;

    fn neg(self) -> (r: Self)
        ensures
            Some(r) == self.spec_neg(),
    {
        Vector4 { x: self.x.neg(), y: self.y.neg(), z: self.z.neg(), w: self.w.neg() }
    }
}

} // verus!
