use vstd::prelude::*;

verus! {

use core::ops::{Add, Div, Mul, Neg, Sub};
use vstd::std_specs::cmp::{PartialEqSpec, PartialOrdSpec};
use vstd::std_specs::convert::FromSpec;
use vstd::std_specs::ops::{AddSpec, DivSpec, MulSpec, NegSpec, SubSpec};

/// A scalar that vectors and matrices are made of: copyable, ordered, closed under
/// `+ - * /`, with a zero and a one.
///
/// Every type with these operators and a lossless conversion from `i8` is one: the signed
/// integer types and the floating-point types. The zero and the one are `0i8` and `1i8`
/// converted; Verus knows their values where vstd specifies that conversion (`i16`, `i32`,
/// `i64`, `i128`, `isize`), which [`units_exact`] says.
pub trait Base: Copy + PartialOrd + Add<Output = Self> + Sub<Output = Self> + Mul<Output = Self> + Div<
    Output = Self,
> + From<i8> {
    /// The additive identity.
    fn zero() -> (r: Self)
        ensures
            units_exact::<Self>() ==> r == spec_zero::<Self>(),
    ;

    /// The multiplicative identity.
    fn one() -> (r: Self)
        ensures
            units_exact::<Self>() ==> r == spec_one::<Self>(),
    ;
}

impl<T> Base for T where
    T: Copy + PartialOrd + Add<Output = T> + Sub<Output = T> + Mul<Output = T> + Div<Output = T> + From<
        i8,
    >,
 {
    fn zero() -> (r: T) {
        T::from(0i8)
    }

    fn one() -> (r: T) {
        T::from(1i8)
    }
}

/// Whether Verus knows what the scalar's conversion from `i8` returns, and so knows its zero
/// and its one.
pub open spec fn units_exact<T: From<i8>>() -> bool {
    <T as FromSpec<i8>>::obeys_from_spec()
}

/// The scalar's zero: `0i8` converted.
pub open spec fn spec_zero<T: From<i8>>() -> T {
    <T as FromSpec<i8>>::from_spec(0i8)
}

/// The scalar's one: `1i8` converted.
pub open spec fn spec_one<T: From<i8>>() -> T {
    <T as FromSpec<i8>>::from_spec(1i8)
}

/// The zero, where Verus knows it.
pub open spec fn opt_zero<T: From<i8>>() -> Option<T> {
    if units_exact::<T>() {
        Some(spec_zero::<T>())
    } else {
        None
    }
}

/// The one, where Verus knows it.
pub open spec fn opt_one<T: From<i8>>() -> Option<T> {
    if units_exact::<T>() {
        Some(spec_one::<T>())
    } else {
        None
    }
}

// The scalar arithmetic as Verus knows it. Each operation yields `None` where Verus gives
// the scalar's operator no defined result: an integer overflow, a division by zero, or a
// scalar type whose operators Verus has no model of. A formula built from these is `Some`
// exactly when every step of it is defined, and then holds the value that the operators
// compute, step by step, in the order written.

/// `a + b`.
pub open spec fn opt_add<T: Base>(a: Option<T>, b: Option<T>) -> Option<T> {
    if a is Some && b is Some && T::obeys_add_spec() && a->0.add_req(b->0) {
        Some(a->0.add_spec(b->0))
    } else {
        None
    }
}

/// `a - b`.
pub open spec fn opt_sub<T: Base>(a: Option<T>, b: Option<T>) -> Option<T> {
    if a is Some && b is Some && T::obeys_sub_spec() && a->0.sub_req(b->0) {
        Some(a->0.sub_spec(b->0))
    } else {
        None
    }
}

/// `a * b`.
pub open spec fn opt_mul<T: Base>(a: Option<T>, b: Option<T>) -> Option<T> {
    if a is Some && b is Some && T::obeys_mul_spec() && a->0.mul_req(b->0) {
        Some(a->0.mul_spec(b->0))
    } else {
        None
    }
}

/// `a / b`.
pub open spec fn opt_div<T: Base>(a: Option<T>, b: Option<T>) -> Option<T> {
    if a is Some && b is Some && T::obeys_div_spec() && a->0.div_req(b->0) {
        Some(a->0.div_spec(b->0))
    } else {
        None
    }
}

/// `-a`.
pub open spec fn opt_neg<T: Base + Neg<Output = T>>(a: Option<T>) -> Option<T> {
    if a is Some && T::obeys_neg_spec() && a->0.neg_req() {
        Some(a->0.neg_spec())
    } else {
        None
    }
}

/// `a < b`, as the scalar's `PartialOrd` decides it.
pub open spec fn spec_lt<T: Base>(a: T, b: T) -> bool {
    a.partial_cmp_spec(&b) == Some(core::cmp::Ordering::Less)
}

/// `a == b`, as the scalar's `PartialEq` decides it.
pub open spec fn spec_eq<T: Base>(a: T, b: T) -> bool {
    a.eq_spec(&b)
}

/// Within `e`'s arithmetic, zero and one act as identities: `e + 0 == 0 + e == e`,
/// `e * 1 == 1 * e == e` and `e * 0 == 0 * e == 0`, each of them defined.
///
/// Of a float it would fail for infinities and NaN; of `i64` it holds for every value
/// (`lemma_units_act_on_i64`).
pub open spec fn units_act_on<T: Base>(e: T) -> bool {
    let z = opt_zero::<T>();
    let o = opt_one::<T>();
    &&& opt_add(Some(e), z) == Some(e)
    &&& opt_add(z, Some(e)) == Some(e)
    &&& opt_mul(Some(e), o) == Some(e)
    &&& opt_mul(o, Some(e)) == Some(e)
    &&& opt_mul(Some(e), z) == z
    &&& opt_mul(z, Some(e)) == z
}

} // verus!
