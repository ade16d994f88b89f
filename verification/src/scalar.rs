//! Trusted wrappers around the scalar field's arithmetic.
//!
//! The scalar type `T` is a floating-point field supplied by the caller
//! through `num::Float`; its values are opaque to the verifier. Each wrapper
//! holds exactly one arithmetic operation of the outside trait.

use vstd::prelude::*;

verus! {

/// Relies on the scalar's `core::ops::Add` impl (a supertrait of `num::Float`).
#[verifier::external_body]
pub(crate) fn add_s<T: Copy + num::Float>(a: T, b: T) -> T {
    a + b
}

/// Relies on the scalar's `core::ops::Sub` impl (a supertrait of `num::Float`).
#[verifier::external_body]
pub(crate) fn sub_s<T: Copy + num::Float>(a: T, b: T) -> T {
    a - b
}

/// Relies on the scalar's `core::ops::Mul` impl (a supertrait of `num::Float`).
#[verifier::external_body]
pub(crate) fn mul_s<T: Copy + num::Float>(a: T, b: T) -> T {
    a * b
}

/// Relies on the scalar's `core::ops::Div` impl (a supertrait of `num::Float`).
#[verifier::external_body]
pub(crate) fn div_s<T: Copy + num::Float>(a: T, b: T) -> T {
    a / b
}

/// Relies on the scalar's `core::ops::Neg` impl (a supertrait of `num::Float`).
#[verifier::external_body]
pub(crate) fn neg_s<T: Copy + num::Float>(a: T) -> T {
    -a
}

/// Relies on the scalar's `core::cmp::PartialOrd` impl (a supertrait of
/// `num::Float`): the strict `<` comparison of two scalar values.
#[verifier::external_body]
pub(crate) fn lt_s<T: Copy + num::Float>(a: T, b: T) -> bool {
    a < b
}

/// Relies on the scalar's `core::cmp::PartialEq` impl (a supertrait of
/// `num::Float`): the `==` comparison of two scalar values.
#[verifier::external_body]
pub(crate) fn eq_s<T: Copy + num::Float>(a: T, b: T) -> bool {
    a == b
}

/// Relies on `num::Float::abs`.
#[verifier::external_body]
pub(crate) fn abs_s<T: Copy + num::Float>(a: T) -> T {
    num::Float::abs(a)
}

/// Relies on `num::Float::sqrt`.
#[verifier::external_body]
pub(crate) fn sqrt_s<T: Copy + num::Float>(a: T) -> T {
    num::Float::sqrt(a)
}

/// Relies on `num::Float::exp`.
#[verifier::external_body]
pub(crate) fn exp_s<T: Copy + num::Float>(a: T) -> T {
    num::Float::exp(a)
}

/// Relies on `num::Float::powf`.
#[verifier::external_body]
pub(crate) fn powf_s<T: Copy + num::Float>(a: T, b: T) -> T {
    num::Float::powf(a, b)
}

/// Relies on `num::Zero::zero` (a supertrait of `num::Float`).
#[verifier::external_body]
pub(crate) fn zero_s<T: Copy + num::Float>() -> T {
    num::Zero::zero()
}

/// Relies on `num::One::one` (a supertrait of `num::Float`).
#[verifier::external_body]
pub(crate) fn one_s<T: Copy + num::Float>() -> T {
    num::One::one()
}

/// Relies on `num::NumCast::from` (a supertrait of `num::Float`): converts a
/// dimension to a scalar, `None` where the scalar field cannot represent it.
#[verifier::external_body]
pub(crate) fn from_usize_s<T: Copy + num::Float>(n: usize) -> Option<T> {
    num::NumCast::from(n)
}

} // verus!
