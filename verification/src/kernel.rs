//! Kernel functions: pure pairwise similarity over two feature vectors.

use vstd::prelude::*;
use crate::scalar::{add_s, mul_s, sub_s, neg_s, powf_s, exp_s, one_s, zero_s};

verus! {

/// A closed, tagged choice of similarity function over the scalar type `T`.
///
/// Evaluating a kernel on two vectors expects equal lengths; the engine
/// enforces rectangular data upstream, and on mismatched lengths `compute`
/// reads only the common prefix of the two vectors.
#[derive(Clone, Debug)]
pub enum Kernel<T> {
    /// Linear kernel of the form x * x' (equivalent to standard PCA; the
    /// engine special-cases it away from kernel-matrix construction)
    Linear,
    /// Rational Quadratic kernel of the form (1 + gamma * (x - x')^2)^(-alpha)
    RationalQuadratic { gamma: T, alpha: T },
    /// Squared Exponential (or RBF) kernel of the form exp(-gamma * (x - x')^2)
    SquaredExponential { gamma: T },
}

impl<T: Copy + num::Float> Kernel<T> {
    /// Constructs a new Linear kernel.
    pub fn linear() -> (r: Kernel<T>)
        ensures
            r is Linear,
    {
        Kernel::Linear
    }

    /// Constructs a new Rational Quadratic kernel with scale `gamma` and
    /// exponent `alpha`.
    pub fn rational_quadratic(gamma: T, alpha: T) -> (r: Kernel<T>)
        ensures
            r == (Kernel::RationalQuadratic { gamma, alpha }),
    {
        Kernel::RationalQuadratic { gamma, alpha }
    }

    /// Constructs a new Squared Exponential kernel with scale `gamma`.
    pub fn squared_exponential(gamma: T) -> (r: Kernel<T>)
        ensures
            r == (Kernel::SquaredExponential { gamma }),
    {
        Kernel::SquaredExponential { gamma }
    }

    /// Computes the kernel function for the points `a` and `b`.
    pub fn compute(&self, a: &[T], b: &[T]) -> T {
        match self {
            Kernel::Linear => compute_linear(a, b),
            Kernel::RationalQuadratic { gamma, alpha } => compute_rational_quadratic(
                a,
                b,
                *gamma,
                *alpha,
            ),
            Kernel::SquaredExponential { gamma } => compute_squared_exponential(a, b, *gamma),
        }
    }
}

/// The dot product of the common prefix of `a` and `b`.
fn compute_linear<T: Copy + num::Float>(a: &[T], b: &[T]) -> T {
    let n: usize = if a.len() <= b.len() {
        a.len()
    } else {
        b.len()
    };
    let mut sum: T = zero_s();
    for i in 0..n
        invariant
            n <= a@.len() && n <= b@.len(),
    {
        sum = add_s(sum, mul_s(a[i], b[i]));
    }
    sum
}

/// The sum of squared differences of the common prefix of `a` and `b`.
fn sum_squared_diff<T: Copy + num::Float>(a: &[T], b: &[T]) -> T {
    let n: usize = if a.len() <= b.len() {
        a.len()
    } else {
        b.len()
    };
    let mut sum: T = zero_s();
    for i in 0..n
        invariant
            n <= a@.len() && n <= b@.len(),
    {
        let diff = sub_s(a[i], b[i]);
        sum = add_s(sum, mul_s(diff, diff));
    }
    sum
}

/// The rational quadratic form (1 + gamma * ssd)^(-alpha).
fn compute_rational_quadratic<T: Copy + num::Float>(a: &[T], b: &[T], gamma: T, alpha: T) -> T {
    let ssd = sum_squared_diff(a, b);
    let base = add_s(one_s(), mul_s(gamma, ssd));
    powf_s(base, neg_s(alpha))
}

/// The squared exponential form exp(-gamma * ssd).
fn compute_squared_exponential<T: Copy + num::Float>(a: &[T], b: &[T], gamma: T) -> T {
    let ssd = sum_squared_diff(a, b);
    exp_s(mul_s(neg_s(gamma), ssd))
}

} // verus!
