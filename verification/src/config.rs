//! The tuning parameters of a run.

use vstd::prelude::*;
use crate::binary64::Real;

verus! {

/// How many iterations a run may take unless told otherwise.
pub const DEFAULT_MAX_ITERATIONS: usize = 1000;

/// How many steps in a row may fail to improve unless told otherwise.
pub const DEFAULT_CONSECUTIVE_DIVERGENCE_LIMIT: usize = 5;

/// The encoding of 50, the damping a run starts with unless told otherwise.
pub const DEFAULT_INITIAL_LAMBDA_BITS: u64 = 0x4049_0000_0000_0000;

/// The encoding of the single-precision number nearest to 0.8, the factor
/// that shrinks the damping unless told otherwise.
pub const DEFAULT_LAMBDA_CONVERGE_BITS: u64 = 0x3fe9_9999_a000_0000;

/// The encoding of 2, the factor that grows the damping unless told otherwise.
pub const DEFAULT_LAMBDA_DIVERGE_BITS: u64 = 0x4000_0000_0000_0000;

/// The encoding of 0, the threshold that never ends a run early.
pub const DEFAULT_THRESHOLD_BITS: u64 = 0;

/// Tuning parameters of a run, over reals of type `N`.
///
/// Nothing is checked when a value is built. A `lambda_converge` of one or
/// more, a `lambda_diverge` of one or less or an `initial_lambda` of zero make
/// a run converge badly; they never make it fail or run on for ever.
#[derive(Clone, Copy, Debug, PartialEq, Eq)]
pub struct Config<N> {
    /// The most iterations a run takes.
    pub max_iterations: usize,
    /// How many iterations in a row may fail to improve before the run ends.
    pub consecutive_divergence_limit: usize,
    /// The damping of the first iteration. Meant to be above zero.
    pub initial_lambda: N,
    /// The factor by which each iteration tries a smaller damping. Meant to be
    /// below one.
    pub lambda_converge: N,
    /// The factor by which the damping grows after an iteration that did not
    /// improve. Meant to be above one, and above `1 / lambda_converge`.
    pub lambda_diverge: N,
    /// The mean squared residual below which a run ends early. Zero never
    /// ends a run early.
    pub threshold: N,
}

impl<N> Config<N> {
    /// A configuration with the given reals and the default limits.
    pub fn new(initial_lambda: N, lambda_converge: N, lambda_diverge: N, threshold: N) -> (c: Self)
        ensures
            c == (Config {
                max_iterations: DEFAULT_MAX_ITERATIONS,
                consecutive_divergence_limit: DEFAULT_CONSECUTIVE_DIVERGENCE_LIMIT,
                initial_lambda,
                lambda_converge,
                lambda_diverge,
                threshold,
            }),
    {
        Config {
            max_iterations: DEFAULT_MAX_ITERATIONS,
            consecutive_divergence_limit: DEFAULT_CONSECUTIVE_DIVERGENCE_LIMIT,
            initial_lambda,
            lambda_converge,
            lambda_diverge,
            threshold,
        }
    }
}

impl Default for Config<Real> {
    /// The default configuration, its reals given by their encodings.
    fn default() -> (c: Self)
        ensures
            c.max_iterations == 1000,
            c.consecutive_divergence_limit == 5,
            c.initial_lambda.bits == DEFAULT_INITIAL_LAMBDA_BITS,
            c.lambda_converge.bits == DEFAULT_LAMBDA_CONVERGE_BITS,
            c.lambda_diverge.bits == DEFAULT_LAMBDA_DIVERGE_BITS,
            c.threshold.bits == DEFAULT_THRESHOLD_BITS,
    {
        Config::new(
            Real::from_bits(DEFAULT_INITIAL_LAMBDA_BITS),
            Real::from_bits(DEFAULT_LAMBDA_CONVERGE_BITS),
            Real::from_bits(DEFAULT_LAMBDA_DIVERGE_BITS),
            Real::from_bits(DEFAULT_THRESHOLD_BITS),
        )
    }
}

} // verus!
