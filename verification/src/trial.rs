//! The trial steps of one iteration, and the choice between them.

use vstd::prelude::*;
use crate::binary64::Real;

verus! {

/// What a trial step with one damping value led to.
#[derive(Clone, Debug)]
pub struct Candidate<M, R, N> {
    /// The damping value the step was solved with.
    pub lambda: N,
    /// The guess after the step.
    pub guess: M,
    /// The residuals of that guess.
    pub residuals: R,
    /// The squared norm of those residuals.
    pub sum_of_squares: Real,
}

/// What the host worked out for one iteration.
#[derive(Clone, Debug)]
pub struct Trials<M, R, N> {
    /// The trial with the current damping times `lambda_converge`; `None`
    /// where the damped system could not be solved.
    pub smaller: Option<Candidate<M, R, N>>,
    /// The trial with the current damping; `None` where the damped system
    /// could not be solved.
    pub current: Option<Candidate<M, R, N>>,
    /// The current damping times `lambda_diverge`, to go on with if neither
    /// trial is accepted.
    pub raised: N,
}

/// `candidate` is one of the two trials of `trials`.
pub open spec fn offered<M, R, N>(trials: Trials<M, R, N>, candidate: Candidate<M, R, N>) -> bool {
    trials.smaller == Some(candidate) || trials.current == Some(candidate)
}

/// A trial counts only if its sum of squares is finite.
pub open spec fn screened<M, R, N>(trial: Option<Candidate<M, R, N>>) -> Option<Candidate<M, R, N>> {
    match trial {
        Some(c) => if c.sum_of_squares.finite() {
            Some(c)
        } else {
            None
        },
        None => None,
    }
}

/// Of two trials the one with the strictly lower sum of squares, and on a tie
/// the one with the current damping; of one trial, that one.
pub open spec fn selected<M, R, N>(
    smaller: Option<Candidate<M, R, N>>,
    current: Option<Candidate<M, R, N>>,
) -> Option<Candidate<M, R, N>> {
    match (smaller, current) {
        (Some(s), Some(o)) => if s.sum_of_squares.less(o.sum_of_squares) {
            Some(s)
        } else {
            Some(o)
        },
        (Some(s), None) => Some(s),
        (None, Some(o)) => Some(o),
        (None, None) => None,
    }
}

/// Drops a trial whose sum of squares is an infinity or a NaN.
pub fn screen<M, R, N>(trial: Option<Candidate<M, R, N>>) -> (kept: Option<Candidate<M, R, N>>)
    ensures
        kept == screened(trial),
{
    match trial {
        Some(c) => {
            if c.sum_of_squares.is_finite() {
                Some(c)
            } else {
                None
            }
        },
        None => None,
    }
}

/// Picks the candidate of an iteration from its two trials.
pub fn select<M, R, N>(
    smaller: Option<Candidate<M, R, N>>,
    current: Option<Candidate<M, R, N>>,
) -> (choice: Option<Candidate<M, R, N>>)
    ensures
        choice == selected(smaller, current),
{
    match (smaller, current) {
        (Some(s), Some(o)) => {
            if s.sum_of_squares.lt(&o.sum_of_squares) {
                Some(s)
            } else {
                Some(o)
            }
        },
        (Some(s), None) => Some(s),
        (None, Some(o)) => Some(o),
        (None, None) => None,
    }
}

} // verus!
