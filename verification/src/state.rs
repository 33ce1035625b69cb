//! The state of a run and the step from one iteration to the next.

use vstd::prelude::*;
use crate::binary64::Real;
use crate::config::Config;
use crate::trial::{screen, screened, select, selected, Candidate, Trials};

verus! {

/// Where a run stands.
#[derive(Clone, Copy, Debug, PartialEq, Eq, Structural)]
pub enum Status {
    /// Another iteration is due.
    Running,
    /// The sum of squares fell below the target.
    Converged,
    /// The count of iterations in a row that failed to improve has reached
    /// the limit.
    Diverged,
    /// The run took `max_iterations` iterations.
    Exhausted,
}

/// The state of a run between two iterations.
#[derive(Clone, Debug)]
pub struct State<M, R, N> {
    /// The damping value that the next iteration starts from.
    pub lambda: N,
    /// The best guess so far.
    pub guess: M,
    /// The residuals of that guess.
    pub residuals: R,
    /// The squared norm of those residuals.
    pub sum_of_squares: Real,
    /// How many iterations in a row have not improved on the guess.
    pub consecutive_divergences: usize,
    /// How many iterations the run has taken.
    pub iterations: usize,
    /// Whether the run goes on, and if not, why it ended.
    pub status: Status,
}

impl<M, R, N> State<M, R, N> {
    /// The counters of a state are within the limits of its configuration, and
    /// a run that goes on has an iteration left.
    pub open spec fn wf(self, config: Config<N>) -> bool {
        &&& self.consecutive_divergences <= self.iterations
        &&& self.iterations <= config.max_iterations
        &&& self.status == Status::Running ==> self.iterations < config.max_iterations
    }
}

/// The state a run starts in: the initial guess, the initial damping, and
/// nothing counted yet. With no iteration allowed the run is over at once.
pub open spec fn begin<M, R, N>(config: Config<N>, guess: M, residuals: R, sum_of_squares: Real) -> State<
    M,
    R,
    N,
> {
    State {
        lambda: config.initial_lambda,
        guess,
        residuals,
        sum_of_squares,
        consecutive_divergences: 0,
        iterations: 0,
        status: if config.max_iterations == 0 {
            Status::Exhausted
        } else {
            Status::Running
        },
    }
}

/// A candidate is accepted unless its sum of squares is greater than the
/// current one. Without a candidate nothing is accepted.
pub open spec fn accepts<M, R, N>(state: State<M, R, N>, choice: Option<Candidate<M, R, N>>) -> bool {
    match choice {
        Some(c) => !state.sum_of_squares.less(c.sum_of_squares),
        None => false,
    }
}

/// Where a run stands after an iteration. The divergence limit is looked at
/// first, then the target, then the number of iterations.
pub open spec fn settled<N>(
    config: Config<N>,
    target: Real,
    consecutive_divergences: usize,
    sum_of_squares: Real,
    iterations: usize,
) -> Status {
    if consecutive_divergences >= config.consecutive_divergence_limit {
        Status::Diverged
    } else if sum_of_squares.less(target) {
        Status::Converged
    } else if iterations >= config.max_iterations {
        Status::Exhausted
    } else {
        Status::Running
    }
}

/// The state after one more iteration, given what the host worked out for it.
///
/// An accepted candidate replaces damping, guess, residuals and sum of
/// squares, and the count of divergences starts again. Otherwise only the
/// damping changes, to the raised one, and one more divergence is counted.
/// A run that is over stays as it is.
pub open spec fn step_spec<M, R, N>(
    config: Config<N>,
    target: Real,
    state: State<M, R, N>,
    trials: Trials<M, R, N>,
) -> State<M, R, N> {
    let choice = selected(screened(trials.smaller), screened(trials.current));
    let iterations = (state.iterations + 1) as usize;
    if state.status != Status::Running {
        state
    } else if accepts(state, choice) {
        let c = choice->0;
        State {
            lambda: c.lambda,
            guess: c.guess,
            residuals: c.residuals,
            sum_of_squares: c.sum_of_squares,
            consecutive_divergences: 0,
            iterations,
            status: settled(config, target, 0, c.sum_of_squares, iterations),
        }
    } else {
        let consecutive_divergences = (state.consecutive_divergences + 1) as usize;
        State {
            lambda: trials.raised,
            guess: state.guess,
            residuals: state.residuals,
            sum_of_squares: state.sum_of_squares,
            consecutive_divergences,
            iterations,
            status: settled(
                config,
                target,
                consecutive_divergences,
                state.sum_of_squares,
                iterations,
            ),
        }
    }
}

/// Decides where a run stands after an iteration.
pub fn settle<N>(
    config: &Config<N>,
    target: &Real,
    consecutive_divergences: usize,
    sum_of_squares: &Real,
    iterations: usize,
) -> (status: Status)
    ensures
        status == settled(*config, *target, consecutive_divergences, *sum_of_squares, iterations),
{
    if consecutive_divergences >= config.consecutive_divergence_limit {
        Status::Diverged
    } else if sum_of_squares.lt(target) {
        Status::Converged
    } else if iterations >= config.max_iterations {
        Status::Exhausted
    } else {
        Status::Running
    }
}

impl<M, R, N> State<M, R, N> {
    /// The state a run starts in.
    pub fn start(config: &Config<N>, guess: M, residuals: R, sum_of_squares: Real) -> (state: Self) where
        N: Copy,

        ensures
            state == begin(*config, guess, residuals, sum_of_squares),
            state.wf(*config),
    {
        State {
            lambda: config.initial_lambda,
            guess,
            residuals,
            sum_of_squares,
            consecutive_divergences: 0,
            iterations: 0,
            status: if config.max_iterations == 0 {
                Status::Exhausted
            } else {
                Status::Running
            },
        }
    }

    /// Takes one iteration: screens the two trials, picks the candidate,
    /// accepts or rejects it, and decides whether the run goes on.
    pub fn step(self, config: &Config<N>, target: &Real, trials: Trials<M, R, N>) -> (next: Self)
        requires
            self.wf(*config),
        ensures
            next == step_spec(*config, *target, self, trials),
            next.wf(*config),
    {
        if self.status != Status::Running {
            return self;
        }
        let iterations: usize = self.iterations + 1;
        let choice = select(screen(trials.smaller), screen(trials.current));
        match choice {
            Some(c) if !c.sum_of_squares.gt(&self.sum_of_squares) => {
                let status = settle(config, target, 0, &c.sum_of_squares, iterations);
                State {
                    lambda: c.lambda,
                    guess: c.guess,
                    residuals: c.residuals,
                    sum_of_squares: c.sum_of_squares,
                    consecutive_divergences: 0,
                    iterations,
                    status,
                }
            },
            _ => {
                let consecutive_divergences: usize = self.consecutive_divergences + 1;
                let status = settle(
                    config,
                    target,
                    consecutive_divergences,
                    &self.sum_of_squares,
                    iterations,
                );
                State {
                    lambda: trials.raised,
                    guess: self.guess,
                    residuals: self.residuals,
                    sum_of_squares: self.sum_of_squares,
                    consecutive_divergences,
                    iterations,
                    status,
                }
            },
        }
    }
}

} // verus!
