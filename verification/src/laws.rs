//! What holds of every run, whatever the host answers.

use vstd::prelude::*;
use crate::binary64::{no_worse_is_transitive, Real};
use crate::config::Config;
use crate::run::replay;
use crate::state::{begin, step_spec, State, Status};
use crate::trial::{offered, screened, selected, Candidate, Trials};

verus! {

/// One iteration never raises the sum of squares: it keeps the sum it had or
/// takes over a finite one that is not greater.
pub proof fn step_never_raises_sum<M, R, N>(
    config: Config<N>,
    target: Real,
    state: State<M, R, N>,
    trials: Trials<M, R, N>,
)
    ensures
        step_spec(config, target, state, trials).sum_of_squares.no_worse_than(state.sum_of_squares),
{
}

/// Over a whole run the sum of squares never rises: after `j` iterations it
/// is no worse than it was after any `i <= j` of them.
pub proof fn sum_of_squares_never_rises<M, R, N>(
    config: Config<N>,
    target: Real,
    start: State<M, R, N>,
    events: Seq<Trials<M, R, N>>,
    i: int,
    j: int,
)
    requires
        0 <= i <= j <= events.len(),
    ensures
        replay(config, target, start, events.take(j)).sum_of_squares.no_worse_than(
            replay(config, target, start, events.take(i)).sum_of_squares,
        ),
    decreases j - i,
{
    if i < j {
        sum_of_squares_never_rises(config, target, start, events, i, j - 1);
        let shorter = events.take(j - 1);
        assert(events.take(j).drop_last() =~= shorter);
        let before = replay(config, target, start, shorter);
        step_never_raises_sum(config, target, before, events.take(j).last());
        no_worse_is_transitive(
            replay(config, target, start, events.take(j)).sum_of_squares,
            before.sum_of_squares,
            replay(config, target, start, events.take(i)).sum_of_squares,
        );
    }
}

/// A run ends with a sum of squares that is not greater than the one it
/// started with.
pub proof fn run_never_raises_sum<M, R, N>(
    config: Config<N>,
    target: Real,
    start: State<M, R, N>,
    events: Seq<Trials<M, R, N>>,
)
    ensures
        replay(config, target, start, events).sum_of_squares.no_worse_than(start.sum_of_squares),
        !start.sum_of_squares.less(replay(config, target, start, events).sum_of_squares),
{
    sum_of_squares_never_rises(config, target, start, events, 0, events.len() as int);
    assert(events.take(events.len() as int) =~= events);
    assert(events.take(0).len() == 0);
}

/// A run that starts where the residuals are zero ends where the sum of
/// squares is not above zero.
pub proof fn zero_residuals_stay_zero<M, R, N>(
    config: Config<N>,
    target: Real,
    start: State<M, R, N>,
    events: Seq<Trials<M, R, N>>,
)
    requires
        !start.sum_of_squares.nan(),
        start.sum_of_squares.rank() == 0,
    ensures
        !replay(config, target, start, events).sum_of_squares.nan(),
        replay(config, target, start, events).sum_of_squares.rank() <= 0,
{
    run_never_raises_sum(config, target, start, events);
}

/// With `max_iterations` zero a run is over before it starts: whatever the
/// host would answer, the state stays the initial one.
pub proof fn no_iterations_no_change<M, R, N>(
    config: Config<N>,
    target: Real,
    guess: M,
    residuals: R,
    sum_of_squares: Real,
    events: Seq<Trials<M, R, N>>,
)
    requires
        config.max_iterations == 0,
    ensures
        replay(config, target, begin(config, guess, residuals, sum_of_squares), events) == begin(
            config,
            guess,
            residuals,
            sum_of_squares,
        ),
    decreases events.len(),
{
    if events.len() > 0 {
        no_iterations_no_change(config, target, guess, residuals, sum_of_squares, events.drop_last());
    }
}

/// With `consecutive_divergence_limit` zero a run takes one iteration at
/// most: the count of divergences is at the limit after the first iteration,
/// accepted or not.
pub proof fn zero_divergence_limit_one_iteration<M, R, N>(
    config: Config<N>,
    target: Real,
    start: State<M, R, N>,
    events: Seq<Trials<M, R, N>>,
)
    requires
        config.consecutive_divergence_limit == 0,
        start.wf(config),
    ensures
        replay(config, target, start, events).iterations <= start.iterations + 1,
        events.len() >= 1 ==> replay(config, target, start, events).status != Status::Running,
    decreases events.len(),
{
    if events.len() > 0 {
        zero_divergence_limit_one_iteration(config, target, start, events.drop_last());
    }
}

/// A run is over after `max_iterations` iterations at the latest, whatever
/// the reals of its configuration are and whatever the host answers. Its
/// counters stay within the limits of the configuration, and while it goes
/// on it has taken one iteration for each answer.
pub proof fn run_ends<M, R, N>(
    config: Config<N>,
    target: Real,
    start: State<M, R, N>,
    events: Seq<Trials<M, R, N>>,
)
    requires
        start.wf(config),
    ensures
        replay(config, target, start, events).wf(config),
        replay(config, target, start, events).iterations <= start.iterations + events.len(),
        replay(config, target, start, events).status == Status::Running ==> replay(
            config,
            target,
            start,
            events,
        ).iterations == start.iterations + events.len(),
        start.iterations + events.len() >= config.max_iterations ==> replay(
            config,
            target,
            start,
            events,
        ).status != Status::Running,
    decreases events.len(),
{
    if events.len() > 0 {
        run_ends(config, target, start, events.drop_last());
    }
}

/// Running again from the guess that a run ended with, with the same
/// configuration and with the residuals and the sum of squares that the run
/// ended with, does not raise the sum of squares: not above that of the
/// first run's end, and not above that of the first run's start.
pub proof fn rerun_never_raises_sum<M, R, N>(
    config: Config<N>,
    target: Real,
    guess: M,
    residuals: R,
    sum_of_squares: Real,
    first: Seq<Trials<M, R, N>>,
    second: Seq<Trials<M, R, N>>,
)
    ensures
        ({
            let once = replay(config, target, begin(config, guess, residuals, sum_of_squares), first);
            let twice = replay(
                config,
                target,
                begin(config, once.guess, once.residuals, once.sum_of_squares),
                second,
            );
            &&& twice.sum_of_squares.no_worse_than(once.sum_of_squares)
            &&& twice.sum_of_squares.no_worse_than(sum_of_squares)
            &&& !once.sum_of_squares.less(twice.sum_of_squares)
            &&& !sum_of_squares.less(twice.sum_of_squares)
        }),
{
    let start = begin(config, guess, residuals, sum_of_squares);
    let once = replay(config, target, start, first);
    let again = begin(config, once.guess, once.residuals, once.sum_of_squares);
    let twice = replay(config, target, again, second);
    run_never_raises_sum(config, target, start, first);
    run_never_raises_sum(config, target, again, second);
    no_worse_is_transitive(twice.sum_of_squares, once.sum_of_squares, sum_of_squares);
}

/// A run ends with what it started with, or with what one of its trials
/// offered: guess, residuals and sum of squares are then those of one
/// candidate, whose sum of squares is finite.
pub proof fn result_is_initial_or_offered<M, R, N>(
    config: Config<N>,
    target: Real,
    start: State<M, R, N>,
    events: Seq<Trials<M, R, N>>,
)
    ensures
        ({
            let end = replay(config, target, start, events);
            ||| (end.guess == start.guess && end.residuals == start.residuals
                && end.sum_of_squares == start.sum_of_squares)
            ||| exists|i: int, c: Candidate<M, R, N>|
                0 <= i < events.len() && #[trigger] offered(events[i], c)
                    && c.sum_of_squares.finite() && end.guess == c.guess && end.residuals
                    == c.residuals && end.sum_of_squares == c.sum_of_squares
        }),
    decreases events.len(),
{
    if events.len() > 0 {
        let earlier = events.drop_last();
        let before = replay(config, target, start, earlier);
        let end = replay(config, target, start, events);
        result_is_initial_or_offered(config, target, start, earlier);
        if end.guess == before.guess && end.residuals == before.residuals && end.sum_of_squares
            == before.sum_of_squares {
            if !(before.guess == start.guess && before.residuals == start.residuals
                && before.sum_of_squares == start.sum_of_squares) {
                let (i, c) = choose|i: int, c: Candidate<M, R, N>|
                    0 <= i < earlier.len() && #[trigger] offered(earlier[i], c)
                        && c.sum_of_squares.finite() && before.guess == c.guess
                        && before.residuals == c.residuals && before.sum_of_squares
                        == c.sum_of_squares;
                assert(offered(events[i], c));
            }
        } else {
            let last = events.last();
            let c = selected(screened(last.smaller), screened(last.current))->0;
            assert(offered(events[events.len() - 1], c));
        }
    }
}

/// Why a run from the initial state is over: converged means the sum of
/// squares is below the target, diverged means the count of divergences is
/// at the limit, and exhausted means `max_iterations` iterations were taken.
pub proof fn status_tells_why<M, R, N>(
    config: Config<N>,
    target: Real,
    guess: M,
    residuals: R,
    sum_of_squares: Real,
    events: Seq<Trials<M, R, N>>,
)
    ensures
        ({
            let end = replay(config, target, begin(config, guess, residuals, sum_of_squares), events);
            &&& end.status == Status::Converged ==> end.sum_of_squares.less(target)
            &&& end.status == Status::Diverged ==> end.consecutive_divergences
                >= config.consecutive_divergence_limit
            &&& end.status == Status::Exhausted ==> end.iterations == config.max_iterations
        }),
    decreases events.len(),
{
    let start = begin(config, guess, residuals, sum_of_squares);
    run_ends(config, target, start, events);
    if events.len() > 0 {
        status_tells_why(config, target, guess, residuals, sum_of_squares, events.drop_last());
        run_ends(config, target, start, events.drop_last());
    }
}

} // verus!
