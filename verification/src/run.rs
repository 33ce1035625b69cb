//! A whole run: the loop around [`State::step`].

use vstd::prelude::*;
use crate::binary64::Real;
use crate::config::Config;
use crate::laws::{run_never_raises_sum, zero_divergence_limit_one_iteration};
use crate::state::{begin, step_spec, State, Status};
use crate::trial::Trials;

verus! {

/// The state that `start` turns into when the run takes one iteration for
/// each of `events`, oldest first.
pub open spec fn replay<M, R, N>(
    config: Config<N>,
    target: Real,
    start: State<M, R, N>,
    events: Seq<Trials<M, R, N>>,
) -> State<M, R, N>
    decreases events.len(),
{
    if events.len() == 0 {
        start
    } else {
        step_spec(config, target, replay(config, target, start, events.drop_last()), events.last())
    }
}

/// `events` is what `trials` answered during a run from `start` to `end`:
/// the run was still going before each of them, each is an answer of `trials`
/// to the state the run was then in, and after the last one the run is over
/// in `end`.
pub open spec fn run_of<M, R, N, F: Fn(&State<M, R, N>) -> Trials<M, R, N>>(
    config: Config<N>,
    target: Real,
    trials: F,
    start: State<M, R, N>,
    events: Seq<Trials<M, R, N>>,
    end: State<M, R, N>,
) -> bool {
    &&& end == replay(config, target, start, events)
    &&& end.status != Status::Running
    &&& forall|i: int|
        0 <= i < events.len() ==> {
            let before = #[trigger] replay(config, target, start, events.take(i));
            before.status == Status::Running && trials.ensures((&before,), events[i])
        }
}

/// Runs from `start` until the run is over, asking `trials` once per
/// iteration for the two trial steps and the raised damping.
pub fn run<M, R, N, F: Fn(&State<M, R, N>) -> Trials<M, R, N>>(
    config: &Config<N>,
    target: &Real,
    start: State<M, R, N>,
    trials: F,
) -> (end: State<M, R, N>)
    requires
        start.wf(*config),
        forall|s: State<M, R, N>|
            s.wf(*config) && s.status == Status::Running ==> #[trigger] trials.requires((&s,)),
    ensures
        exists|events: Seq<Trials<M, R, N>>|
            events.len() == end.iterations - start.iterations && run_of(
                *config,
                *target,
                trials,
                start,
                events,
                end,
            ),
        end.wf(*config),
        end.status != Status::Running,
        start.status != Status::Running ==> end == start,
        end.sum_of_squares.no_worse_than(start.sum_of_squares),
        config.consecutive_divergence_limit == 0 ==> end.iterations <= start.iterations + 1,
{
    let mut state = start;
    let ghost mut events: Seq<Trials<M, R, N>> = Seq::empty();
    while state.status == Status::Running
        invariant
            state.wf(*config),
            state == replay(*config, *target, start, events),
            events.len() == state.iterations - start.iterations,
            start.status != Status::Running ==> events.len() == 0,
            forall|i: int|
                0 <= i < events.len() ==> {
                    let before = #[trigger] replay(*config, *target, start, events.take(i));
                    before.status == Status::Running && trials.ensures((&before,), events[i])
                },
            forall|s: State<M, R, N>|
                s.wf(*config) && s.status == Status::Running ==> #[trigger] trials.requires((&s,)),
        decreases config.max_iterations - state.iterations,
    {
        let answer = trials(&state);
        let ghost event = answer;
        state = state.step(config, target, answer);
        proof {
            let earlier = events;
            events = earlier.push(event);
            assert(events.drop_last() =~= earlier);
            assert(events.last() == event);
            assert forall|i: int| 0 <= i < events.len() implies {
                let b = #[trigger] replay(*config, *target, start, events.take(i));
                b.status == Status::Running && trials.ensures((&b,), events[i])
            } by {
                if i < earlier.len() {
                    assert(events.take(i) =~= earlier.take(i));
                } else {
                    assert(events.take(i) =~= earlier);
                }
            }
        }
    }
    proof {
        run_never_raises_sum(*config, *target, start, events);
        if config.consecutive_divergence_limit == 0 {
            zero_divergence_limit_one_iteration(*config, *target, start, events);
        }
    }
    state
}

/// Refines `init` until the sum of squares falls below `target`, too many
/// iterations in a row fail to improve, or `max_iterations` are taken, and
/// gives back the best guess found.
///
/// `residuals` and `sum_of_squares` are those of `init`; `target` is the
/// threshold of the configuration times the number of residual entries.
/// `trials` is asked once per iteration.
pub fn optimize<M, R, N: Copy, F: Fn(&State<M, R, N>) -> Trials<M, R, N>>(
    config: Config<N>,
    init: M,
    residuals: R,
    sum_of_squares: Real,
    target: Real,
    trials: F,
) -> (guess: M)
    requires
        forall|s: State<M, R, N>|
            s.wf(config) && s.status == Status::Running ==> #[trigger] trials.requires((&s,)),
    ensures
        exists|events: Seq<Trials<M, R, N>>|
            {
                let end = #[trigger] replay(
                    config,
                    target,
                    begin(config, init, residuals, sum_of_squares),
                    events,
                );
                &&& run_of(
                    config,
                    target,
                    trials,
                    begin(config, init, residuals, sum_of_squares),
                    events,
                    end,
                )
                &&& guess == end.guess
                &&& events.len() == end.iterations
                &&& events.len() <= config.max_iterations
                &&& config.consecutive_divergence_limit == 0 ==> events.len() <= 1
                &&& end.sum_of_squares.no_worse_than(sum_of_squares)
            },
        config.max_iterations == 0 ==> guess == init,
{
    let start = State::start(&config, init, residuals, sum_of_squares);
    let end = run(&config, &target, start, trials);
    end.guess
}

} // verus!
