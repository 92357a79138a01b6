//! The integrator: from an initial state, a time step and a horizon to the
//! whole sequence of samples.

use vstd::prelude::*;
use crate::dynamics::advance;
use crate::state::{State, StateModel};

verus! {

/// Why no trajectory was produced.
#[derive(Clone, Copy, Debug, PartialEq, Eq, Structural)]
pub enum SimulationError {
    /// The time step is not positive, or the horizon is negative.
    InvalidParameter,
    /// A quantity of some sample is too large to be held.
    OutOfRange,
}

/// Whether a time step and a horizon can be integrated over.
pub open spec fn valid_parameters(dt: int, t_max: int) -> bool {
    dt > 0 && t_max >= 0
}

/// The number of samples that cover the horizon `t_max` in steps of `dt`:
/// the quotient `t_max / dt`, rounded up.
pub open spec fn sample_count_of(dt: int, t_max: int) -> int {
    if t_max % dt == 0 {
        t_max / dt
    } else {
        t_max / dt + 1
    }
}

/// The sample at index `i` of the trajectory that starts in `initial`: the
/// initial state itself at index zero, and from then on the sample before it
/// advanced by one step.
pub open spec fn sample(initial: StateModel, dt: int, i: nat) -> StateModel
    decreases i,
{
    if i == 0 {
        initial
    } else {
        advance(sample(initial, dt, (i - 1) as nat), dt)
    }
}

/// Whether each of the first `n` samples can be held.
pub open spec fn trajectory_fits(initial: StateModel, dt: int, n: int) -> bool {
    forall|i: nat| i < n ==> (#[trigger] sample(initial, dt, i)).representable()
}

/// Whether `states` holds exactly the first `n` samples of the trajectory
/// that starts in `initial`.
pub open spec fn is_trajectory(states: Seq<State>, initial: StateModel, dt: int, n: int) -> bool {
    &&& states.len() == n
    &&& forall|i: int| 0 <= i < n ==> (#[trigger] states[i])@ == sample(initial, dt, i as nat)
}

/// Samples that are held in states can be held.
pub proof fn lemma_held_trajectory_fits(states: Seq<State>, initial: StateModel, dt: int, n: int)
    requires
        is_trajectory(states, initial, dt, n),
    ensures
        trajectory_fits(initial, dt, n),
{
    assert forall|i: nat| i < n implies (#[trigger] sample(initial, dt, i)).representable() by {
        assert(states[i as int]@ == sample(initial, dt, i));
    }
}

/// Computes the number of samples for a time step and a horizon, or reports
/// that the two cannot be integrated over.
pub fn sample_count(dt: i64, t_max: i64) -> (r: Result<u64, SimulationError>)
    ensures
        match r {
            Ok(n) => valid_parameters(dt as int, t_max as int) && n == sample_count_of(
                dt as int,
                t_max as int,
            ),
            Err(e) => e == SimulationError::InvalidParameter && !valid_parameters(
                dt as int,
                t_max as int,
            ),
        },
{
    if dt <= 0 || t_max < 0 {
        return Err(SimulationError::InvalidParameter);
    }
    let step: u64 = dt as u64;
    let horizon: u64 = t_max as u64;
    let whole: u64 = horizon / step;
    if horizon % step == 0 {
        Ok(whole)
    } else {
        Ok(whole + 1)
    }
}

/// Integrates the flight that starts in `initial_state` in steps of `dt` up
/// to the horizon `t_max`, both in millionths of the unit of time.
///
/// On a time step that is not positive or a negative horizon the result is
/// `InvalidParameter`. Otherwise the trajectory has `t_max / dt` samples,
/// rounded up, of which the first is `initial_state` as it was given and
/// each later one is the one before it advanced by a step. It is returned
/// whole if every sample can be held, and the result is `OutOfRange` if one
/// of them cannot.
pub fn projectile_physics(initial_state: State, dt: i64, t_max: i64) -> (r: Result<
    Vec<State>,
    SimulationError,
>)
    ensures
        match r {
            Ok(states) => {
                &&& valid_parameters(dt as int, t_max as int)
                &&& trajectory_fits(
                    initial_state@,
                    dt as int,
                    sample_count_of(dt as int, t_max as int),
                )
                &&& is_trajectory(
                    states@,
                    initial_state@,
                    dt as int,
                    sample_count_of(dt as int, t_max as int),
                )
                &&& states@.len() > 0 ==> states@[0] == initial_state
            },
            Err(SimulationError::InvalidParameter) => !valid_parameters(dt as int, t_max as int),
            Err(SimulationError::OutOfRange) => {
                &&& valid_parameters(dt as int, t_max as int)
                &&& !trajectory_fits(
                    initial_state@,
                    dt as int,
                    sample_count_of(dt as int, t_max as int),
                )
            },
        },
{
    let count: u64 = match sample_count(dt, t_max) {
        Ok(n) => n,
        Err(e) => {
            return Err(e);
        },
    };
    let mut states: Vec<State> = Vec::new();
    if count == 0 {
        return Ok(states);
    }
    states.push(initial_state);
    let mut last: State = initial_state;
    let mut done: u64 = 1;
    while done < count
        invariant
            valid_parameters(dt as int, t_max as int),
            count == sample_count_of(dt as int, t_max as int),
            1 <= done <= count,
            is_trajectory(states@, initial_state@, dt as int, done as int),
            states@[0] == initial_state,
            last == states@[done - 1],
        decreases count - done,
    {
        match last.step(dt) {
            Some(next) => {
                states.push(next);
                last = next;
                done = done + 1;
            },
            None => {
                assert(!sample(initial_state@, dt as int, done as nat).representable());
                return Err(SimulationError::OutOfRange);
            },
        }
    }
    proof {
        lemma_held_trajectory_fits(states@, initial_state@, dt as int, count as int);
    }
    Ok(states)
}

} // verus!
