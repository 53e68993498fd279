//! The motion controller: a small state machine that consumes floor-sensor
//! and stop-sensor readings and decides motor-direction commands.
//!
//! The controller patrols between floor 0 and a configurable turnaround
//! floor. A high stop signal is a fail-stop: it forces the stop command and
//! the terminal `Stopped` state whatever the position or direction, and the
//! control loop does not resume afterwards.

use vstd::prelude::*;

use crate::elev_io::{Floor, MotorDir, Signal};

verus! {

/// The controller's state. `Stopped` is terminal: it is entered on a high
/// stop signal and never left.
#[derive(Copy, Clone, Debug, PartialEq, Eq, Structural)]
pub enum MotionState {
    MovingUp,
    MovingDown,
    Stopped,
}

/// One poll iteration of the controller, as a pure transition function.
///
/// With the stop signal high the result is `(Stopped, Some(Stop))`,
/// whatever the state and position. Otherwise, moving up at the turnaround
/// floor flips to `MovingDown` with a `Down` command, moving down at floor 0
/// flips to `MovingUp` with an `Up` command, and every other reading leaves
/// the state unchanged and commands nothing.
pub open spec fn spec_step(
    state: MotionState,
    at_floor: Option<Floor>,
    stop: Signal,
    turnaround: Floor,
) -> (MotionState, Option<MotorDir>) {
    if stop is High {
        (MotionState::Stopped, Some(MotorDir::Stop))
    } else {
        match state {
            MotionState::MovingUp => if at_floor == Some(turnaround) {
                (MotionState::MovingDown, Some(MotorDir::Down))
            } else {
                (state, None)
            },
            MotionState::MovingDown => if at_floor == Some(0usize) {
                (MotionState::MovingUp, Some(MotorDir::Up))
            } else {
                (state, None)
            },
            MotionState::Stopped => (state, None),
        }
    }
}

/// Evaluates one poll iteration: takes the current state, the floor the car
/// is at (`None` between floors), the stop-sensor reading, and the
/// turnaround policy floor; returns the next state and the motor command to
/// issue, if any.
pub fn step(
    state: MotionState,
    at_floor: Option<Floor>,
    stop: Signal,
    turnaround: Floor,
) -> (r: (MotionState, Option<MotorDir>))
    ensures
        r == spec_step(state, at_floor, stop, turnaround),
{
    if let Signal::High = stop {
        return (MotionState::Stopped, Some(MotorDir::Stop));
    }
    match state {
        MotionState::MovingUp => {
            let hit = match at_floor {
                Some(f) => f == turnaround,
                None => false,
            };
            if hit {
                (MotionState::MovingDown, Some(MotorDir::Down))
            } else {
                (state, None)
            }
        },
        MotionState::MovingDown => {
            let hit = match at_floor {
                Some(f) => f == 0,
                None => false,
            };
            if hit {
                (MotionState::MovingUp, Some(MotorDir::Up))
            } else {
                (state, None)
            }
        },
        MotionState::Stopped => (state, None),
    }
}

/// Finds the floor the car is at from the floor-sensor readings: the first
/// high sensor, or `None` when the car is between floors.
pub fn current_floor(signals: &Vec<Signal>) -> (r: Option<Floor>)
    ensures
        r matches Some(f) ==> (f < signals@.len()
            && signals@[f as int] is High
            && forall|j: int| 0 <= j < f ==> signals@[j] is Low),
        r is None ==> forall|j: int| 0 <= j < signals@.len() ==> signals@[j] is Low,
{
    let mut i: usize = 0;
    while i < signals.len()
        invariant
            i <= signals@.len(),
            forall|j: int| 0 <= j < i ==> signals@[j] is Low,
        decreases signals@.len() - i,
    {
        if let Signal::High = signals[i] {
            return Some(i);
        }
        i = i + 1;
    }
    None
}

/// A high stop signal always wins: whatever the state, the position and the
/// turnaround policy, the iteration commands `Stop` and reaches the terminal
/// state.
pub proof fn lemma_stop_overrides(state: MotionState, at_floor: Option<Floor>, turnaround: Floor)
    ensures
        spec_step(state, at_floor, Signal::High, turnaround)
            == (MotionState::Stopped, Some(MotorDir::Stop)),
{
}

/// With the stop signal low, the controller holds its course away from its
/// boundary floor: a reading that is not the turnaround floor while moving
/// up, and not floor 0 while moving down, changes nothing and commands
/// nothing — the patrol never oscillates on intermediate floors.
pub proof fn lemma_holds_course(state: MotionState, at_floor: Option<Floor>, turnaround: Floor)
    requires
        state is MovingUp ==> at_floor != Some(turnaround),
        state is MovingDown ==> at_floor != Some(0usize),
    ensures
        spec_step(state, at_floor, Signal::Low, turnaround) == (state, None::<MotorDir>),
{
}

/// Once stopped, always stopped: from the terminal state no reading with a
/// low stop signal moves the car or commands the motor again.
pub proof fn lemma_stopped_is_terminal(at_floor: Option<Floor>, stop: Signal, turnaround: Floor)
    ensures
        spec_step(MotionState::Stopped, at_floor, stop, turnaround).0 == MotionState::Stopped,
{
}

} // verus!
