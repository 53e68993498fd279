use elev_driver::elev_io::{MotorDir, Signal, TOP};
use elev_driver::motion::{current_floor, step, MotionState};

#[test]
fn patrol_flips_exactly_once_at_the_turnaround() {
    let turnaround = TOP;
    let mut state = MotionState::MovingUp;
    let mut flips = 0;
    for floor in [0usize, 1, 2, 3] {
        let (next, command) = step(state, Some(floor), Signal::Low, turnaround);
        if next != state {
            flips += 1;
            assert_eq!(next, MotionState::MovingDown);
            assert_eq!(command, Some(MotorDir::Down));
        } else {
            assert_eq!(command, None);
        }
        state = next;
    }
    assert_eq!(flips, 1);
    assert_eq!(state, MotionState::MovingDown);
}

#[test]
fn patrol_turns_up_again_at_the_ground_floor() {
    let (next, command) = step(MotionState::MovingDown, Some(0), Signal::Low, TOP);
    assert_eq!(next, MotionState::MovingUp);
    assert_eq!(command, Some(MotorDir::Up));
}

#[test]
fn stop_signal_halts_whatever_the_position() {
    for state in [MotionState::MovingUp, MotionState::MovingDown, MotionState::Stopped] {
        for at_floor in [None, Some(0), Some(1), Some(TOP)] {
            let (next, command) = step(state, at_floor, Signal::High, TOP);
            assert_eq!(next, MotionState::Stopped);
            assert_eq!(command, Some(MotorDir::Stop));
        }
    }
}

#[test]
fn between_floors_the_course_is_held() {
    let (next, command) = step(MotionState::MovingUp, None, Signal::Low, TOP);
    assert_eq!(next, MotionState::MovingUp);
    assert_eq!(command, None);
}

#[test]
fn stopped_state_is_terminal() {
    let (next, command) = step(MotionState::Stopped, Some(0), Signal::Low, TOP);
    assert_eq!(next, MotionState::Stopped);
    assert_eq!(command, None);
}

#[test]
fn turnaround_floor_is_a_policy_parameter() {
    let (next, command) = step(MotionState::MovingUp, Some(2), Signal::Low, 2);
    assert_eq!(next, MotionState::MovingDown);
    assert_eq!(command, Some(MotorDir::Down));
    let (same, none) = step(MotionState::MovingUp, Some(2), Signal::Low, TOP);
    assert_eq!(same, MotionState::MovingUp);
    assert_eq!(none, None);
}

#[test]
fn current_floor_takes_the_first_high_sensor() {
    let readings = vec![Signal::Low, Signal::Low, Signal::High, Signal::Low];
    assert_eq!(current_floor(&readings), Some(2));
    let none = vec![Signal::Low, Signal::Low, Signal::Low, Signal::Low];
    assert_eq!(current_floor(&none), None);
}
