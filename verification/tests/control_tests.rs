use thrust_bench::control::{Controller, ControlAction, LoopState, MAX_PWM, THROTTLE_STEP};

#[test]
fn startup_sequence() {
    let c = Controller::new(THROTTLE_STEP, MAX_PWM);
    assert_eq!(c.state, LoopState::Initializing);
    assert_eq!(c.throttle_command, 0);

    let (c, action) = c.advance(true);
    assert_eq!(action, ControlAction::Arm);
    assert_eq!(c.state, LoopState::Calibrating);

    let (c, action) = c.advance(true);
    assert_eq!(action, ControlAction::Calibrate);
    assert_eq!(c.state, LoopState::Ramping);
    assert_eq!(c.throttle_command, 0);
}

#[test]
fn ramp_is_arithmetic_progression() {
    let mut c = Controller::new(THROTTLE_STEP, MAX_PWM);
    c = c.advance(true).0;
    c = c.advance(true).0;
    assert_eq!(c.state, LoopState::Ramping);

    let mut commands = Vec::new();
    let mut previous = 0;
    loop {
        let (next, action) = c.advance(true);
        if action != ControlAction::ThrottleIncrement {
            break;
        }
        // Monotonically non-decreasing, never above the ceiling.
        assert!(next.throttle_command >= previous);
        assert!(next.throttle_command <= MAX_PWM);
        previous = next.throttle_command;
        commands.push(next.throttle_command);
        c = next;
    }
    // Exactly step, 2*step, 3*step, ... up to the ceiling.
    let expected: Vec<i32> = (1..=(MAX_PWM / THROTTLE_STEP)).map(|k| k * THROTTLE_STEP).collect();
    assert_eq!(commands, expected);
    assert_eq!(commands.last(), Some(&MAX_PWM));
}

#[test]
fn ramp_completion_shuts_down() {
    let mut c = Controller::new(50, 100);
    c = c.advance(true).0;
    c = c.advance(true).0;
    let (c, a) = c.advance(true);
    assert_eq!((c.throttle_command, a), (50, ControlAction::ThrottleIncrement));
    let (c, a) = c.advance(true);
    assert_eq!((c.throttle_command, a), (100, ControlAction::ThrottleIncrement));
    let (c, a) = c.advance(true);
    assert_eq!(c.state, LoopState::ShuttingDown);
    assert_ne!(a, ControlAction::ThrottleIncrement);
    let (c, a) = c.advance(true);
    assert_eq!(c.state, LoopState::Stopped);
    assert_eq!(a, ControlAction::Stop);
    // Terminal: nothing more happens.
    let (c, a) = c.advance(true);
    assert_eq!(c.state, LoopState::Stopped);
    assert_eq!(a, ControlAction::Idle);
}

#[test]
fn cancellation_between_ramp_iterations() {
    let mut c = Controller::new(THROTTLE_STEP, MAX_PWM);
    c = c.advance(true).0;
    c = c.advance(true).0;
    c = c.advance(true).0;
    c = c.advance(true).0;
    assert_eq!(c.state, LoopState::Ramping);
    assert_eq!(c.throttle_command, 2 * THROTTLE_STEP);

    // The flag is cleared between two iterations: the very next boundary
    // check leaves the ramp without issuing a further increment.
    let (c, action) = c.advance(false);
    assert_eq!(c.state, LoopState::ShuttingDown);
    assert_eq!(c.throttle_command, 2 * THROTTLE_STEP);
    assert_ne!(action, ControlAction::ThrottleIncrement);
}

#[test]
fn cancellation_during_calibration() {
    let mut c = Controller::new(THROTTLE_STEP, MAX_PWM);
    c = c.advance(true).0;
    assert_eq!(c.state, LoopState::Calibrating);
    let (c, action) = c.advance(false);
    assert_eq!(c.state, LoopState::ShuttingDown);
    assert_ne!(action, ControlAction::ThrottleIncrement);
    let (c, action) = c.advance(false);
    assert_eq!(c.state, LoopState::Stopped);
    assert_eq!(action, ControlAction::Stop);
}
