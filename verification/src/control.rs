//! The throttle-ramp control loop as a state machine.
//!
//! The loop's decisions are pure: from the current state and the shared
//! running flag, `advance` yields the next state and the one action the
//! caller must perform — arm the ESC, run zero calibration, issue a
//! throttle increment (followed by a telemetry read and one acquisition
//! frame), or send the shutdown sequence. The host loop performs the
//! action against the transport and calls `advance` again, consulting the
//! cancellation flag once per iteration boundary.

use vstd::prelude::*;

verus! {

/// Throttle increment issued per ramp iteration.
pub const THROTTLE_STEP: i32 = 50;

/// Ramp ceiling: the loop shuts down once the command reaches this value.
pub const MAX_PWM: i32 = 1600;

/// Phase of the run.
#[derive(Clone, Copy, Debug, PartialEq, Eq, Structural)]
pub enum LoopState {
    Initializing,
    Calibrating,
    Ramping,
    ShuttingDown,
    Stopped,
}

/// The one externally visible action each transition asks the host to take.
#[derive(Clone, Copy, Debug, PartialEq, Eq, Structural)]
pub enum ControlAction {
    /// Send the arm and handshake commands, with their settle delays.
    Arm,
    /// Run zero calibration with the throttle at idle.
    Calibrate,
    /// Send one throttle-increment command, then read telemetry and one
    /// acquisition frame and emit a sample row.
    ThrottleIncrement,
    /// Send the zero-throttle command and flush the transport.
    Stop,
    /// Nothing to perform.
    Idle,
}

/// Control-loop state: the phase and the last commanded throttle.
#[derive(Clone, Copy, Debug, PartialEq, Eq, Structural)]
pub struct Controller {
    pub state: LoopState,
    /// Last throttle command issued; 0 until the ramp starts.
    pub throttle_command: i32,
    /// Configured increment per ramp iteration.
    pub step: i32,
    /// Configured ceiling the command may reach but never exceed.
    pub ceiling: i32,
}

impl Controller {
    /// Well-formedness: the command is a multiple of the step, within the
    /// ceiling, and one more increment cannot overflow.
    pub open spec fn wf(self) -> bool {
        &&& 0 < self.step
        &&& 0 <= self.throttle_command <= self.ceiling
        &&& self.throttle_command % self.step == 0
        &&& self.ceiling % self.step == 0
        &&& self.ceiling + self.step <= i32::MAX
    }

    /// What one loop-boundary check decides, given the running flag.
    pub open spec fn advance_spec(self, running: bool) -> (Controller, ControlAction) {
        if !running {
            match self.state {
                LoopState::Stopped => (self, ControlAction::Idle),
                LoopState::ShuttingDown => (
                    Controller { state: LoopState::Stopped, ..self },
                    ControlAction::Stop,
                ),
                _ => (Controller { state: LoopState::ShuttingDown, ..self }, ControlAction::Idle),
            }
        } else {
            match self.state {
                LoopState::Initializing => (
                    Controller { state: LoopState::Calibrating, ..self },
                    ControlAction::Arm,
                ),
                LoopState::Calibrating => (
                    Controller { state: LoopState::Ramping, ..self },
                    ControlAction::Calibrate,
                ),
                LoopState::Ramping => if self.throttle_command < self.ceiling {
                    (
                        Controller {
                            throttle_command: (self.throttle_command + self.step) as i32,
                            ..self
                        },
                        ControlAction::ThrottleIncrement,
                    )
                } else {
                    (Controller { state: LoopState::ShuttingDown, ..self }, ControlAction::Idle)
                },
                LoopState::ShuttingDown => (
                    Controller { state: LoopState::Stopped, ..self },
                    ControlAction::Stop,
                ),
                LoopState::Stopped => (self, ControlAction::Idle),
            }
        }
    }

    /// A fresh controller about to arm the ESC.
    pub fn new(step: i32, ceiling: i32) -> (r: Controller)
        requires
            0 < step,
            0 <= ceiling,
            ceiling % step == 0,
            ceiling + step <= i32::MAX,
        ensures
            r.wf(),
            r.state == LoopState::Initializing,
            r.throttle_command == 0,
            r.step == step,
            r.ceiling == ceiling,
    {
        Controller { state: LoopState::Initializing, throttle_command: 0, step, ceiling }
    }

    /// Perform one loop-boundary check: decide the next state and action.
    pub fn advance(self, running: bool) -> (r: (Controller, ControlAction))
        requires
            self.wf(),
        ensures
            r == self.advance_spec(running),
            r.0.wf(),
    {
        proof {
            lemma_step_stays_within(
                self.throttle_command as int,
                self.ceiling as int,
                self.step as int,
            );
        }
        if !running {
            match self.state {
                LoopState::Stopped => (self, ControlAction::Idle),
                LoopState::ShuttingDown => (
                    Controller { state: LoopState::Stopped, ..self },
                    ControlAction::Stop,
                ),
                _ => (Controller { state: LoopState::ShuttingDown, ..self }, ControlAction::Idle),
            }
        } else {
            match self.state {
                LoopState::Initializing => (
                    Controller { state: LoopState::Calibrating, ..self },
                    ControlAction::Arm,
                ),
                LoopState::Calibrating => (
                    Controller { state: LoopState::Ramping, ..self },
                    ControlAction::Calibrate,
                ),
                LoopState::Ramping => if self.throttle_command < self.ceiling {
                    (
                        Controller { throttle_command: self.throttle_command + self.step, ..self },
                        ControlAction::ThrottleIncrement,
                    )
                } else {
                    (Controller { state: LoopState::ShuttingDown, ..self }, ControlAction::Idle)
                },
                LoopState::ShuttingDown => (
                    Controller { state: LoopState::Stopped, ..self },
                    ControlAction::Stop,
                ),
                LoopState::Stopped => (self, ControlAction::Idle),
            }
        }
    }
}

/// If two multiples of a positive step are strictly ordered, they are at
/// least one step apart; and a step up from a multiple is again a multiple.
proof fn lemma_step_stays_within(t: int, c: int, s: int)
    requires
        0 < s,
        t % s == 0,
        c % s == 0,
    ensures
        t < c ==> t + s <= c,
        (t + s) % s == 0,
{
    if t < c {
        assert(t + s <= c) by (nonlinear_arith)
            requires
                0 < s && t % s == 0 && c % s == 0 && t < c,
        ;
    }
    assert((t + s) % s == 0) by (nonlinear_arith)
        requires
            0 < s && t % s == 0,
    ;
}

/// One loop-boundary check keeps the controller well formed.
pub proof fn lemma_advance_preserves_wf(c: Controller, running: bool)
    requires
        c.wf(),
    ensures
        c.advance_spec(running).0.wf(),
{
    lemma_step_stays_within(c.throttle_command as int, c.ceiling as int, c.step as int);
}

/// The controller after `k` loop-boundary checks with the running flag held
/// true throughout.
pub open spec fn run_from(c: Controller, k: nat) -> Controller
    decreases k,
{
    if k == 0 {
        c
    } else {
        run_from(c, (k - 1) as nat).advance_spec(true).0
    }
}

/// The throttle command never exceeds the ceiling, never decreases, and
/// while the ramp is still in progress after `k` iterations the commands
/// issued so far form the arithmetic progression
/// `start + step, start + 2*step, ..., start + k*step`.
pub proof fn lemma_throttle_progression(c: Controller, k: nat)
    requires
        c.wf(),
    ensures
        run_from(c, k).wf(),
        run_from(c, k).step == c.step,
        run_from(c, k).ceiling == c.ceiling,
        run_from(c, k).throttle_command <= c.ceiling,
        run_from(c, k).throttle_command >= c.throttle_command,
        run_from(c, (k + 1) as nat).throttle_command >= run_from(c, k).throttle_command,
        c.state == LoopState::Ramping ==> (run_from(c, k).state == LoopState::Ramping
            || run_from(c, k).state == LoopState::ShuttingDown || run_from(c, k).state
            == LoopState::Stopped),
        run_from(c, k).state == LoopState::Ramping && c.state == LoopState::Ramping
            ==> run_from(c, k).throttle_command == c.throttle_command + k * c.step,
    decreases k,
{
    if k == 0 {
        lemma_advance_preserves_wf(c, true);
        lemma_step_stays_within(c.throttle_command as int, c.ceiling as int, c.step as int);
    } else {
        lemma_throttle_progression(c, (k - 1) as nat);
        let prev = run_from(c, (k - 1) as nat);
        lemma_advance_preserves_wf(prev, true);
        lemma_step_stays_within(
            prev.throttle_command as int,
            prev.ceiling as int,
            prev.step as int,
        );
        let cur = run_from(c, k);
        lemma_advance_preserves_wf(cur, true);
        lemma_step_stays_within(cur.throttle_command as int, cur.ceiling as int, cur.step as int);
        if cur.state == LoopState::Ramping && c.state == LoopState::Ramping {
            assert(prev.state == LoopState::Ramping);
            assert(cur.throttle_command == c.throttle_command + (k - 1) * c.step + c.step);
            assert((k - 1) * c.step + c.step == k * c.step) by (nonlinear_arith);
        }
    }
}

/// Clearing the running flag between two ramp iterations makes the very
/// next loop-boundary check transition to `ShuttingDown`, leaving the
/// throttle command unchanged and issuing no further throttle increment.
pub proof fn lemma_cancellation_is_immediate(c: Controller)
    requires
        c.wf(),
        c.state == LoopState::Ramping,
    ensures
        c.advance_spec(false).0.state == LoopState::ShuttingDown,
        c.advance_spec(false).0.throttle_command == c.throttle_command,
        c.advance_spec(false).1 != ControlAction::ThrottleIncrement,
{
}

} // verus!
