//! The self-test of the motor: a ramp of intensities for two seconds, then
//! silence.
//!
//! The caller owns the clock and the device: it asks for the next step, sends
//! the value, waits for the pause, and asks again.

use vstd::prelude::*;

verus! {

/// How long the ramp runs, in microseconds.
pub const SELF_TEST_DURATION: u64 = 2_000_000;

/// The pause after each value of the ramp, in microseconds.
pub const SELF_TEST_STEP_PAUSE: u64 = 10_000;

/// The pause after the final silence, in microseconds.
pub const SELF_TEST_FINAL_PAUSE: u64 = 100_000;

/// Where the ramp starts over.
pub const SELF_TEST_PERIOD: u32 = 255;

/// What the caller of a self-test does next.
#[derive(Clone, Copy, Debug, PartialEq, Eq)]
pub enum SelfTestStep {
    /// Send `value` to the motor, then wait for `pause` microseconds.
    Send { value: u8, pause: u64 },
    /// The test is over.
    Done,
}

/// What a self-test holds: the number of values it has handed out, and
/// whether the final silence was among them.
pub struct SelfTestState {
    pub sent: u32,
    pub finished: bool,
}

/// The step of a self-test in state `s`, `elapsed` microseconds after its
/// start: the next value of the ramp while the two seconds last, then one
/// silence, then nothing.
pub open spec fn spec_self_test_step(s: SelfTestState, elapsed: u64) -> SelfTestStep {
    if s.finished {
        SelfTestStep::Done
    } else if elapsed < SELF_TEST_DURATION {
        SelfTestStep::Send {
            value: (s.sent % SELF_TEST_PERIOD) as u8,
            pause: SELF_TEST_STEP_PAUSE,
        }
    } else {
        SelfTestStep::Send { value: 0, pause: SELF_TEST_FINAL_PAUSE }
    }
}

/// The state of a self-test after the step it took in state `s`.
pub open spec fn spec_self_test_next(s: SelfTestState, elapsed: u64) -> SelfTestState {
    if s.finished {
        s
    } else {
        SelfTestState {
            sent: if s.sent < u32::MAX {
                (s.sent + 1) as u32
            } else {
                s.sent
            },
            finished: elapsed >= SELF_TEST_DURATION,
        }
    }
}

/// A self-test of the motor.
pub struct SelfTest {
    sent: u32,
    finished: bool,
}

impl View for SelfTest {
    type V = SelfTestState;

    closed spec fn view(&self) -> SelfTestState {
        SelfTestState { sent: self.sent, finished: self.finished }
    }
}

impl SelfTest {
    /// A self-test that has sent nothing yet.
    pub fn new() -> (test: Self)
        ensures
            test@ == (SelfTestState { sent: 0, finished: false }),
    {
        SelfTest { sent: 0, finished: false }
    }

    /// The number of values handed out so far.
    pub fn sent(&self) -> (sent: u32)
        ensures
            sent == self@.sent,
    {
        self.sent
    }

    /// The next step, `elapsed` microseconds after the start of the test.
    pub fn next(&mut self, elapsed: u64) -> (step: SelfTestStep)
        ensures
            step == spec_self_test_step(old(self)@, elapsed),
            final(self)@ == spec_self_test_next(old(self)@, elapsed),
    {
        if self.finished {
            return SelfTestStep::Done;
        }
        let step = if elapsed < SELF_TEST_DURATION {
            SelfTestStep::Send { value: (self.sent % SELF_TEST_PERIOD) as u8, pause: SELF_TEST_STEP_PAUSE }
        } else {
            self.finished = true;
            SelfTestStep::Send { value: 0, pause: SELF_TEST_FINAL_PAUSE }
        };
        if self.sent < u32::MAX {
            self.sent = self.sent + 1;
        }
        step
    }
}

} // verus!
