//! The synthesis loop as a state machine: what one cycle of the loop does to
//! the engine, and what it asks the caller to send to the motor.
//!
//! The caller owns the clock, the queue of samples, the shape of the waves
//! and the device. Once per tick interval it hands over the samples that have
//! arrived and the gains of the waves, sends the value it is given, and
//! reports whether the device took it.

use vstd::prelude::*;
use crate::config::SynthesisConfig;
use crate::manager::{
    spec_after_confirm, spec_after_update, spec_feed_all, spec_fresh, spec_update_write,
    ManagerState, VibrationManager,
};

verus! {

/// Whether the loop is running.
#[derive(Clone, Copy, Debug, PartialEq, Eq, Structural)]
pub enum EngineState {
    /// No loop is running; samples and ticks are ignored.
    Idle,
    /// The loop runs, one cycle per tick interval.
    Running,
}

/// What an engine holds: whether it runs, and the state of its manager.
pub struct EngineView {
    pub state: EngineState,
    pub manager: ManagerState,
}

/// An engine that was just built: idle, with a fresh manager.
pub open spec fn spec_engine_new(config: SynthesisConfig) -> EngineView {
    EngineView { state: EngineState::Idle, manager: spec_fresh(config) }
}

/// The engine after a start: running if it ran before or the device is
/// there, idle otherwise.
pub open spec fn spec_engine_start(e: EngineView, device_available: bool) -> EngineView {
    EngineView {
        state: if e.state == EngineState::Running || device_available {
            EngineState::Running
        } else {
            EngineState::Idle
        },
        manager: e.manager,
    }
}

/// The engine after one cycle at `now`: a running engine takes the samples in
/// the order they arrived, then ticks; an idle one stays as it is.
pub open spec fn spec_engine_cycle(e: EngineView, samples: Seq<(i32, i32, i32)>, now: u64) -> EngineView {
    match e.state {
        EngineState::Idle => e,
        EngineState::Running => EngineView {
            state: EngineState::Running,
            manager: spec_after_update(spec_feed_all(e.manager, samples, now), now),
        },
    }
}

/// The value that one cycle at `now` asks to send to the motor, if any, where
/// the waves have the gains `gains`.
pub open spec fn spec_engine_cycle_write(
    e: EngineView,
    samples: Seq<(i32, i32, i32)>,
    now: u64,
    gains: Seq<u32>,
) -> Option<u8> {
    match e.state {
        EngineState::Idle => None,
        EngineState::Running => spec_update_write(
            spec_feed_all(e.manager, samples, now),
            now,
            gains,
        ),
    }
}

/// The engine after the device answered a write of `value`: the value is
/// remembered only if it was delivered.
pub open spec fn spec_engine_write_done(e: EngineView, value: u8, delivered: bool) -> EngineView {
    EngineView {
        state: e.state,
        manager: if delivered {
            spec_after_confirm(e.manager, value)
        } else {
            e.manager
        },
    }
}

/// The engine after a stop: idle, and a running engine forgets its waves.
pub open spec fn spec_engine_stop(e: EngineView) -> EngineView {
    match e.state {
        EngineState::Idle => e,
        EngineState::Running => EngineView {
            state: EngineState::Idle,
            manager: spec_fresh(e.manager.config),
        },
    }
}

/// The value that a stop asks to send to the motor: silence, if the engine
/// was running.
pub open spec fn spec_engine_stop_write(e: EngineView) -> Option<u8> {
    match e.state {
        EngineState::Idle => None,
        EngineState::Running => Some(0u8),
    }
}

/// The synthesis engine: a manager, and whether the loop around it runs.
pub struct SynthesisEngine {
    state: EngineState,
    manager: VibrationManager,
}

impl View for SynthesisEngine {
    type V = EngineView;

    closed spec fn view(&self) -> EngineView {
        EngineView { state: self.state, manager: self.manager@ }
    }
}

impl SynthesisEngine {
    /// An idle engine with the given parameters.
    pub fn new(config: SynthesisConfig) -> (engine: Self)
        ensures
            engine@ == spec_engine_new(config),
    {
        SynthesisEngine { state: EngineState::Idle, manager: VibrationManager::new(config) }
    }

    /// Whether the loop runs.
    pub fn state(&self) -> (state: EngineState)
        ensures
            state == self@.state,
    {
        self.state
    }

    /// The manager inside the engine.
    pub fn manager(&self) -> (manager: &VibrationManager)
        ensures
            manager@ == self@.manager,
    {
        &self.manager
    }

    /// Microseconds to wait between two cycles.
    pub fn process_interval(&self) -> (interval: u64)
        ensures
            interval == self@.manager.config.process_interval,
    {
        self.manager.config().process_interval
    }

    /// Starts the loop if the device could be opened. Without a device the
    /// engine stays idle. Tells whether the engine runs now.
    pub fn start(&mut self, device_available: bool) -> (running: bool)
        ensures
            final(self)@ == spec_engine_start(old(self)@, device_available),
            running == (final(self)@.state == EngineState::Running),
    {
        match self.state {
            EngineState::Running => true,
            EngineState::Idle => {
                if device_available {
                    self.state = EngineState::Running;
                    true
                } else {
                    false
                }
            },
        }
    }

    /// One cycle of the loop at `now`: takes the samples that have arrived
    /// since the last cycle, in their order and all stamped `now`, then ticks
    /// the manager. Gives the value to send to the motor, if any. An idle
    /// engine does nothing.
    ///
    /// `gains` holds the shaped gain at `now` of each wave that the manager
    /// held before the cycle, in millionths and in their order. The waves
    /// that the samples of this cycle spawn start at `now` and need none.
    pub fn cycle(&mut self, samples: &Vec<(i32, i32, i32)>, now: u64, gains: &Vec<u32>) -> (write:
        Option<u8>)
        ensures
            final(self)@ == spec_engine_cycle(old(self)@, samples@, now),
            write == spec_engine_cycle_write(old(self)@, samples@, now, gains@),
    {
        match self.state {
            EngineState::Idle => None,
            EngineState::Running => {
                let mut i: usize = 0;
                proof {
                    assert(samples@.take(0) =~= Seq::<(i32, i32, i32)>::empty());
                }
                while i < samples.len()
                    invariant
                        i <= samples.len(),
                        self.state == old(self).state,
                        self.manager@ == spec_feed_all(old(self).manager@, samples@.take(i as int), now),
                    decreases samples.len() - i,
                {
                    let (ax, ay, az) = samples[i];
                    proof {
                        let after = samples@.take(i + 1);
                        assert(after.drop_last() =~= samples@.take(i as int));
                        assert(after.last() == samples@[i as int]);
                    }
                    self.manager.spawn_wave_for_input(ax, ay, az, now);
                    i += 1;
                }
                proof {
                    assert(samples@.take(samples.len() as int) =~= samples@);
                }
                self.manager.update(now, gains)
            },
        }
    }

    /// Reports what became of a value that `cycle` or `stop` asked to send.
    /// A value that was not delivered is forgotten, so a later cycle asks
    /// again.
    pub fn write_done(&mut self, value: u8, delivered: bool)
        ensures
            final(self)@ == spec_engine_write_done(old(self)@, value, delivered),
    {
        if delivered {
            self.manager.confirm_write(value);
        }
    }

    /// Stops the loop. A running engine asks for one last write of zero, so
    /// that the motor is not left vibrating, and forgets its waves.
    pub fn stop(&mut self) -> (write: Option<u8>)
        ensures
            final(self)@ == spec_engine_stop(old(self)@),
            write == spec_engine_stop_write(old(self)@),
    {
        match self.state {
            EngineState::Idle => None,
            EngineState::Running => {
                let config = self.manager.config();
                self.manager = VibrationManager::new(config);
                self.state = EngineState::Idle;
                Some(0)
            },
        }
    }
}

} // verus!
