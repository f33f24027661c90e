//! The wave mixer: the set of active waves, their merged intensity, and the
//! decision whether the motor needs a new value.

use vstd::prelude::*;
use crate::config::SynthesisConfig;
use crate::filter::{spec_filter_fresh, spec_filter_output, spec_filter_step, FilterState, HighPassFilter3D};
use crate::spawner::{spawn_wave, spec_spawn};
use crate::wave::WaveEvent;

verus! {

/// What a manager holds: its parameters, the waves that are active in the
/// order they were spawned, the intensity the motor was last set to, the
/// state of the filter, and the magnitude of the last sample.
pub struct ManagerState {
    pub config: SynthesisConfig,
    pub waves: Seq<WaveEvent>,
    pub last_intensity: u8,
    pub filter: FilterState,
    pub previous_mag: u32,
}

/// Every wave of the run is well formed.
pub open spec fn spec_all_wf(waves: Seq<WaveEvent>) -> bool {
    forall|i: int| 0 <= i < waves.len() ==> (#[trigger] waves[i]).wf()
}

/// A manager that has seen no sample: no waves, a silent motor.
pub open spec fn spec_fresh(config: SynthesisConfig) -> ManagerState {
    ManagerState {
        config,
        waves: Seq::empty(),
        last_intensity: 0,
        filter: spec_filter_fresh(config.high_pass_alpha),
        previous_mag: 0,
    }
}

/// The state after one sample arrived at `now`: the sample goes through the
/// filter, the spawner makes at most one wave of it, and the wave joins the
/// active ones.
pub open spec fn spec_feed(s: ManagerState, sample: (i32, i32, i32), now: u64) -> ManagerState {
    let filtered = spec_filter_output(s.filter, sample);
    let spawned = spec_spawn(s.config, filtered, s.previous_mag, now);
    ManagerState {
        config: s.config,
        waves: match spawned.0 {
            Some(wave) => s.waves.push(wave),
            None => s.waves,
        },
        last_intensity: s.last_intensity,
        filter: spec_filter_step(s.filter, sample),
        previous_mag: spawned.1,
    }
}

/// The state after a run of samples arrived at `now`, first to last.
pub open spec fn spec_feed_all(s: ManagerState, samples: Seq<(i32, i32, i32)>, now: u64) -> ManagerState
    decreases samples.len(),
{
    if samples.len() == 0 {
        s
    } else {
        spec_feed(spec_feed_all(s, samples.drop_last(), now), samples.last(), now)
    }
}

/// The test that a wave has not expired at `now`.
pub open spec fn spec_is_active(now: u64, wave_duration: u64) -> spec_fn(WaveEvent) -> bool {
    |wave: WaveEvent| !wave.spec_expired(now, wave_duration)
}

/// The waves that have not expired at `now`, in their order.
pub open spec fn spec_active(waves: Seq<WaveEvent>, now: u64, wave_duration: u64) -> Seq<WaveEvent> {
    waves.filter(spec_is_active(now, wave_duration))
}

/// The gain of the wave at place `i`: the value at that place of `gains`,
/// and zero where `gains` has none.
pub open spec fn spec_gain_at(gains: Seq<u32>, i: int) -> u32 {
    if 0 <= i < gains.len() {
        gains[i]
    } else {
        0
    }
}

/// The merged intensity at `now`: the largest intensity of any wave that has
/// not expired, zero if there is none. The wave at place `i` has the gain at
/// place `i` of `gains`.
pub open spec fn spec_merged(waves: Seq<WaveEvent>, gains: Seq<u32>, now: u64, wave_duration: u64) -> u8
    decreases waves.len(),
{
    if waves.len() == 0 {
        0
    } else {
        let rest = spec_merged(waves.drop_last(), gains, now, wave_duration);
        let gain = spec_gain_at(gains, waves.len() - 1);
        match waves.last().spec_current_intensity(now, wave_duration, gain) {
            Some(level) => if level > rest {
                level
            } else {
                rest
            },
            None => rest,
        }
    }
}

/// The value to send to the motor, if any: a merged intensity at or above
/// the threshold that differs from the last value sent, or a zero after a
/// nonzero value.
pub open spec fn spec_decide(merged: u8, last_intensity: u8, min_motor_intensity: u8) -> Option<u8> {
    if merged >= min_motor_intensity && merged != last_intensity {
        Some(merged)
    } else if merged == 0 && last_intensity != 0 {
        Some(0u8)
    } else {
        None
    }
}

/// The state after a tick at `now`: the expired waves are gone.
pub open spec fn spec_after_update(s: ManagerState, now: u64) -> ManagerState {
    ManagerState {
        config: s.config,
        waves: spec_active(s.waves, now, s.config.wave_duration),
        last_intensity: s.last_intensity,
        filter: s.filter,
        previous_mag: s.previous_mag,
    }
}

/// The value that a tick at `now` asks to send to the motor, if any, where
/// the waves have the gains `gains`.
pub open spec fn spec_update_write(s: ManagerState, now: u64, gains: Seq<u32>) -> Option<u8> {
    spec_decide(
        spec_merged(s.waves, gains, now, s.config.wave_duration),
        s.last_intensity,
        s.config.min_motor_intensity,
    )
}

/// The state after the motor took `value`.
pub open spec fn spec_after_confirm(s: ManagerState, value: u8) -> ManagerState {
    ManagerState {
        config: s.config,
        waves: s.waves,
        last_intensity: value,
        filter: s.filter,
        previous_mag: s.previous_mag,
    }
}

/// Sorts out the waves at `now`: gives those that have not expired, in their
/// order, and the largest of their intensities (zero if none is left).
///
/// `gains` holds the shaped gain of each wave at `now`, in millionths, in the
/// order of the waves; a wave without a gain counts as silent.
pub fn mix(waves: &Vec<WaveEvent>, gains: &Vec<u32>, now: u64, wave_duration: u64) -> (mixed: (
    Vec<WaveEvent>,
    u8,
))
    ensures
        mixed.0@ == spec_active(waves@, now, wave_duration),
        mixed.1 == spec_merged(waves@, gains@, now, wave_duration),
        spec_all_wf(waves@) ==> spec_all_wf(mixed.0@),
{
    let mut kept: Vec<WaveEvent> = Vec::new();
    let mut max_intensity: u8 = 0;
    let mut i: usize = 0;
    proof {
        reveal(Seq::filter);
        assert(waves@.take(0) =~= Seq::<WaveEvent>::empty());
    }
    while i < waves.len()
        invariant
            i <= waves.len(),
            kept@ == spec_active(waves@.take(i as int), now, wave_duration),
            max_intensity == spec_merged(waves@.take(i as int), gains@, now, wave_duration),
            spec_all_wf(waves@) ==> spec_all_wf(kept@),
        decreases waves.len() - i,
    {
        let wave: WaveEvent = waves[i];
        proof {
            let before = waves@.take(i as int);
            let after = waves@.take(i + 1);
            assert(after =~= before.push(wave));
            assert(after.drop_last() =~= before);
            before.lemma_filter_push(wave, spec_is_active(now, wave_duration));
        }
        let gain: u32 = if i < gains.len() {
            gains[i]
        } else {
            0
        };
        match wave.current_intensity(now, wave_duration, gain) {
            Some(current) => {
                if current > max_intensity {
                    max_intensity = current;
                }
                kept.push(wave);
            },
            None => {},
        }
        i += 1;
    }
    proof {
        assert(waves@.take(waves.len() as int) =~= waves@);
    }
    (kept, max_intensity)
}

/// Decides whether the motor needs a new value: the merged intensity where it
/// is at or above `min_motor_intensity` and differs from `last_intensity`, a
/// zero where the merged intensity has fallen to zero after a nonzero value,
/// and nothing otherwise.
pub fn decide_write(merged: u8, last_intensity: u8, min_motor_intensity: u8) -> (write: Option<u8>)
    ensures
        write == spec_decide(merged, last_intensity, min_motor_intensity),
{
    if merged >= min_motor_intensity {
        if merged != last_intensity {
            Some(merged)
        } else {
            None
        }
    } else {
        if merged == 0 && last_intensity != 0 {
            Some(0)
        } else {
            None
        }
    }
}

/// Spawns waves from acceleration samples and merges the active waves into
/// one motor intensity, by their maximum.
pub struct VibrationManager {
    config: SynthesisConfig,
    waves: Vec<WaveEvent>,
    last_intensity: u8,
    hp_filter: HighPassFilter3D,
    previous_mag: u32,
}

impl View for VibrationManager {
    type V = ManagerState;

    closed spec fn view(&self) -> ManagerState {
        ManagerState {
            config: self.config,
            waves: self.waves@,
            last_intensity: self.last_intensity,
            filter: self.hp_filter@,
            previous_mag: self.previous_mag,
        }
    }
}

impl VibrationManager {
    /// Every wave that the manager holds is well formed.
    #[verifier::type_invariant]
    spec fn waves_wf(self) -> bool {
        spec_all_wf(self.waves@)
    }

    /// A manager with no active waves and a silent motor.
    pub fn new(config: SynthesisConfig) -> (manager: Self)
        ensures
            manager@ == spec_fresh(config),
    {
        VibrationManager {
            config,
            waves: Vec::new(),
            last_intensity: 0,
            hp_filter: HighPassFilter3D::new(config.high_pass_alpha),
            previous_mag: 0,
        }
    }

    /// Takes one acceleration sample that arrived at `now`: filters it, and
    /// adds the wave it spawns, if any, to the active ones.
    pub fn spawn_wave_for_input(&mut self, ax: i32, ay: i32, az: i32, now: u64)
        ensures
            final(self)@ == spec_feed(old(self)@, (ax, ay, az), now),
            spec_all_wf(final(self)@.waves),
    {
        proof {
            use_type_invariant(&*self);
        }
        let filtered = self.hp_filter.filter((ax, ay, az));
        let (spawned, mag) = spawn_wave(&self.config, filtered, self.previous_mag, now);
        self.previous_mag = mag;
        match spawned {
            Some(wave) => {
                // the list leaves the manager while it grows, so that what the
                // manager holds is well formed at every step
                let mut waves: Vec<WaveEvent> = Vec::new();
                std::mem::swap(&mut self.waves, &mut waves);
                waves.push(wave);
                self.waves = waves;
            },
            None => {},
        }
    }

    /// One tick at `now`: drops the waves that have expired, merges the rest,
    /// and gives the value that the motor should be set to, if it needs one.
    ///
    /// `gains` holds the shaped gain at `now` of each wave of `waves()`, in
    /// millionths and in their order; a wave without a gain counts as silent.
    ///
    /// The value counts as sent only once `confirm_write` has reported it: a
    /// value that the device did not take is asked for again by the next tick
    /// that differs from the last confirmed one.
    pub fn update(&mut self, now: u64, gains: &Vec<u32>) -> (write: Option<u8>)
        ensures
            final(self)@ == spec_after_update(old(self)@, now),
            write == spec_update_write(old(self)@, now, gains@),
            spec_all_wf(final(self)@.waves),
    {
        proof {
            use_type_invariant(&*self);
        }
        let (kept, max_intensity) = mix(&self.waves, gains, now, self.config.wave_duration);
        self.waves = kept;
        decide_write(max_intensity, self.last_intensity, self.config.min_motor_intensity)
    }

    /// The parameters this manager was built with.
    pub fn config(&self) -> (config: SynthesisConfig)
        ensures
            config == self@.config,
    {
        self.config
    }

    /// The waves that were spawned and not yet dropped, oldest first.
    pub fn waves(&self) -> (waves: &Vec<WaveEvent>)
        ensures
            waves@ == self@.waves,
            spec_all_wf(waves@),
    {
        proof {
            use_type_invariant(self);
        }
        &self.waves
    }

    /// The intensity that the motor was last confirmed to be set to.
    pub fn last_intensity(&self) -> (value: u8)
        ensures
            value == self@.last_intensity,
    {
        self.last_intensity
    }

    /// The magnitude of the last filtered sample.
    pub fn previous_mag(&self) -> (mag: u32)
        ensures
            mag == self@.previous_mag,
    {
        self.previous_mag
    }

    /// Records that the motor took `value`.
    pub fn confirm_write(&mut self, value: u8)
        ensures
            final(self)@ == spec_after_confirm(old(self)@, value),
    {
        proof {
            use_type_invariant(&*self);
        }
        self.last_intensity = value;
    }
}

} // verus!
