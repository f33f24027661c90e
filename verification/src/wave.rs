//! A wave: one shaped pulse of motor intensity, bounded in time.
//!
//! The shape of the pulse is the positive lobe of a sine raised to a power.
//! That is floating-point work, which this crate leaves to its caller: the
//! caller works out the gain of a wave at an instant, a value of the unit
//! interval in millionths, and the wave turns it into a level of the motor.

use vstd::prelude::*;
use crate::fixed::{spec_round_div, ONE};

verus! {

/// One pulse of motor intensity, fixed when it is spawned.
///
/// The pulse follows the positive lobes of a sine that runs through
/// `frequency` cycles over the lifetime of the wave, raised to `sharpness`
/// and scaled to `target_intensity`.
#[derive(Clone, Copy, Debug, PartialEq, Eq)]
pub struct WaveEvent {
    /// The instant the wave was spawned, in microseconds.
    pub start_time: u64,
    /// The intensity at the peak of a lobe.
    pub target_intensity: u8,
    /// Sine cycles over the lifetime of the wave, in millionths.
    pub frequency: u64,
    /// Shaping exponent of the lobes, in millionths.
    pub sharpness: u32,
}

impl WaveEvent {
    /// The shaping exponent lies between one and five.
    pub open spec fn wf(&self) -> bool {
        ONE <= self.sharpness <= 5 * ONE
    }

    /// Microseconds from the start of the wave to `now`; zero before it.
    pub open spec fn spec_elapsed(&self, now: u64) -> int {
        if now >= self.start_time {
            now - self.start_time
        } else {
            0
        }
    }

    /// The wave is over at `now`: more than `wave_duration` has passed.
    pub open spec fn spec_expired(&self, now: u64, wave_duration: u64) -> bool {
        self.spec_elapsed(now) > wave_duration
    }

    /// The level of the motor for a gain in millionths: the gain times the
    /// target intensity, rounded to the nearest integer and held to 255.
    pub open spec fn spec_level(&self, gain: u32) -> u8 {
        let scaled = spec_round_div(gain * self.target_intensity, ONE as int);
        if scaled > 255 {
            255u8
        } else {
            scaled as u8
        }
    }

    /// The intensity of the wave at `now`, where its gain is `gain`: nothing
    /// once it has expired, else the level for the gain.
    pub open spec fn spec_current_intensity(&self, now: u64, wave_duration: u64, gain: u32) -> Option<u8> {
        if self.spec_expired(now, wave_duration) {
            None
        } else {
            Some(self.spec_level(gain))
        }
    }

    /// Microseconds from the start of the wave to `now`; zero where `now` is
    /// before the start.
    pub fn elapsed(&self, now: u64) -> (elapsed: u64)
        ensures
            elapsed == self.spec_elapsed(now),
    {
        if now >= self.start_time {
            now - self.start_time
        } else {
            0
        }
    }

    /// The level of the motor for a gain in millionths.
    pub fn level(&self, gain: u32) -> (level: u8)
        ensures
            level == self.spec_level(gain),
    {
        proof {
            let g = gain as int;
            let t = self.target_intensity as int;
            assert(0 <= g * t <= 0xFFFF_FFFF * 255) by (nonlinear_arith)
                requires
                    0 <= g <= 0xFFFF_FFFF,
                    0 <= t <= 255,
            ;
        }
        let scaled: u64 = (2 * (gain as u64 * self.target_intensity as u64) + ONE) / (2 * ONE);
        if scaled > 255 {
            255
        } else {
            scaled as u8
        }
    }

    /// The intensity of this wave at the instant `now`, for waves that last
    /// `wave_duration` microseconds; `None` once the wave has expired.
    ///
    /// `gain` is the shaped gain of the wave at `now`, in millionths: the
    /// positive lobe of the sine at the share of the lifetime that has
    /// passed, times the frequency, raised to the sharpness.
    pub fn current_intensity(&self, now: u64, wave_duration: u64, gain: u32) -> (level: Option<u8>)
        ensures
            level == self.spec_current_intensity(now, wave_duration, gain),
    {
        if self.elapsed(now) > wave_duration {
            None
        } else {
            Some(self.level(gain))
        }
    }
}

} // verus!
