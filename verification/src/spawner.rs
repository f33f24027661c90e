//! From a filtered sample to a wave: magnitude, target intensity, and the
//! shape that the change in magnitude gives the wave.

use vstd::prelude::*;
use crate::config::SynthesisConfig;
use crate::fixed::{isqrt, spec_isqrt, spec_round_div, ONE};
use crate::wave::WaveEvent;

verus! {

/// The Euclidean length of a sample, rounded down.
pub open spec fn spec_magnitude(v: (i32, i32, i32)) -> int {
    spec_isqrt(v.0 * v.0 + v.1 * v.1 + v.2 * v.2)
}

/// The peak intensity for a magnitude: `255 * mag / max_mag` rounded to the
/// nearest integer and held to 255. With a ceiling of zero every magnitude
/// above zero is at full intensity.
pub open spec fn spec_target_intensity(mag: int, max_mag: int) -> int {
    if max_mag == 0 {
        if mag > 0 {
            255
        } else {
            0
        }
    } else {
        let scaled = spec_round_div(mag * 255, max_mag);
        if scaled > 255 {
            255
        } else {
            scaled
        }
    }
}

/// The change between two magnitudes.
pub open spec fn spec_delta(mag: int, previous_mag: int) -> int {
    if mag >= previous_mag {
        mag - previous_mag
    } else {
        previous_mag - mag
    }
}

/// Cycles per wave for a change of `delta` in magnitude: the base frequency
/// plus the sensitivity times the change, with no upper limit.
pub open spec fn spec_wave_frequency(config: SynthesisConfig, delta: int) -> int {
    config.base_freq + config.freq_sensitivity * delta / (ONE as int)
}

/// Shaping exponent for a change of `delta` in magnitude: the base sharpness
/// plus the sensitivity times the change, held between one and five.
pub open spec fn spec_wave_sharpness(config: SynthesisConfig, delta: int) -> int {
    let raw = config.base_sharpness + config.sharpness_sensitivity * delta / (ONE as int);
    if raw < ONE {
        ONE as int
    } else if raw > 5 * ONE {
        5 * ONE
    } else {
        raw
    }
}

/// What a filtered sample spawns at `now`, and the magnitude to remember: no
/// wave where the target intensity is zero, else a wave shaped by the change
/// in magnitude.
pub open spec fn spec_spawn(
    config: SynthesisConfig,
    filtered: (i32, i32, i32),
    previous_mag: u32,
    now: u64,
) -> (Option<WaveEvent>, u32) {
    let mag = spec_magnitude(filtered);
    let target = spec_target_intensity(mag, config.max_mag as int);
    let delta = spec_delta(mag, previous_mag as int);
    if target == 0 {
        (None, mag as u32)
    } else {
        (
            Some(
                WaveEvent {
                    start_time: now,
                    target_intensity: target as u8,
                    frequency: spec_wave_frequency(config, delta) as u64,
                    sharpness: spec_wave_sharpness(config, delta) as u32,
                },
            ),
            mag as u32,
        )
    }
}

/// The square of an `i32` as a `u64`.
fn square(a: i32) -> (s: u64)
    ensures
        s == a * a,
        s <= 0x4000_0000_0000_0000,
{
    let size: u64 = if a < 0 {
        (-(a as i64)) as u64
    } else {
        a as u64
    };
    proof {
        assert(size * size == a * a && size * size <= 0x8000_0000 * 0x8000_0000) by (nonlinear_arith)
            requires
                size == a || size == -a,
                0 <= size <= 0x8000_0000,
        ;
    }
    size * size
}

/// The Euclidean length of a sample, in the unit of its axes.
pub fn magnitude(v: (i32, i32, i32)) -> (mag: u32)
    ensures
        mag == spec_magnitude(v),
{
    let sum: u64 = square(v.0) + square(v.1) + square(v.2);
    let root: u64 = isqrt(sum);
    root as u32
}

/// The peak intensity of a wave for a magnitude, against the magnitude
/// `max_mag` that maps to full intensity.
pub fn target_intensity(mag: u32, max_mag: u32) -> (target: u8)
    ensures
        target == spec_target_intensity(mag as int, max_mag as int),
{
    if max_mag == 0 {
        if mag > 0 {
            255
        } else {
            0
        }
    } else if mag >= max_mag {
        proof {
            let m = mag as int;
            let c = max_mag as int;
            assert((2 * (m * 255) + c) / (2 * c) >= 255) by (nonlinear_arith)
                requires
                    m >= c,
                    c > 0,
            ;
        }
        255
    } else {
        let scaled: u64 = (2 * (mag as u64 * 255) + max_mag as u64) / (2 * max_mag as u64);
        if scaled > 255 {
            255
        } else {
            scaled as u8
        }
    }
}

/// Turns a filtered sample into at most one wave that starts at `now`, and
/// gives the magnitude of the sample to remember for the next one.
///
/// The wave's frequency and sharpness grow with the change between this
/// magnitude and `previous_mag`.
pub fn spawn_wave(
    config: &SynthesisConfig,
    filtered: (i32, i32, i32),
    previous_mag: u32,
    now: u64,
) -> (spawned: (Option<WaveEvent>, u32))
    ensures
        spawned == spec_spawn(*config, filtered, previous_mag, now),
        spawned.0 matches Some(wave) ==> wave.wf(),
{
    let mag: u32 = magnitude(filtered);
    let target: u8 = target_intensity(mag, config.max_mag);
    if target == 0 {
        return (None, mag);
    }
    let delta: u32 = if mag >= previous_mag {
        mag - previous_mag
    } else {
        previous_mag - mag
    };
    proof {
        let d = delta as int;
        let fs = config.freq_sensitivity as int;
        let ss = config.sharpness_sensitivity as int;
        assert(0 <= fs * d <= 0xFFFF_FFFF * 0xFFFF_FFFF) by (nonlinear_arith)
            requires
                0 <= fs <= 0xFFFF_FFFF,
                0 <= d <= 0xFFFF_FFFF,
        ;
        assert(0 <= ss * d <= 0xFFFF_FFFF * 0xFFFF_FFFF) by (nonlinear_arith)
            requires
                0 <= ss <= 0xFFFF_FFFF,
                0 <= d <= 0xFFFF_FFFF,
        ;
    }
    let frequency: u64 = config.base_freq as u64 + (config.freq_sensitivity as u64 * delta as u64)
        / ONE;
    let raw_sharpness: u64 = config.base_sharpness as u64 + (config.sharpness_sensitivity as u64
        * delta as u64) / ONE;
    let sharpness: u32 = if raw_sharpness < ONE {
        ONE as u32
    } else if raw_sharpness > 5 * ONE {
        (5 * ONE) as u32
    } else {
        raw_sharpness as u32
    };
    (Some(WaveEvent { start_time: now, target_intensity: target, frequency, sharpness }), mag)
}

} // verus!
