//! The tunable parameters of the synthesis engine.

use vstd::prelude::*;

verus! {

/// The parameters of one engine, fixed when the engine is built.
///
/// Durations are in microseconds; every other fractional quantity is in
/// millionths of its unit.
#[derive(Clone, Copy, Debug, PartialEq, Eq)]
pub struct SynthesisConfig {
    /// Time between two ticks of the synthesis loop, in microseconds.
    pub process_interval: u64,
    /// Lifetime of every wave, in microseconds.
    pub wave_duration: u64,
    /// Coefficient of the high-pass filter, in millionths.
    pub high_pass_alpha: u32,
    /// Magnitude that maps to full intensity, in millionths of a g.
    pub max_mag: u32,
    /// Smallest nonzero intensity worth sending to the motor.
    pub min_motor_intensity: u8,
    /// Cycles per wave of a stimulus that does not change, in millionths.
    pub base_freq: u32,
    /// Cycles per wave added per g of change in magnitude, in millionths.
    pub freq_sensitivity: u32,
    /// Shaping exponent of a stimulus that does not change, in millionths.
    pub base_sharpness: u32,
    /// Shaping exponent added per g of change in magnitude, in millionths.
    pub sharpness_sensitivity: u32,
    /// Most samples that wait for one cycle; of a longer burst only the
    /// latest are taken.
    pub sample_capacity: usize,
}

impl Default for SynthesisConfig {
    /// A 50 Hz loop, waves of 200 ms, a filter coefficient of 0.9, full
    /// intensity at 1.5 g, a motor threshold of 3, one cycle and a shaping
    /// exponent of one, each growing by two per g of change, and room for 64
    /// samples per cycle.
    fn default() -> (config: Self)
        ensures
            config == (SynthesisConfig {
                process_interval: 20_000,
                wave_duration: 200_000,
                high_pass_alpha: 900_000,
                max_mag: 1_500_000,
                min_motor_intensity: 3,
                base_freq: 1_000_000,
                freq_sensitivity: 2_000_000,
                base_sharpness: 1_000_000,
                sharpness_sensitivity: 2_000_000,
                sample_capacity: 64,
            }),
    {
        SynthesisConfig {
            process_interval: 20_000,
            wave_duration: 200_000,
            high_pass_alpha: 900_000,
            max_mag: 1_500_000,
            min_motor_intensity: 3,
            base_freq: 1_000_000,
            freq_sensitivity: 2_000_000,
            base_sharpness: 1_000_000,
            sharpness_sensitivity: 2_000_000,
            sample_capacity: 64,
        }
    }
}

} // verus!
