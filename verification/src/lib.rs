//! Haptic synthesis for a vibration motor: acceleration samples in, motor
//! intensities out.
//!
//! A sample passes a high-pass filter ([`filter`]) and spawns at most one
//! wave ([`spawner`]), a shaped pulse that lives for a fixed time ([`wave`]).
//! The manager ([`manager`]) keeps the active waves, merges them by their
//! maximum and decides when the motor needs a new value. The engine
//! ([`engine`]) is the loop around the manager, as a state machine that the
//! caller drives with its own clock, queue ([`queue`]) and device
//! ([`report`]). What holds of all of it together is proved in [`laws`].
//!
//! The crate is integer only. Fractional quantities are counted in
//! millionths of their unit ([`fixed`]), and instants in microseconds since a
//! moment the caller picks. The shape of a wave, a sine lobe raised to a
//! power, is floating-point work and stays with the caller, who hands in the
//! gain of each wave at each tick.

pub mod config;
pub mod engine;
pub mod filter;
pub mod fixed;
pub mod laws;
pub mod manager;
pub mod queue;
pub mod report;
pub mod selftest;
pub mod spawner;
pub mod telemetry;
pub mod wave;
