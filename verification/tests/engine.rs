use ursa_minor_haptics::config::SynthesisConfig;
use ursa_minor_haptics::engine::{EngineState, SynthesisEngine};
use ursa_minor_haptics::wave::WaveEvent;

/// The shaped gain of a wave at `now`, in millionths, as a caller works it
/// out: the positive lobe of the sine, raised to the sharpness.
fn shaped_gain(wave: &WaveEvent, now: u64, wave_duration: u64) -> u32 {
    let elapsed = wave.elapsed(now);
    if elapsed > wave_duration {
        return 0;
    }
    let progress = elapsed as f64 / wave_duration as f64;
    let raw_sine = (progress * std::f64::consts::TAU * (wave.frequency as f64 / 1e6)).sin();
    let shaped = if raw_sine < 0.0 { 0.0 } else { raw_sine.powf(wave.sharpness as f64 / 1e6) };
    (shaped * 1e6).round() as u32
}

fn gains(waves: &[WaveEvent], now: u64, wave_duration: u64) -> Vec<u32> {
    waves.iter().map(|wave| shaped_gain(wave, now, wave_duration)).collect()
}

fn cycle(engine: &mut SynthesisEngine, samples: &Vec<(i32, i32, i32)>, now: u64) -> Option<u8> {
    let gains = gains(engine.manager().waves(), now, engine.manager().config().wave_duration);
    engine.cycle(samples, now, &gains)
}


#[test]
fn new_engine_is_idle() {
    let engine = SynthesisEngine::new(SynthesisConfig::default());
    assert_eq!(engine.state(), EngineState::Idle);
    assert!(engine.manager().waves().is_empty());
    assert_eq!(engine.process_interval(), 20_000);
}

#[test]
fn engine_without_a_device_stays_idle() {
    let mut engine = SynthesisEngine::new(SynthesisConfig::default());
    assert!(!engine.start(false));
    assert_eq!(engine.state(), EngineState::Idle);
    assert_eq!(cycle(&mut engine, &vec![(5_000_000, 0, 0)], 0), None);
    assert_eq!(cycle(&mut engine, &vec![], 5_000), None);
    assert!(engine.manager().waves().is_empty());
    assert_eq!(engine.manager().previous_mag(), 0);
    assert_eq!(engine.stop(), None);
}

#[test]
fn engine_with_a_device_runs() {
    let mut engine = SynthesisEngine::new(SynthesisConfig::default());
    assert!(engine.start(true));
    assert_eq!(engine.state(), EngineState::Running);
    assert!(engine.start(false));
    assert_eq!(engine.state(), EngineState::Running);
}

#[test]
fn cycle_takes_the_samples_in_order_then_ticks() {
    let mut engine = SynthesisEngine::new(SynthesisConfig::default());
    engine.start(true);
    let write = cycle(&mut engine, &vec![(5_000_000, 0, 0), (0, 0, 0), (0, 0, 0)], 1_000);
    assert_eq!(write, None);
    let waves = engine.manager().waves();
    assert_eq!(waves.len(), 3);
    assert_eq!(waves[0].target_intensity, 255);
    assert_eq!(waves[1].target_intensity, 77);
    assert_eq!(waves[2].target_intensity, 69);
    assert!(waves.iter().all(|wave| wave.start_time == 1_000));
    assert_eq!(engine.manager().previous_mag(), 405_000);
}

#[test]
fn cycle_without_samples_still_ticks() {
    let mut engine = SynthesisEngine::new(SynthesisConfig::default());
    engine.start(true);
    assert_eq!(cycle(&mut engine, &vec![(5_000_000, 0, 0)], 0), None);
    assert_eq!(cycle(&mut engine, &vec![], 5_000), Some(255));
    engine.write_done(255, true);
    assert_eq!(cycle(&mut engine, &vec![], 25_000), None);
    assert_eq!(cycle(&mut engine, &vec![], 200_001), Some(0));
    engine.write_done(0, true);
    assert!(engine.manager().waves().is_empty());
    assert_eq!(cycle(&mut engine, &vec![], 220_001), None);
}

#[test]
fn failed_write_is_tried_again() {
    let mut engine = SynthesisEngine::new(SynthesisConfig::default());
    engine.start(true);
    cycle(&mut engine, &vec![(5_000_000, 0, 0)], 0);
    assert_eq!(cycle(&mut engine, &vec![], 5_000), Some(255));
    engine.write_done(255, false);
    assert_eq!(engine.manager().last_intensity(), 0);
    assert_eq!(cycle(&mut engine, &vec![], 25_000), Some(255));
    engine.write_done(255, true);
    assert_eq!(engine.manager().last_intensity(), 255);
    assert_eq!(cycle(&mut engine, &vec![], 45_000), None);
}

#[test]
fn failed_silence_is_tried_again() {
    let mut engine = SynthesisEngine::new(SynthesisConfig::default());
    engine.start(true);
    cycle(&mut engine, &vec![(5_000_000, 0, 0)], 0);
    assert_eq!(cycle(&mut engine, &vec![], 5_000), Some(255));
    engine.write_done(255, true);
    assert_eq!(cycle(&mut engine, &vec![], 205_000), Some(0));
    engine.write_done(0, false);
    assert_eq!(cycle(&mut engine, &vec![], 225_000), Some(0));
    engine.write_done(0, true);
    assert_eq!(cycle(&mut engine, &vec![], 245_000), None);
}

#[test]
fn stop_asks_for_silence_once() {
    let mut engine = SynthesisEngine::new(SynthesisConfig::default());
    engine.start(true);
    cycle(&mut engine, &vec![(5_000_000, 0, 0)], 0);
    assert_eq!(cycle(&mut engine, &vec![], 5_000), Some(255));
    engine.write_done(255, true);
    assert_eq!(engine.stop(), Some(0));
    engine.write_done(0, true);
    assert_eq!(engine.state(), EngineState::Idle);
    assert_eq!(engine.stop(), None);
    assert_eq!(cycle(&mut engine, &vec![(5_000_000, 0, 0)], 25_000), None);
    assert!(engine.manager().waves().is_empty());
    assert_eq!(engine.manager().last_intensity(), 0);
}

#[test]
fn stop_asks_for_silence_even_when_the_motor_is_silent() {
    let mut engine = SynthesisEngine::new(SynthesisConfig::default());
    engine.start(true);
    assert_eq!(engine.stop(), Some(0));
    assert_eq!(engine.state(), EngineState::Idle);
}

#[test]
fn restarted_engine_is_as_new() {
    let mut engine = SynthesisEngine::new(SynthesisConfig::default());
    engine.start(true);
    cycle(&mut engine, &vec![(5_000_000, 0, 0)], 0);
    engine.stop();
    assert!(engine.start(true));
    assert_eq!(cycle(&mut engine, &vec![], 5_000), None);
    assert_eq!(cycle(&mut engine, &vec![(5_000_000, 0, 0)], 10_000), None);
    assert_eq!(engine.manager().waves().len(), 1);
    assert_eq!(engine.manager().waves()[0].target_intensity, 255);
    assert_eq!(cycle(&mut engine, &vec![], 15_000), Some(255));
}

#[test]
fn gains_belong_to_the_waves_held_before_the_cycle() {
    let mut engine = SynthesisEngine::new(SynthesisConfig::default());
    engine.start(true);
    assert_eq!(engine.cycle(&vec![(5_000_000, 0, 0)], 0, &vec![]), None);
    assert_eq!(engine.cycle(&vec![(0, 0, 0)], 5_000, &vec![1_000_000]), Some(255));
    engine.write_done(255, true);
    assert_eq!(engine.manager().waves().len(), 2);
    assert_eq!(engine.cycle(&vec![], 25_000, &vec![500_000, 1_000_000]), Some(128));
    assert_eq!(engine.cycle(&vec![], 25_000, &vec![0, 1_000_000]), Some(77));
    assert_eq!(engine.cycle(&vec![], 25_000, &vec![0]), Some(0));
}
