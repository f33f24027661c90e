//! What holds of the engine as a whole, proved from the definitions of its
//! parts.

use vstd::prelude::*;
use crate::config::SynthesisConfig;
use crate::engine::{
    spec_engine_cycle, spec_engine_cycle_write, spec_engine_stop, spec_engine_stop_write,
    EngineState, EngineView,
};
use crate::filter::{spec_filter_fresh, spec_filter_output, spec_filter_step};
use crate::fixed::{lemma_isqrt_is, ONE};
use crate::manager::{
    spec_active, spec_after_confirm, spec_after_update, spec_all_wf, spec_decide, spec_feed,
    spec_feed_all, spec_fresh, spec_gain_at, spec_is_active, spec_merged, spec_update_write,
    ManagerState,
};
use crate::spawner::{spec_magnitude, spec_spawn, spec_target_intensity};
use crate::wave::WaveEvent;

verus! {

/// A manager at rest: no waves, a filter that has only seen zeros, and a last
/// magnitude of zero.
pub open spec fn spec_at_rest(m: ManagerState) -> bool {
    &&& m.waves == Seq::<WaveEvent>::empty()
    &&& m.filter == spec_filter_fresh(m.config.high_pass_alpha)
    &&& m.previous_mag == 0
}

/// Every sample of the run is zero on all three axes.
pub open spec fn spec_all_zero(samples: Seq<(i32, i32, i32)>) -> bool {
    forall|i: int| 0 <= i < samples.len() ==> samples[i] == (0i32, 0i32, 0i32)
}

/// A filter that has only seen zeros answers a zero sample with zero, and
/// stays as it was.
pub proof fn law_filter_keeps_zero(alpha: u32)
    ensures
        spec_filter_output(spec_filter_fresh(alpha), (0i32, 0i32, 0i32)) == (0i32, 0i32, 0i32),
        spec_filter_step(spec_filter_fresh(alpha), (0i32, 0i32, 0i32)) == spec_filter_fresh(alpha),
{
    assert((alpha as int) * (0int + 0 - 0) == 0) by (nonlinear_arith);
}

/// A magnitude of zero maps to intensity zero and spawns no wave; a
/// magnitude equal to a ceiling above zero maps to intensity 255.
pub proof fn law_intensity_scale_ends(
    config: SynthesisConfig,
    filtered: (i32, i32, i32),
    previous_mag: u32,
    now: u64,
)
    ensures
        spec_target_intensity(0, config.max_mag as int) == 0,
        config.max_mag > 0 ==> spec_target_intensity(config.max_mag as int, config.max_mag as int)
            == 255,
        spec_magnitude(filtered) == 0 ==> spec_spawn(config, filtered, previous_mag, now).0 is None,
        spec_magnitude((0i32, 0i32, 0i32)) == 0,
{
    let c = config.max_mag as int;
    if c > 0 {
        assert((2 * (0 * 255) + c) / (2 * c) == 0) by (nonlinear_arith)
            requires
                c > 0,
        ;
        assert((2 * (c * 255) + c) / (2 * c) == 255) by (nonlinear_arith)
            requires
                c > 0,
        ;
    }
    lemma_isqrt_is(0, 0);
}

/// A new manager is at rest, and its motor is silent.
pub proof fn law_new_manager_is_at_rest(config: SynthesisConfig)
    ensures
        spec_at_rest(spec_fresh(config)),
        spec_fresh(config).last_intensity == 0,
{
}

/// A zero sample leaves a manager at rest as it is, whenever it arrives: the
/// filter answers with zero and no wave is spawned.
pub proof fn law_rest_survives_zero_sample(m: ManagerState, now: u64)
    requires
        spec_at_rest(m),
    ensures
        spec_filter_output(m.filter, (0i32, 0i32, 0i32)) == (0i32, 0i32, 0i32),
        spec_feed(m, (0i32, 0i32, 0i32), now) == m,
{
    law_filter_keeps_zero(m.config.high_pass_alpha);
    law_intensity_scale_ends(m.config, (0i32, 0i32, 0i32), m.previous_mag, now);
}

/// A tick leaves a manager at rest as it is, whatever gains it is given. It
/// asks for a write only to silence a motor that was last set to a value
/// above zero.
pub proof fn law_rest_survives_tick(m: ManagerState, now: u64, gains: Seq<u32>)
    requires
        spec_at_rest(m),
    ensures
        spec_after_update(m, now) == m,
        spec_update_write(m, now, gains) == if m.last_intensity != 0 {
            Some(0u8)
        } else {
            None
        },
{
    reveal(Seq::filter);
    assert(spec_active(m.waves, now, m.config.wave_duration) =~= m.waves);
}

/// A stream of zero samples into a manager at rest, such as a new one, leaves
/// the filter output at zero and never spawns a wave: the filter answers
/// every sample of the stream with zero, and after any number of them the
/// manager is as it was.
pub proof fn law_zero_stream_is_silent(m: ManagerState, samples: Seq<(i32, i32, i32)>, now: u64)
    requires
        spec_at_rest(m),
        spec_all_zero(samples),
    ensures
        spec_feed_all(m, samples, now) == m,
        forall|k: int|
            0 <= k < samples.len() ==> spec_filter_output(
                (#[trigger] spec_feed_all(m, samples.take(k), now)).filter,
                samples[k],
            ) == (0i32, 0i32, 0i32),
    decreases samples.len(),
{
    if samples.len() > 0 {
        law_zero_stream_is_silent(m, samples.drop_last(), now);
        law_rest_survives_zero_sample(m, now);
    }
    assert forall|k: int| 0 <= k < samples.len() implies spec_filter_output(
        (#[trigger] spec_feed_all(m, samples.take(k), now)).filter,
        samples[k],
    ) == (0i32, 0i32, 0i32) by {
        let prefix = samples.take(k);
        if k == samples.len() - 1 {
            assert(prefix =~= samples.drop_last());
        } else {
            assert(prefix =~= samples.drop_last().take(k));
        }
        law_rest_survives_zero_sample(m, now);
    }
}

/// A running engine whose manager is at rest and whose motor is silent stays
/// so through a cycle of zero samples, and asks for no write.
pub proof fn law_zero_cycle_is_silent(
    e: EngineView,
    samples: Seq<(i32, i32, i32)>,
    now: u64,
    gains: Seq<u32>,
)
    requires
        spec_at_rest(e.manager),
        e.manager.last_intensity == 0,
        spec_all_zero(samples),
    ensures
        spec_engine_cycle(e, samples, now) == e,
        spec_engine_cycle_write(e, samples, now, gains) is None,
{
    law_zero_stream_is_silent(e.manager, samples, now);
    law_rest_survives_tick(e.manager, now, gains);
}

/// A wave has an intensity from its start to the end of its lifetime, and
/// none after it. While it lasts, a gain of zero gives the intensity zero, a
/// gain of one gives the target intensity, and no gain of the unit interval
/// gives more than the target.
pub proof fn law_wave_lifetime(wave: WaveEvent, now: u64, wave_duration: u64, gain: u32)
    ensures
        wave.spec_current_intensity(wave.start_time, wave_duration, 0) == Some(0u8),
        now > wave.start_time + wave_duration ==> wave.spec_current_intensity(
            now,
            wave_duration,
            gain,
        ) is None,
        now <= wave.start_time + wave_duration ==> wave.spec_current_intensity(
            now,
            wave_duration,
            gain,
        ) == Some(wave.spec_level(gain)),
        wave.spec_level(0) == 0,
        wave.spec_level(ONE as u32) == wave.target_intensity,
        gain <= ONE ==> wave.spec_level(gain) <= wave.target_intensity,
{
    let target = wave.target_intensity as int;
    assert(0 * target == 0);
    assert(wave.spec_level(0) == 0);
    assert(!wave.spec_expired(wave.start_time, wave_duration));
    assert(1_000_000 * target == target * 1_000_000);
    if gain <= ONE {
        assert(0 <= gain * target <= 1_000_000 * target) by (nonlinear_arith)
            requires
                0 <= gain <= 1_000_000,
                0 <= target,
        ;
    }
}

/// The merged intensity is the maximum of the intensities of the waves that
/// have not expired, each taken at its own gain: no such wave is above it,
/// and it is the intensity of one of them unless it is zero.
pub proof fn law_merged_is_maximum(
    waves: Seq<WaveEvent>,
    gains: Seq<u32>,
    now: u64,
    wave_duration: u64,
)
    ensures
        forall|i: int|
            0 <= i < waves.len() ==> (#[trigger] waves[i].spec_current_intensity(
                now,
                wave_duration,
                spec_gain_at(gains, i),
            ) matches Some(level) ==> level <= spec_merged(waves, gains, now, wave_duration)),
        spec_merged(waves, gains, now, wave_duration) == 0 || exists|i: int|
            0 <= i < waves.len() && #[trigger] waves[i].spec_current_intensity(
                now,
                wave_duration,
                spec_gain_at(gains, i),
            ) == Some(spec_merged(waves, gains, now, wave_duration)),
    decreases waves.len(),
{
    if waves.len() > 0 {
        let rest = waves.drop_last();
        law_merged_is_maximum(rest, gains, now, wave_duration);
        let merged = spec_merged(waves, gains, now, wave_duration);
        let merged_rest = spec_merged(rest, gains, now, wave_duration);
        assert forall|i: int| 0 <= i < waves.len() implies (#[trigger] waves[i].spec_current_intensity(
            now,
            wave_duration,
            spec_gain_at(gains, i),
        ) matches Some(level) ==> level <= merged) by {
            if i < rest.len() {
                assert(rest[i] == waves[i]);
            }
        }
        if merged != 0 {
            if merged == merged_rest {
                let j = choose|j: int|
                    0 <= j < rest.len() && #[trigger] rest[j].spec_current_intensity(
                        now,
                        wave_duration,
                        spec_gain_at(gains, j),
                    ) == Some(merged_rest);
                assert(waves[j] == rest[j]);
            } else {
                assert(waves[waves.len() - 1] == waves.last());
            }
        }
    }
}

/// A tick leaves no expired wave behind.
pub proof fn law_eviction_leaves_no_expired_wave(waves: Seq<WaveEvent>, now: u64, wave_duration: u64)
    ensures
        forall|i: int|
            0 <= i < spec_active(waves, now, wave_duration).len() ==> !(#[trigger] spec_active(
                waves,
                now,
                wave_duration,
            )[i]).spec_expired(now, wave_duration),
{
    let pred = spec_is_active(now, wave_duration);
    assert forall|i: int| 0 <= i < spec_active(waves, now, wave_duration).len() implies !(
    #[trigger] spec_active(waves, now, wave_duration)[i]).spec_expired(now, wave_duration) by {
        waves.lemma_filter_pred(pred, i);
    }
}

/// A new manager holds only well-formed waves, and samples and ticks keep it
/// so: every wave ever held has a shaping exponent between one and five.
pub proof fn law_waves_stay_well_formed(m: ManagerState, sample: (i32, i32, i32), now: u64)
    requires
        spec_all_wf(m.waves),
    ensures
        spec_all_wf(spec_fresh(m.config).waves),
        spec_all_wf(spec_feed(m, sample, now).waves),
        spec_all_wf(spec_after_update(m, now).waves),
{
    let kept = spec_after_update(m, now).waves;
    assert forall|i: int| 0 <= i < kept.len() implies (#[trigger] kept[i]).wf() by {
        assert(kept.contains(kept[i]));
        m.waves.lemma_filter_contains_rev(spec_is_active(now, m.config.wave_duration), kept[i]);
    }
}

/// The motor is written only when the merged intensity differs from the value
/// it was last set to: a write carries the merged intensity, and a tick whose
/// merged intensity equals the last value asks for nothing.
pub proof fn law_write_only_on_change(merged: u8, last_intensity: u8, min_motor_intensity: u8)
    ensures
        spec_decide(merged, last_intensity, min_motor_intensity) matches Some(value) ==> value
            == merged && value != last_intensity,
        spec_decide(merged, merged, min_motor_intensity) is None,
        0 < merged < min_motor_intensity ==> spec_decide(merged, last_intensity, min_motor_intensity)
            is None,
        merged == 0 && last_intensity != 0 ==> spec_decide(merged, last_intensity, min_motor_intensity)
            == Some(0u8),
{
}

/// Once the motor took a value, a tick that merges to the same value asks for
/// no write.
pub proof fn law_repeated_value_is_not_resent(
    m: ManagerState,
    first: u64,
    first_gains: Seq<u32>,
    second: u64,
    second_gains: Seq<u32>,
)
    requires
        spec_update_write(m, first, first_gains) matches Some(value) && spec_merged(
            spec_after_update(m, first).waves,
            second_gains,
            second,
            m.config.wave_duration,
        ) == value,
    ensures
        spec_update_write(
            spec_after_confirm(
                spec_after_update(m, first),
                spec_update_write(m, first, first_gains).unwrap(),
            ),
            second,
            second_gains,
        ) is None,
{
}

/// A value that the device did not take is asked for again: without a
/// confirmation, a tick that merges to the same value repeats the write.
pub proof fn law_failed_write_is_retried(
    m: ManagerState,
    first: u64,
    first_gains: Seq<u32>,
    second: u64,
    second_gains: Seq<u32>,
)
    requires
        spec_update_write(m, first, first_gains) is Some,
        spec_merged(
            spec_after_update(m, first).waves,
            second_gains,
            second,
            m.config.wave_duration,
        ) == spec_merged(m.waves, first_gains, first, m.config.wave_duration),
    ensures
        spec_update_write(spec_after_update(m, first), second, second_gains) == spec_update_write(
            m,
            first,
            first_gains,
        ),
{
}

/// Stopping a running engine asks for exactly one write, of zero, and leaves
/// an engine that asks for nothing more.
pub proof fn law_stop_silences(
    e: EngineView,
    samples: Seq<(i32, i32, i32)>,
    now: u64,
    gains: Seq<u32>,
)
    requires
        e.state == EngineState::Running,
    ensures
        spec_engine_stop_write(e) == Some(0u8),
        spec_engine_stop(e).state == EngineState::Idle,
        spec_engine_cycle_write(spec_engine_stop(e), samples, now, gains) is None,
        spec_engine_stop_write(spec_engine_stop(e)) is None,
        spec_engine_cycle(spec_engine_stop(e), samples, now) == spec_engine_stop(e),
{
}

} // verus!
