//! Properties of the gating policy that hold across frames and operations.

use vstd::prelude::*;
use crate::config::{anomaly_threshold_ppm, pipeline_config_for};
use crate::detector::{
    DetectorView, FrameError, admission, after_frame, confidence, configured, fires, reset_view,
};
use crate::policy::{
    Analysis, DISTURBED_COOLDOWN_MS, MAX_CONFIDENCE, SceneState, VOLATILE_CONFIDENCE,
    VOLATILE_COOLDOWN_MS, cooldown_remaining, moment_count,
};

verus! {

/// A frame in `Calibrating` or `Stable` never fires and has confidence 0,
/// whatever its report says.
pub proof fn lemma_calm_states_never_fire(v: DetectorView, a: Analysis, now: u64)
    requires
        a.scene_state == SceneState::Calibrating || a.scene_state == SceneState::Stable,
    ensures
        !fires(v, a.scene_state, now),
        confidence(v, a, now) == 0,
{
}

/// After a `Volatile` firing at `t`, a `Volatile` frame at `t + dt` is
/// suppressed while `dt` is under the cooldown, and fires again with the
/// fixed confidence once `dt` reaches it.
pub proof fn lemma_volatile_cooldown(
    v: DetectorView,
    first: Analysis,
    second: Analysis,
    t: u64,
    dt: u64,
)
    requires
        first.scene_state == SceneState::Volatile,
        second.scene_state == SceneState::Volatile,
        fires(v, SceneState::Volatile, t),
        t as int + dt as int <= u64::MAX as int,
    ensures
        ({
            let after = after_frame(v, first, t);
            let later = (t + dt) as u64;
            &&& dt < VOLATILE_COOLDOWN_MS ==> !fires(after, SceneState::Volatile, later)
                && confidence(after, second, later) == 0
            &&& dt >= VOLATILE_COOLDOWN_MS ==> fires(after, SceneState::Volatile, later)
                && confidence(after, second, later) == VOLATILE_CONFIDENCE as int
        }),
{
}

/// A `Disturbed` frame touches only the `Disturbed` timer: a `Volatile`
/// frame after it is decided exactly as it would have been without it.
pub proof fn lemma_disturbed_leaves_volatile_timer(
    v: DetectorView,
    disturbed: Analysis,
    volatile: Analysis,
    t: u64,
    later: u64,
)
    requires
        disturbed.scene_state == SceneState::Disturbed,
        volatile.scene_state == SceneState::Volatile,
    ensures
        after_frame(v, disturbed, t).last_volatile_trigger == v.last_volatile_trigger,
        fires(after_frame(v, disturbed, t), SceneState::Volatile, later) == fires(
            v,
            SceneState::Volatile,
            later,
        ),
        confidence(after_frame(v, disturbed, t), volatile, later) == confidence(v, volatile, later),
{
}

/// On `Disturbed`, the confidence never decreases as the number of new and
/// completed significant moments grows, and never exceeds the cap.
pub proof fn lemma_disturbed_confidence_monotone(
    v: DetectorView,
    fewer: Analysis,
    more: Analysis,
    now: u64,
)
    requires
        fewer.scene_state == SceneState::Disturbed,
        more.scene_state == SceneState::Disturbed,
        moment_count(fewer.report) <= moment_count(more.report),
    ensures
        confidence(v, fewer, now) <= confidence(v, more, now),
        confidence(v, more, now) <= MAX_CONFIDENCE as int,
{
    assert(5 * moment_count(fewer.report) <= 5 * moment_count(more.report)) by (nonlinear_arith)
        requires
            moment_count(fewer.report) <= moment_count(more.report),
    ;
}

/// After `reset`, no cooldown remains at any time, and the next frame in a
/// state that may fire does fire.
pub proof fn lemma_reset_clears_cooldowns(v: DetectorView, now: u64)
    ensures
        cooldown_remaining(reset_view(v).last_volatile_trigger, now, VOLATILE_COOLDOWN_MS) == 0,
        cooldown_remaining(reset_view(v).last_disturbed_trigger, now, DISTURBED_COOLDOWN_MS) == 0,
        fires(reset_view(v), SceneState::Disturbed, now),
        v.volatile_triggering ==> fires(reset_view(v), SceneState::Volatile, now),
{
}

/// A change threshold set by `configure` before the first frame is the
/// one the analyzer is built with, as the percentage divided by 100.
pub proof fn lemma_configured_threshold_reaches_analyzer(
    v: DetectorView,
    change_threshold: u32,
    width: u32,
    height: u32,
)
    requires
        v.pipeline is None,
    ensures
        ({
            let c = configured(v, Some(change_threshold));
            &&& admission(c, width, height) == Ok::<_, FrameError>(
                Some(pipeline_config_for(change_threshold, width, height)),
            )
            &&& pipeline_config_for(change_threshold, width, height).behavioral_anomaly_threshold_ppm
                == anomaly_threshold_ppm(change_threshold)
        }),
{
}

} // verus!
