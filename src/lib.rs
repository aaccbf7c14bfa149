//! A real-time gate that decides, frame by frame, whether an expensive
//! downstream action should fire, from the scene state that an external
//! analyzer reports for each frame.
//!
//! Frames arrive as base64-encoded images and are decoded to grayscale
//! (`decode`). The analyzer is built lazily for the first frame's size
//! (`config`). Its verdict on each frame is gated per scene state by
//! independent cooldowns (`policy`, `detector`). Properties that span
//! several frames or operations are proved in `laws`.

mod config;
mod decode;
mod detector;
mod laws;
mod policy;

pub use config::{
    DEFAULT_CHANGE_THRESHOLD, NOMINAL_FRAME_INTERVAL_MS, PipelineConfig, anomaly_threshold_ppm,
    pipeline_config_for,
};
pub use decode::{
    FrameDecodeError, GrayFrame, base64_decoded, base64_group, base64_value, decoded_frame,
    luma8_image,
};
pub use detector::{
    DetectorView, FrameChangeDetector, FrameError, PreparedFrame, admission, after_admission,
    after_frame, confidence, configured, fires, initial_view, or_default, reset_view,
};
pub use laws::{
    lemma_calm_states_never_fire, lemma_configured_threshold_reaches_analyzer,
    lemma_disturbed_confidence_monotone, lemma_disturbed_leaves_volatile_timer,
    lemma_reset_clears_cooldowns, lemma_volatile_cooldown,
};
pub use policy::{
    Analysis, BASE_CONFIDENCE, DISTURBED_COOLDOWN_MS, MAX_CONFIDENCE, MOMENT_BONUS, Report,
    SceneState, VOLATILE_CONFIDENCE, VOLATILE_COOLDOWN_MS, capped_u64, cooldown_elapsed,
    cooldown_over, cooldown_remaining, disturbed_confidence, moment_count, remaining_cooldown,
    scene_label, significance_confidence,
};
