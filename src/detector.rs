//! The trigger decision engine: per-state cooldown timers, the lifecycle of
//! the analyzer's configuration, and the decision made for each frame.

use vstd::prelude::*;
use crate::config::{
    DEFAULT_CHANGE_THRESHOLD, NOMINAL_FRAME_INTERVAL_MS, PipelineConfig, pipeline_config_for,
};
use crate::decode::{
    FrameDecodeError, GrayFrame, base64_decode, decoded_frame, load_luma8,
};
use crate::policy::{
    Analysis, DISTURBED_COOLDOWN_MS, SceneState, VOLATILE_CONFIDENCE, VOLATILE_COOLDOWN_MS,
    capped_u64, cooldown_elapsed, cooldown_over, cooldown_remaining, disturbed_confidence,
    moment_count, remaining_cooldown, scene_label, significance_confidence,
};

verus! {

/// Why a frame was not handed to the analyzer.
#[derive(Clone, Copy, Debug, PartialEq, Eq, Structural)]
pub enum FrameError {
    /// The encoded frame could not be decoded.
    Decode(FrameDecodeError),
    /// The frame's size differs from the size the analyzer was built for.
    DimensionMismatch { expected_width: u32, expected_height: u32, width: u32, height: u32 },
}

/// A decoded frame, and the configuration of the analyzer to construct
/// before analyzing it, if none exists yet.
#[derive(Debug)]
pub struct PreparedFrame {
    pub frame: GrayFrame,
    pub new_pipeline: Option<PipelineConfig>,
}

/// Decides, frame by frame, whether the downstream action fires.
pub struct FrameChangeDetector {
    pipeline: Option<PipelineConfig>,
    change_threshold: u32,
    volatile_triggering: bool,
    frame_count: u64,
    last_volatile_trigger: Option<u64>,
    last_disturbed_trigger: Option<u64>,
}

/// What a detector holds. `pipeline` is the configuration of the analyzer
/// once it exists; thresholds are in hundredths of a percent; a trigger
/// time of `None` means that state never fired since construction or reset.
pub struct DetectorView {
    pub pipeline: Option<PipelineConfig>,
    pub change_threshold: u32,
    pub volatile_triggering: bool,
    pub frame_count: u64,
    pub last_volatile_trigger: Option<u64>,
    pub last_disturbed_trigger: Option<u64>,
}

impl View for FrameChangeDetector {
    type V = DetectorView;

    closed spec fn view(&self) -> DetectorView {
        DetectorView {
            pipeline: self.pipeline,
            change_threshold: self.change_threshold,
            volatile_triggering: self.volatile_triggering,
            frame_count: self.frame_count,
            last_volatile_trigger: self.last_volatile_trigger,
            last_disturbed_trigger: self.last_disturbed_trigger,
        }
    }
}

/// A value, or the default where it is absent.
pub open spec fn or_default<T>(o: Option<T>, default: T) -> T {
    match o {
        Some(x) => x,
        None => default,
    }
}

/// A fresh detector: no analyzer yet, no frames, no firings.
pub open spec fn initial_view(change_threshold: Option<u32>) -> DetectorView {
    DetectorView {
        pipeline: None,
        change_threshold: or_default(change_threshold, DEFAULT_CHANGE_THRESHOLD),
        volatile_triggering: true,
        frame_count: 0,
        last_volatile_trigger: None,
        last_disturbed_trigger: None,
    }
}

/// Whether a frame in scene state `s` at time `now` fires.
pub open spec fn fires(v: DetectorView, s: SceneState, now: u64) -> bool {
    match s {
        SceneState::Calibrating => false,
        SceneState::Stable => false,
        SceneState::Volatile => v.volatile_triggering && cooldown_over(
            v.last_volatile_trigger,
            now,
            VOLATILE_COOLDOWN_MS,
        ),
        SceneState::Disturbed => cooldown_over(v.last_disturbed_trigger, now, DISTURBED_COOLDOWN_MS),
    }
}

/// The confidence reported for a frame: 0 unless it fires.
pub open spec fn confidence(v: DetectorView, a: Analysis, now: u64) -> int {
    if !fires(v, a.scene_state, now) {
        0
    } else if a.scene_state == SceneState::Volatile {
        VOLATILE_CONFIDENCE as int
    } else {
        disturbed_confidence(moment_count(a.report))
    }
}

/// The detector after deciding on a frame: one more frame counted (the
/// count stays at `u64::MAX` once there), and the timer of the state that
/// fired, if any, set to `now`.
pub open spec fn after_frame(v: DetectorView, a: Analysis, now: u64) -> DetectorView {
    let fired = fires(v, a.scene_state, now);
    DetectorView {
        frame_count: if v.frame_count < u64::MAX {
            (v.frame_count + 1) as u64
        } else {
            v.frame_count
        },
        last_volatile_trigger: if fired && a.scene_state == SceneState::Volatile {
            Some(now)
        } else {
            v.last_volatile_trigger
        },
        last_disturbed_trigger: if fired && a.scene_state == SceneState::Disturbed {
            Some(now)
        } else {
            v.last_disturbed_trigger
        },
        ..v
    }
}

/// Whether a frame of `width` by `height` may go to the analyzer, and the
/// configuration of the analyzer to construct first, if none exists yet.
pub open spec fn admission(v: DetectorView, width: u32, height: u32) -> Result<
    Option<PipelineConfig>,
    FrameError,
> {
    match v.pipeline {
        None => Ok(Some(pipeline_config_for(v.change_threshold, width, height))),
        Some(c) => if c.image_width == width && c.image_height == height {
            Ok(None)
        } else {
            Err(
                FrameError::DimensionMismatch {
                    expected_width: c.image_width,
                    expected_height: c.image_height,
                    width,
                    height,
                },
            )
        },
    }
}

/// The detector after admitting a frame: it holds the configuration of a
/// newly constructed analyzer.
pub open spec fn after_admission(v: DetectorView, width: u32, height: u32) -> DetectorView {
    match admission(v, width, height) {
        Ok(Some(c)) => DetectorView { pipeline: Some(c), ..v },
        _ => v,
    }
}

/// The detector after `configure`: a given change threshold replaces the
/// old one; nothing else changes.
pub open spec fn configured(v: DetectorView, change_threshold: Option<u32>) -> DetectorView {
    DetectorView { change_threshold: or_default(change_threshold, v.change_threshold), ..v }
}

/// The detector after `reset`: no frames counted and no state has fired.
pub open spec fn reset_view(v: DetectorView) -> DetectorView {
    DetectorView { frame_count: 0, last_volatile_trigger: None, last_disturbed_trigger: None, ..v }
}

impl FrameChangeDetector {
    /// A detector whose analyzer will be built with `change_threshold`
    /// (hundredths of a percent; 5% if absent). The buffer duration and the
    /// frame interval are accepted and not used.
    pub fn new(
        _buffer_duration_ms: Option<u64>,
        change_threshold: Option<u32>,
        _frame_interval_ms: Option<u64>,
    ) -> (r: Self)
        ensures
            r@ == initial_view(change_threshold),
    {
        FrameChangeDetector {
            pipeline: None,
            change_threshold: match change_threshold {
                Some(t) => t,
                None => DEFAULT_CHANGE_THRESHOLD,
            },
            volatile_triggering: true,
            frame_count: 0,
            last_volatile_trigger: None,
            last_disturbed_trigger: None,
        }
    }

    /// Decodes base64 text into raw image bytes, then the image into one
    /// byte of luminance per pixel.
    pub fn decode_frame(&self, frame_b64: &str) -> (r: Result<GrayFrame, FrameDecodeError>)
        ensures
            match r {
                Ok(frame) => {
                    &&& decoded_frame(frame_b64@) == Ok::<_, FrameDecodeError>(
                        (frame.pixels@, frame.width, frame.height),
                    )
                    &&& frame.pixels@.len() == frame.width * frame.height
                },
                Err(e) => decoded_frame(frame_b64@) == Err::<(Seq<u8>, u32, u32), _>(e),
            },
    {
        let bytes = match base64_decode(frame_b64) {
            Ok(bytes) => bytes,
            Err(_) => return Err(FrameDecodeError::Encoding),
        };
        match load_luma8(bytes.as_slice()) {
            Ok((pixels, width, height)) => Ok(GrayFrame { pixels, width, height }),
            Err(_) => Err(FrameDecodeError::ImageFormat),
        }
    }

    /// Admits a frame of `width` by `height` pixels. The first frame fixes
    /// the analyzer's size: its configuration is returned, to construct the
    /// analyzer with, and kept. A later frame of another size is refused.
    pub fn admit_frame(&mut self, width: u32, height: u32) -> (r: Result<
        Option<PipelineConfig>,
        FrameError,
    >)
        ensures
            r == admission(old(self)@, width, height),
            final(self)@ == after_admission(old(self)@, width, height),
    {
        match self.pipeline {
            None => {
                let config = PipelineConfig::for_frame(self.change_threshold, width, height);
                self.pipeline = Some(config);
                Ok(Some(config))
            },
            Some(c) => {
                if c.image_width == width && c.image_height == height {
                    Ok(None)
                } else {
                    Err(
                        FrameError::DimensionMismatch {
                            expected_width: c.image_width,
                            expected_height: c.image_height,
                            width,
                            height,
                        },
                    )
                }
            },
        }
    }

    /// Decodes a frame and admits it. Nothing changes where decoding fails.
    pub fn prepare_frame(&mut self, frame_b64: &str) -> (r: Result<PreparedFrame, FrameError>)
        ensures
            match decoded_frame(frame_b64@) {
                Err(e) => r == Err::<PreparedFrame, _>(FrameError::Decode(e)) && final(self)@
                    == old(self)@,
                Ok((pixels, width, height)) => {
                    &&& final(self)@ == after_admission(old(self)@, width, height)
                    &&& match (admission(old(self)@, width, height), r) {
                        (Ok(new_pipeline), Ok(p)) => {
                            &&& p.frame.pixels@ == pixels
                            &&& p.frame.width == width
                            &&& p.frame.height == height
                            &&& p.new_pipeline == new_pipeline
                        },
                        (Err(e), Err(f)) => e == f,
                        _ => false,
                    }
                },
            },
    {
        let frame = match self.decode_frame(frame_b64) {
            Ok(frame) => frame,
            Err(e) => return Err(FrameError::Decode(e)),
        };
        match self.admit_frame(frame.width, frame.height) {
            Ok(new_pipeline) => Ok(PreparedFrame { frame, new_pipeline }),
            Err(e) => Err(e),
        }
    }

    /// Decides on a frame that the analyzer judged to be `analysis`, at
    /// `now_ms` milliseconds. Returns whether the action fires, its
    /// confidence in percent and the number of tracked objects.
    pub fn process_frame(&mut self, analysis: &Analysis, now_ms: u64) -> (r: (bool, u32, usize))
        ensures
            r.0 == fires(old(self)@, analysis.scene_state, now_ms),
            r.1 as int == confidence(old(self)@, *analysis, now_ms),
            r.2 == analysis.tracked_object_count,
            final(self)@ == after_frame(old(self)@, *analysis, now_ms),
    {
        let (fire, confidence): (bool, u32) = match analysis.scene_state {
            SceneState::Calibrating => (false, 0),
            SceneState::Stable => (false, 0),
            SceneState::Volatile => {
                if self.volatile_triggering && cooldown_elapsed(
                    self.last_volatile_trigger,
                    now_ms,
                    VOLATILE_COOLDOWN_MS,
                ) {
                    self.last_volatile_trigger = Some(now_ms);
                    (true, VOLATILE_CONFIDENCE)
                } else {
                    (false, 0)
                }
            },
            SceneState::Disturbed => {
                if cooldown_elapsed(self.last_disturbed_trigger, now_ms, DISTURBED_COOLDOWN_MS) {
                    self.last_disturbed_trigger = Some(now_ms);
                    (true, significance_confidence(&analysis.report))
                } else {
                    (false, 0)
                }
            },
        };
        self.frame_count = self.frame_count.saturating_add(1);
        (fire, confidence, analysis.tracked_object_count)
    }

    /// As `process_frame`, with the scene state's label for logging.
    pub fn process_frame_with_state(&mut self, analysis: &Analysis, now_ms: u64) -> (r: (
        bool,
        u32,
        usize,
        String,
    ))
        ensures
            r.0 == fires(old(self)@, analysis.scene_state, now_ms),
            r.1 as int == confidence(old(self)@, *analysis, now_ms),
            r.2 == analysis.tracked_object_count,
            r.3@ == scene_label(analysis.scene_state),
            final(self)@ == after_frame(old(self)@, *analysis, now_ms),
    {
        let (fire, confidence, objects) = self.process_frame(analysis, now_ms);
        (fire, confidence, objects, analysis.scene_state.label())
    }

    /// Replaces the change threshold, if one is given. It applies to the
    /// analyzer constructed next, not to one that already exists. The
    /// buffer duration and the frame interval are accepted and not used.
    pub fn configure(
        &mut self,
        _buffer_duration_ms: Option<u64>,
        change_threshold: Option<u32>,
        _frame_interval_ms: Option<u64>,
    )
        ensures
            final(self)@ == configured(old(self)@, change_threshold),
    {
        if let Some(t) = change_threshold {
            self.change_threshold = t;
        }
    }

    /// Turns firing on `Volatile` on or off.
    pub fn set_volatile_triggering(&mut self, enabled: bool)
        ensures
            final(self)@ == (DetectorView { volatile_triggering: enabled, ..old(self)@ }),
    {
        self.volatile_triggering = enabled;
    }

    /// The number of frames decided on, the change threshold (hundredths of
    /// a percent) and the nominal frame interval (milliseconds).
    pub fn get_config(&self) -> (r: (u64, u32, u64))
        ensures
            r == (self@.frame_count, self@.change_threshold, NOMINAL_FRAME_INTERVAL_MS),
    {
        (self.frame_count, self.change_threshold, NOMINAL_FRAME_INTERVAL_MS)
    }

    /// Clears the frame count and both cooldowns. The analyzer is kept.
    pub fn reset(&mut self)
        ensures
            final(self)@ == reset_view(old(self)@),
    {
        self.frame_count = 0;
        self.last_volatile_trigger = None;
        self.last_disturbed_trigger = None;
    }

    /// A description of the analysis, and the number of frames decided on.
    pub fn get_analysis_info(&self) -> (r: (String, u64))
        ensures
            r.0@ == "Waldo Vision Multi-Layer Analysis Active"@,
            r.1 == self@.frame_count,
    {
        ("Waldo Vision Multi-Layer Analysis Active".to_owned(), self.frame_count)
    }

    /// The cooldown left at `now_ms` on `Volatile` and on `Disturbed`, in
    /// milliseconds.
    pub fn get_scene_status(&self, now_ms: u64) -> (r: (String, u64, u64))
        ensures
            r.0@ == "MONITORING"@,
            r.1 as int == capped_u64(
                cooldown_remaining(self@.last_volatile_trigger, now_ms, VOLATILE_COOLDOWN_MS),
            ),
            r.2 as int == capped_u64(
                cooldown_remaining(self@.last_disturbed_trigger, now_ms, DISTURBED_COOLDOWN_MS),
            ),
    {
        (
            "MONITORING".to_owned(),
            remaining_cooldown(self.last_volatile_trigger, now_ms, VOLATILE_COOLDOWN_MS),
            remaining_cooldown(self.last_disturbed_trigger, now_ms, DISTURBED_COOLDOWN_MS),
        )
    }

    /// The configuration of the analyzer, once the first frame built it.
    pub fn pipeline_config(&self) -> (r: Option<PipelineConfig>)
        ensures
            r == self@.pipeline,
    {
        self.pipeline
    }
}

} // verus!
