//! The parameters the external analyzer is constructed with.

use vstd::prelude::*;

verus! {

/// Change threshold used when none is given, in hundredths of a percent (5%).
pub const DEFAULT_CHANGE_THRESHOLD: u32 = 500;

/// The nominal frame interval that `get_config` reports, in milliseconds
/// (about 30 fps).
pub const NOMINAL_FRAME_INTERVAL_MS: u64 = 33;

/// Parameters of the external scene analyzer. Fractions are written in
/// millionths (`ppm`): 300_000 stands for 0.3.
#[derive(Clone, Copy, Debug, PartialEq, Eq, Structural)]
pub struct PipelineConfig {
    pub image_width: u32,
    pub image_height: u32,
    pub chunk_width: u32,
    pub chunk_height: u32,
    pub new_age_threshold: u32,
    pub behavioral_anomaly_threshold_ppm: u64,
    pub absolute_min_blob_size: u32,
    pub blob_size_std_dev_filter_ppm: u64,
    pub disturbance_entry_threshold_ppm: u64,
    pub disturbance_exit_threshold_ppm: u64,
    pub disturbance_confirmation_frames: u32,
}

/// The analyzer's anomaly parameter for a change threshold given in
/// hundredths of a percent: the percentage divided by 100, in millionths.
pub open spec fn anomaly_threshold_ppm(change_threshold: u32) -> int {
    change_threshold as int * 100
}

/// The configuration of an analyzer for frames of the given size.
pub open spec fn pipeline_config_for(change_threshold: u32, width: u32, height: u32) -> PipelineConfig {
    PipelineConfig {
        image_width: width,
        image_height: height,
        chunk_width: 10,
        chunk_height: 10,
        new_age_threshold: 15,
        behavioral_anomaly_threshold_ppm: anomaly_threshold_ppm(change_threshold) as u64,
        absolute_min_blob_size: 5,
        blob_size_std_dev_filter_ppm: 1_500_000,
        disturbance_entry_threshold_ppm: 300_000,
        disturbance_exit_threshold_ppm: 100_000,
        disturbance_confirmation_frames: 5,
    }
}

impl PipelineConfig {
    /// The configuration for frames of `width` by `height` pixels: a 10x10
    /// analysis grid, persistence after 15 frames, blobs of at least 5
    /// chunks, entry into disturbance at 30% of chunks, exit at 10%,
    /// confirmed over 5 frames.
    pub fn for_frame(change_threshold: u32, width: u32, height: u32) -> (r: PipelineConfig)
        ensures
            r == pipeline_config_for(change_threshold, width, height),
            r.behavioral_anomaly_threshold_ppm == anomaly_threshold_ppm(change_threshold),
    {
        PipelineConfig {
            image_width: width,
            image_height: height,
            chunk_width: 10,
            chunk_height: 10,
            new_age_threshold: 15,
            behavioral_anomaly_threshold_ppm: change_threshold as u64 * 100,
            absolute_min_blob_size: 5,
            blob_size_std_dev_filter_ppm: 1_500_000,
            disturbance_entry_threshold_ppm: 300_000,
            disturbance_exit_threshold_ppm: 100_000,
            disturbance_confirmation_frames: 5,
        }
    }
}

} // verus!
