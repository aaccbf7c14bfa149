use std::io::Cursor;

use base64::Engine;
use frame_change_detector::{
    Analysis, FrameChangeDetector, FrameDecodeError, FrameError, PipelineConfig, Report,
    SceneState, significance_confidence,
};

fn encode_png(image: image::DynamicImage) -> String {
    let mut bytes: Vec<u8> = Vec::new();
    image
        .write_to(&mut Cursor::new(&mut bytes), image::ImageOutputFormat::Png)
        .unwrap();
    base64::engine::general_purpose::STANDARD.encode(&bytes)
}

fn analysis(scene_state: SceneState, report: Report) -> Analysis {
    Analysis { scene_state, report, tracked_object_count: 3 }
}

fn mention(new_moments: usize, completed_moments: usize) -> Report {
    Report::SignificantMention { new_moments, completed_moments }
}

#[test]
fn disturbed_example_fires_then_cools_down() {
    let mut d = FrameChangeDetector::new(None, Some(1000), None);
    let b64 = encode_png(image::DynamicImage::ImageLuma8(image::GrayImage::new(640, 480)));
    let prepared = d.prepare_frame(&b64).unwrap();
    assert_eq!(prepared.frame.width, 640);
    assert_eq!(prepared.frame.height, 480);
    assert_eq!(prepared.frame.pixels.len(), 640 * 480);
    let config = prepared.new_pipeline.unwrap();
    assert_eq!(config.behavioral_anomaly_threshold_ppm, 100_000);
    let a = analysis(SceneState::Disturbed, mention(2, 1));
    assert_eq!(d.process_frame(&a, 0), (true, 100, 3));
    let again = d.prepare_frame(&b64).unwrap();
    assert!(again.new_pipeline.is_none());
    assert_eq!(d.process_frame(&a, 100), (false, 0, 3));
    assert_eq!(d.process_frame(&a, 300), (true, 100, 3));
}

#[test]
fn calm_states_never_fire() {
    let mut d = FrameChangeDetector::new(None, None, None);
    for state in [SceneState::Calibrating, SceneState::Stable] {
        for report in [Report::NoMention, mention(4, 7)] {
            assert_eq!(d.process_frame(&analysis(state, report), 10_000), (false, 0, 3));
        }
    }
    assert_eq!(d.get_config().0, 4);
    assert_eq!(d.get_scene_status(10_000), ("MONITORING".to_string(), 0, 0));
}

#[test]
fn volatile_cooldown_gates_second_call() {
    let mut d = FrameChangeDetector::new(None, None, None);
    let v = analysis(SceneState::Volatile, Report::NoMention);
    assert_eq!(d.process_frame(&v, 5_000), (true, 70, 3));
    assert_eq!(d.process_frame(&v, 5_999), (false, 0, 3));
    assert_eq!(d.process_frame(&v, 6_000), (true, 70, 3));
    assert_eq!(d.process_frame(&v, 6_500), (false, 0, 3));
}

#[test]
fn disturbed_fire_leaves_volatile_timer() {
    let mut d = FrameChangeDetector::new(None, None, None);
    let v = analysis(SceneState::Volatile, Report::NoMention);
    let dist = analysis(SceneState::Disturbed, Report::NoMention);
    assert_eq!(d.process_frame(&dist, 0), (true, 95, 3));
    assert_eq!(d.process_frame(&v, 1), (true, 70, 3));
    assert_eq!(d.process_frame(&dist, 500), (true, 95, 3));
    assert_eq!(d.process_frame(&v, 999), (false, 0, 3));
    assert_eq!(d.process_frame(&v, 1_001), (true, 70, 3));
    assert_eq!(d.process_frame(&dist, 600), (false, 0, 3));
}

#[test]
fn disturbed_confidence_grows_with_moments() {
    assert_eq!(significance_confidence(&Report::NoMention), 95);
    assert_eq!(significance_confidence(&mention(0, 0)), 95);
    assert_eq!(significance_confidence(&mention(1, 0)), 100);
    assert_eq!(significance_confidence(&mention(0, 1)), 100);
    assert_eq!(significance_confidence(&mention(2, 1)), 100);
    assert_eq!(significance_confidence(&mention(usize::MAX, usize::MAX)), 100);
    let mut d = FrameChangeDetector::new(None, None, None);
    assert_eq!(d.process_frame(&analysis(SceneState::Disturbed, mention(0, 1)), 0), (true, 100, 3));
}

#[test]
fn reset_clears_cooldowns() {
    let mut d = FrameChangeDetector::new(None, None, None);
    let v = analysis(SceneState::Volatile, Report::NoMention);
    let dist = analysis(SceneState::Disturbed, Report::NoMention);
    assert!(d.process_frame(&v, 1_000).0);
    assert!(d.process_frame(&dist, 1_000).0);
    assert_eq!(d.get_scene_status(1_100), ("MONITORING".to_string(), 900, 150));
    d.reset();
    assert_eq!(d.get_config().0, 0);
    assert_eq!(d.get_scene_status(1_100), ("MONITORING".to_string(), 0, 0));
    assert_eq!(d.process_frame(&v, 1_100), (true, 70, 3));
    assert_eq!(d.process_frame(&dist, 1_100), (true, 95, 3));
}

#[test]
fn configure_threshold_reaches_analyzer() {
    let mut d = FrameChangeDetector::new(None, None, None);
    assert_eq!(d.get_config(), (0, 500, 33));
    d.configure(Some(2_000), Some(2_500), Some(40));
    assert_eq!(d.get_config(), (0, 2_500, 33));
    let config = d.admit_frame(320, 240).unwrap().unwrap();
    assert_eq!(config, PipelineConfig::for_frame(2_500, 320, 240));
    assert_eq!(config.behavioral_anomaly_threshold_ppm, 250_000);
    assert_eq!((config.image_width, config.image_height), (320, 240));
    assert_eq!((config.chunk_width, config.chunk_height), (10, 10));
    assert_eq!(config.disturbance_entry_threshold_ppm, 300_000);
    assert_eq!(d.pipeline_config(), Some(config));
}

#[test]
fn configure_after_first_frame_keeps_analyzer() {
    let mut d = FrameChangeDetector::new(None, Some(700), None);
    let config = d.admit_frame(64, 48).unwrap().unwrap();
    assert_eq!(config.behavioral_anomaly_threshold_ppm, 70_000);
    d.configure(None, Some(9_000), None);
    assert_eq!(d.get_config(), (0, 9_000, 33));
    assert_eq!(d.admit_frame(64, 48), Ok(None));
    assert_eq!(d.pipeline_config(), Some(config));
}

#[test]
fn frame_of_another_size_is_refused() {
    let mut d = FrameChangeDetector::new(None, None, None);
    assert!(d.admit_frame(640, 480).unwrap().is_some());
    assert_eq!(
        d.admit_frame(320, 480),
        Err(FrameError::DimensionMismatch {
            expected_width: 640,
            expected_height: 480,
            width: 320,
            height: 480,
        })
    );
    let b64 = encode_png(image::DynamicImage::ImageLuma8(image::GrayImage::new(2, 2)));
    assert!(matches!(d.prepare_frame(&b64), Err(FrameError::DimensionMismatch { .. })));
}

#[test]
fn malformed_base64_is_an_encoding_error() {
    let mut d = FrameChangeDetector::new(None, None, None);
    assert_eq!(d.decode_frame("not base64!!").unwrap_err(), FrameDecodeError::Encoding);
    assert!(matches!(
        d.prepare_frame("@@@"),
        Err(FrameError::Decode(FrameDecodeError::Encoding))
    ));
    assert_eq!(d.pipeline_config(), None);
}

#[test]
fn unparseable_image_is_a_format_error() {
    let mut d = FrameChangeDetector::new(None, None, None);
    assert_eq!(d.decode_frame("aGVsbG8gd29ybGQ=").unwrap_err(), FrameDecodeError::ImageFormat);
    assert!(matches!(
        d.prepare_frame("aGVsbG8gd29ybGQ="),
        Err(FrameError::Decode(FrameDecodeError::ImageFormat))
    ));
    assert_eq!(d.pipeline_config(), None);
}

#[test]
fn color_image_decodes_to_luminance() {
    let mut rgb = image::RgbImage::new(3, 2);
    rgb.put_pixel(0, 0, image::Rgb([255, 255, 255]));
    rgb.put_pixel(2, 1, image::Rgb([255, 255, 255]));
    let b64 = encode_png(image::DynamicImage::ImageRgb8(rgb));
    let d = FrameChangeDetector::new(None, None, None);
    let frame = d.decode_frame(&b64).unwrap();
    assert_eq!((frame.width, frame.height), (3, 2));
    assert_eq!(frame.pixels, vec![255, 0, 0, 0, 0, 255]);
}

#[test]
fn volatile_triggering_can_be_disabled() {
    let mut d = FrameChangeDetector::new(None, None, None);
    d.set_volatile_triggering(false);
    let v = analysis(SceneState::Volatile, mention(1, 1));
    assert_eq!(d.process_frame(&v, 0), (false, 0, 3));
    assert_eq!(d.process_frame(&v, 10_000), (false, 0, 3));
    d.set_volatile_triggering(true);
    assert_eq!(d.process_frame(&v, 10_000), (true, 70, 3));
}

#[test]
fn scene_state_is_labelled() {
    let mut d = FrameChangeDetector::new(None, None, None);
    let labels = [
        (SceneState::Calibrating, "CALIBRATING"),
        (SceneState::Stable, "STABLE"),
        (SceneState::Volatile, "VOLATILE"),
        (SceneState::Disturbed, "DISTURBED"),
    ];
    for (state, label) in labels {
        assert_eq!(state.label(), label);
        let r = d.process_frame_with_state(&analysis(state, Report::NoMention), 0);
        assert_eq!(r.3, label);
    }
    assert_eq!(d.get_analysis_info(), ("Waldo Vision Multi-Layer Analysis Active".to_string(), 4));
}

#[test]
fn cooldown_remaining_counts_from_last_firing() {
    let mut d = FrameChangeDetector::new(None, None, None);
    let v = analysis(SceneState::Volatile, Report::NoMention);
    assert!(d.process_frame(&v, 2_000).0);
    assert_eq!(d.get_scene_status(2_400).1, 600);
    assert_eq!(d.get_scene_status(3_000).1, 0);
    assert_eq!(d.get_scene_status(1_500).1, 1_500);
    assert_eq!(d.process_frame(&v, 1_500), (false, 0, 3));
}

#[test]
fn tracked_object_count_is_passed_through() {
    let mut d = FrameChangeDetector::new(None, None, None);
    let a = Analysis {
        scene_state: SceneState::Stable,
        report: Report::NoMention,
        tracked_object_count: 17,
    };
    assert_eq!(d.process_frame(&a, 0), (false, 0, 17));
}

#[test]
fn buffer_and_interval_arguments_are_not_kept() {
    let d = FrameChangeDetector::new(Some(10_000), None, Some(40));
    assert_eq!(d.get_config(), (0, 500, 33));
    let mut e = FrameChangeDetector::new(None, None, None);
    e.configure(Some(1), None, Some(7));
    assert_eq!(e.get_config(), (0, 500, 33));
}

#[test]
fn base64_must_be_padded_without_leftover_bits() {
    let d = FrameChangeDetector::new(None, None, None);
    assert_eq!(d.decode_frame("TQ==").unwrap_err(), FrameDecodeError::ImageFormat);
    assert_eq!(d.decode_frame("TQ").unwrap_err(), FrameDecodeError::Encoding);
    assert_eq!(d.decode_frame("TR==").unwrap_err(), FrameDecodeError::Encoding);
    assert_eq!(d.decode_frame("TQ==TQ==").unwrap_err(), FrameDecodeError::Encoding);
    assert_eq!(d.decode_frame("").unwrap_err(), FrameDecodeError::ImageFormat);
}
