//! Edit model, tempo chain, progress, and control-state behaviour.

use screenstudio::apperror::{AppError, ErrorResponse};
use screenstudio::edit::{validate_edits, ExportSegment, TrackEdits};
use screenstudio::recorder::{
    recording_transition, ExportState, RecordingCommand, RecordingControlError, RecordingState,
};
use screenstudio::tempo::{atempo_chain_text, build_tempo_chain};
use screenstudio::types::{ExportError, ExportFormat, ExportProgress, ExportQuality};

fn seg(start: u64, end: u64, scale: u64) -> ExportSegment {
    ExportSegment { source_start_ms: start, source_end_ms: end, time_scale: scale }
}

#[test]
fn test_atempo_chain_normal() {
    let chain = atempo_chain_text(&build_tempo_chain(1000));
    assert_eq!(chain, "anull");
}

#[test]
fn test_atempo_chain_2x() {
    let chain = atempo_chain_text(&build_tempo_chain(2000));
    assert!(chain.contains("atempo=2"));
}

#[test]
fn test_atempo_chain_4x() {
    // 4x speed needs: atempo=2.0,atempo=2.0
    let chain = atempo_chain_text(&build_tempo_chain(4000));
    assert_eq!(chain.matches("atempo=2.0").count(), 2);
}

#[test]
fn test_atempo_chain_half() {
    let chain = atempo_chain_text(&build_tempo_chain(500));
    assert!(chain.contains("atempo=0.5"));
}

#[test]
fn tempo_chain_product_is_exact_for_four_x() {
    let chain = build_tempo_chain(4000);
    assert_eq!(chain.speedup_stages, 1);
    assert_eq!(chain.slowdown_stages, 0);
    let residual = chain.residual.unwrap();
    assert_eq!(residual.num, 4000);
    assert_eq!(residual.den, 2000);
    // One 2.0 stage times the exact residual 4000/2000 is 4.0: the
    // product numerator over denominator equals the requested speed.
    assert_eq!(2 * residual.num * 1000, residual.den * 4000);
}

#[test]
fn tempo_chain_large_slowdown() {
    // 0.1x: three 0.5 stages bring it to 0.8, the exact residual.
    let chain = build_tempo_chain(100);
    assert_eq!(chain.speedup_stages, 0);
    assert_eq!(chain.slowdown_stages, 3);
    let residual = chain.residual.unwrap();
    assert_eq!((residual.num, residual.den), (800, 1000));
    let text = atempo_chain_text(&chain);
    assert_eq!(text, "atempo=0.5,atempo=0.5,atempo=0.5,atempo=0.8000");
}

#[test]
fn segment_durations() {
    let s = seg(1000, 5000, 1000);
    assert_eq!(s.source_duration_ms(), 4000);
    assert_eq!(s.output_duration_ms(), 4000);
    let fast = seg(0, 4000, 2000);
    assert_eq!(fast.output_duration_ms(), 2000);
    let slow = seg(0, 4000, 500);
    assert_eq!(slow.output_duration_ms(), 8000);
}

#[test]
fn track_edits_total_is_sum_of_scaled_durations() {
    let edits = TrackEdits { segments: vec![seg(0, 2000, 1000), seg(5000, 8000, 2000)] };
    assert_eq!(edits.total_output_duration_ms(), 2000 + 1500);
}

#[test]
fn is_full_source_only_for_one_full_segment_at_normal_speed() {
    let full = TrackEdits { segments: vec![seg(0, 9950, 1000)] };
    assert!(full.is_full_source(10000));
    let cut = TrackEdits { segments: vec![seg(100, 10000, 1000)] };
    assert!(!cut.is_full_source(10000));
    let short = TrackEdits { segments: vec![seg(0, 9000, 1000)] };
    assert!(!short.is_full_source(10000));
    let fast = TrackEdits { segments: vec![seg(0, 10000, 1010)] };
    assert!(!fast.is_full_source(10000));
    let two = TrackEdits { segments: vec![seg(0, 5000, 1000), seg(5000, 10000, 1000)] };
    assert!(!two.is_full_source(10000));
}

#[test]
fn encoding_progress_percent() {
    let p = ExportProgress::encoding(50, 100);
    assert_eq!(p.percent, 10 + 42);
    assert_eq!(p.current_frame, 50);
    assert_eq!(p.total_frames, 100);
    let unknown = ExportProgress::encoding(7, 0);
    assert_eq!(unknown.percent, 10);
    assert_eq!(ExportProgress::complete().percent, 100);
    assert_eq!(ExportProgress::finalizing().percent, 95);
    assert_eq!(ExportProgress::preparing().percent, 0);
}

#[test]
fn export_error_messages() {
    assert_eq!(ExportError::Cancelled.message(), "Export cancelled");
    assert_eq!(
        ExportError::Decoding(String::from("bad frame")).message(),
        "Decoding error: bad frame"
    );
    assert_eq!(ExportError::Ffmpeg(String::from("gone")).message(), "FFmpeg error: gone");
    assert_eq!(
        ExportError::BundleNotFound(String::from("x")).message(),
        "Recording bundle not found: x"
    );
    assert_eq!(
        ExportError::InvalidConfig(String::from("y")).message(),
        "Invalid configuration: y"
    );
}

#[test]
fn quality_and_format_tables() {
    assert_eq!(ExportQuality::Low.crf(), 28);
    assert_eq!(ExportQuality::Medium.crf(), 23);
    assert_eq!(ExportQuality::High.crf(), 18);
    assert_eq!(ExportQuality::Lossless.crf(), 1);
    assert_eq!(ExportQuality::Low.h264_preset(), "faster");
    assert_eq!(ExportQuality::Lossless.h264_preset(), "veryslow");
    assert_eq!(ExportFormat::Mp4.extension(), "mp4");
    assert_eq!(ExportFormat::Webm.extension(), "webm");
    assert_eq!(ExportFormat::Gif.extension(), "gif");
    assert_eq!(ExportFormat::Mp4.video_codec(), "libx264");
    assert_eq!(ExportFormat::Webm.video_codec(), "libvpx-vp9");
    assert_eq!(ExportFormat::Gif.video_codec(), "gif");
}

#[test]
fn recording_state_machine() {
    assert_eq!(
        recording_transition(RecordingState::Idle, RecordingCommand::Start),
        Ok(RecordingState::Recording)
    );
    assert_eq!(
        recording_transition(RecordingState::Recording, RecordingCommand::Start),
        Err(RecordingControlError::AlreadyRecording)
    );
    assert_eq!(
        recording_transition(RecordingState::Recording, RecordingCommand::Pause),
        Ok(RecordingState::Paused)
    );
    assert_eq!(
        recording_transition(RecordingState::Paused, RecordingCommand::Resume),
        Ok(RecordingState::Recording)
    );
    assert_eq!(
        recording_transition(RecordingState::Paused, RecordingCommand::Stop),
        Ok(RecordingState::Idle)
    );
    assert_eq!(
        recording_transition(RecordingState::Idle, RecordingCommand::Stop),
        Err(RecordingControlError::NotRecording)
    );
    assert_eq!(
        recording_transition(RecordingState::Idle, RecordingCommand::Resume),
        Err(RecordingControlError::NotRecording)
    );
}

#[test]
fn export_state_flow() {
    let mut state = ExportState::default();
    assert!(!state.is_exporting());
    assert!(!state.request_cancel());
    assert!(state.begin_export());
    assert!(state.is_exporting());
    assert!(!state.begin_export());
    assert!(state.request_cancel());
    assert!(state.cancel_requested);
    state.finish_export();
    assert!(!state.is_exporting());
}

#[test]
fn error_response_codes() {
    let r = ErrorResponse::from_app_error(&AppError::Io(String::from("denied")));
    assert_eq!(r.code, "IO_ERROR");
    assert_eq!(r.message, "IO error: denied");
    let r2 = ErrorResponse::from_app_error(&AppError::PermissionDenied(String::from("camera")));
    assert_eq!(r2.code, "PERMISSION_DENIED");
    assert_eq!(r2.message, "Permission denied: camera");
}

#[test]
fn edits_are_validated_upstream() {
    let good = TrackEdits { segments: vec![seg(0, 1000, 1000)] };
    assert!(validate_edits(&good).is_ok());
    let empty = TrackEdits { segments: Vec::new() };
    assert!(matches!(validate_edits(&empty), Err(ExportError::InvalidConfig(_))));
    let zero_len = TrackEdits { segments: vec![seg(500, 500, 1000)] };
    assert!(matches!(validate_edits(&zero_len), Err(ExportError::InvalidConfig(_))));
    let zero_speed = TrackEdits { segments: vec![seg(0, 1000, 0)] };
    assert!(matches!(validate_edits(&zero_speed), Err(ExportError::InvalidConfig(_))));
}

#[test]
fn tempo_chain_stages_stay_in_range_across_scales() {
    for &scale in &[1u64, 3, 7, 100, 499, 500, 990, 1000, 1010, 1011, 2000, 2001, 4000, 5000, 9999, 100_000] {
        let chain = build_tempo_chain(scale);
        assert!(chain.speedup_stages == 0 || chain.slowdown_stages == 0);
        let mut product = 1.0f64;
        for _ in 0..chain.speedup_stages {
            product *= 2.0;
        }
        for _ in 0..chain.slowdown_stages {
            product *= 0.5;
        }
        if let Some(residual) = chain.residual {
            assert!(residual.den <= 2 * residual.num, "scale {}", scale);
            assert!(residual.num <= 2 * residual.den, "scale {}", scale);
            product *= residual.num as f64 / residual.den as f64;
        }
        // Within the documented drop tolerance of the requested speed.
        let requested = scale as f64 / 1000.0;
        assert!((product - requested).abs() <= requested * 0.0102, "scale {}", scale);
    }
}

#[test]
fn capability_reports() {
    assert!(screenstudio::capture::has_camera_permission());
    assert!(screenstudio::capture::request_camera_permission());
    assert!(!screenstudio::capture::is_system_audio_available());
    assert!(screenstudio::capture::has_screen_recording_permission());
    assert!(screenstudio::capture::request_screen_recording_permission());
}
