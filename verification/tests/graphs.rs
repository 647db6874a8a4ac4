//! Filter-graph and encoder argument construction.

use screenstudio::edit::{ExportSegment, TrackEdits};
use screenstudio::encoderargs::{build_encoder_args, build_video_only_encoder_args};
use screenstudio::exportargs::build_edit_export_args;
use screenstudio::filtergraph::build_video_filter;
use screenstudio::types::{ExportFormat, ExportOptions, ExportQuality};

fn seg(start: u64, end: u64, scale: u64) -> ExportSegment {
    ExportSegment { source_start_ms: start, source_end_ms: end, time_scale: scale }
}

fn options(format: ExportFormat) -> ExportOptions {
    ExportOptions {
        format,
        quality: ExportQuality::Medium,
        width: None,
        height: None,
        fps: None,
        output_path: String::from("out.mp4"),
        include_cursor: false,
        include_webcam: false,
        include_mic_audio: false,
        include_system_audio: false,
        screen_edits: None,
        camera_edits: None,
    }
}

fn filter_complex_of(args: &[String]) -> String {
    let pos = args.iter().position(|a| a == "-filter_complex").unwrap();
    args[pos + 1].clone()
}

#[test]
fn test_video_filter_single_segment() {
    let segments = vec![ExportSegment {
        source_start_ms: 1000,
        source_end_ms: 5000,
        time_scale: 1000,
    }];
    let (filter, label) = build_video_filter(&segments, 0);
    assert!(filter.contains("trim=start=1:end=5"));
    assert_eq!(label, "v0");
}

#[test]
fn test_video_filter_multiple_segments() {
    let segments = vec![
        ExportSegment { source_start_ms: 0, source_end_ms: 2000, time_scale: 1000 },
        ExportSegment { source_start_ms: 5000, source_end_ms: 8000, time_scale: 1000 },
    ];
    let (filter, label) = build_video_filter(&segments, 0);
    assert!(filter.contains("concat=n=2"));
    assert_eq!(label, "vconcat");
}

#[test]
fn test_video_filter_with_speed() {
    let segments = vec![ExportSegment {
        source_start_ms: 0,
        source_end_ms: 4000,
        time_scale: 2000,
    }];
    let (filter, _) = build_video_filter(&segments, 0);
    assert!(filter.contains("setpts=(PTS-STARTPTS)/2"));
}

#[test]
fn full_range_export_has_one_trim_and_no_concat_or_mix() {
    // A single full-range segment at normal speed, no webcam, no audio.
    let edits = TrackEdits { segments: vec![seg(0, 10000, 1000)] };
    let args = build_edit_export_args(
        "in.mp4",
        None,
        None,
        None,
        &options(ExportFormat::Mp4),
        &edits,
        1920,
        1080,
        30,
    );
    let filter = filter_complex_of(&args);
    assert_eq!(filter.matches("trim=start=").count(), 1);
    assert!(!filter.contains("concat"));
    assert!(!filter.contains("amix"));
}

#[test]
fn two_segment_export_concatenates_once_per_track() {
    let edits = TrackEdits { segments: vec![seg(0, 2000, 1000), seg(5000, 8000, 1000)] };
    let args = build_edit_export_args(
        "in.mp4",
        None,
        Some("mic.m4a"),
        None,
        &options(ExportFormat::Mp4),
        &edits,
        1920,
        1080,
        30,
    );
    let filter = filter_complex_of(&args);
    assert!(filter.contains("[v0][v1]concat=n=2:v=1:a=0[vconcat]"));
    assert!(filter.contains("[mic0][mic1]concat=n=2:v=0:a=1[micconcat]"));
    assert!(!filter.contains("amix"));
    // One audio track: map straight to it, with the audio codec set.
    assert!(args.windows(2).any(|w| w[0] == "-map" && w[1] == "[micconcat]"));
    assert!(args.windows(2).any(|w| w[0] == "-c:a" && w[1] == "aac"));
}

#[test]
fn both_audio_tracks_are_mixed_longest_wins() {
    let edits = TrackEdits { segments: vec![seg(0, 2000, 1000)] };
    let args = build_edit_export_args(
        "in.mp4",
        None,
        Some("mic.m4a"),
        Some("sys.m4a"),
        &options(ExportFormat::Mp4),
        &edits,
        1280,
        720,
        30,
    );
    let filter = filter_complex_of(&args);
    assert!(filter.contains("[mic0][sys0]amix=inputs=2:duration=longest[aout]"));
    assert!(args.windows(2).any(|w| w[0] == "-map" && w[1] == "[aout]"));
}

#[test]
fn webcam_track_gets_same_cuts_scale_and_overlay() {
    let edits = TrackEdits { segments: vec![seg(0, 2000, 1000), seg(5000, 8000, 1000)] };
    let args = build_edit_export_args(
        "in.mp4",
        Some("webcam.mp4"),
        None,
        None,
        &options(ExportFormat::Mp4),
        &edits,
        1920,
        1080,
        30,
    );
    let filter = filter_complex_of(&args);
    assert!(filter.contains("[1:v]trim=start=0:end=2"));
    assert!(filter.contains("[1:v]trim=start=5:end=8"));
    assert!(filter.contains("[wc0][wc1]concat=n=2:v=1:a=0[wcconcat]"));
    // An eighth of the 1920-wide output.
    assert!(filter.contains("[wcconcat]scale=240:-1[wc_scaled]"));
    assert!(filter.contains("[vscaled][wc_scaled]overlay=W-w-20:H-h-20:shortest=1[vout]"));
}

#[test]
fn scaling_is_applied_once_after_concatenation() {
    let edits = TrackEdits { segments: vec![seg(0, 2000, 1000), seg(3000, 4000, 1000)] };
    let mut opts = options(ExportFormat::Mp4);
    opts.width = Some(1280);
    opts.height = Some(720);
    let args = build_edit_export_args("in.mp4", None, None, None, &opts, &edits, 1920, 1080, 30);
    let filter = filter_complex_of(&args);
    assert_eq!(filter.matches("force_original_aspect_ratio").count(), 1);
    assert!(filter.contains(
        "[vconcat]scale=1280:720:force_original_aspect_ratio=decrease,pad=1280:720:(ow-iw)/2:(oh-ih)/2:black,fps=30[vout]"
    ));
}

#[test]
fn identical_inputs_give_identical_graph_text() {
    let edits = TrackEdits { segments: vec![seg(0, 2000, 1500), seg(5000, 8000, 1000)] };
    let build = || {
        build_edit_export_args(
            "in.mp4",
            Some("webcam.mp4"),
            Some("mic.m4a"),
            None,
            &options(ExportFormat::Webm),
            &edits,
            1920,
            1080,
            30,
        )
    };
    assert_eq!(build(), build());
}

#[test]
fn edit_export_args_shape() {
    let edits = TrackEdits { segments: vec![seg(0, 1000, 1000)] };
    let args = build_edit_export_args(
        "in.mp4",
        None,
        None,
        None,
        &options(ExportFormat::Mp4),
        &edits,
        640,
        480,
        25,
    );
    assert_eq!(args[0], "-y");
    assert_eq!(&args[1..3], &["-i".to_string(), "in.mp4".to_string()]);
    assert!(args.windows(2).any(|w| w[0] == "-map" && w[1] == "[vout]"));
    assert!(args.windows(2).any(|w| w[0] == "-progress" && w[1] == "pipe:1"));
    assert_eq!(args.last().unwrap(), "out.mp4");
    assert!(args.windows(2).any(|w| w[0] == "-crf" && w[1] == "23"));
    assert!(args.windows(2).any(|w| w[0] == "-preset" && w[1] == "medium"));
}

#[test]
fn video_only_encoder_uses_source_rate_and_size() {
    let args = build_video_only_encoder_args(&options(ExportFormat::Mp4), 1920, 1080, 30000, 1001);
    assert!(args.windows(2).any(|w| w[0] == "-s" && w[1] == "1920x1080"));
    assert!(args.windows(2).any(|w| w[0] == "-r" && w[1] == "30000/1001"));
    assert!(args.windows(2).any(|w| w[0] == "-c:v" && w[1] == "libx264"));
    assert!(!args.iter().any(|a| a == "-vf"));
}

#[test]
fn gif_encoder_uses_palette_and_clamps() {
    let mut opts = options(ExportFormat::Gif);
    opts.fps = Some(60);
    let args = build_video_only_encoder_args(&opts, 1920, 1080, 30, 1);
    let pos = args.iter().position(|a| a == "-vf").unwrap();
    let vf = &args[pos + 1];
    assert!(vf.starts_with("fps=15,scale=800:-1:flags=lanczos"));
    assert!(vf.contains("palettegen"));
    assert!(vf.contains("paletteuse"));
}

#[test]
fn audio_encoder_mixes_both_inputs() {
    let args = build_encoder_args(
        &options(ExportFormat::Mp4),
        1280,
        720,
        30,
        1,
        Some("mic.m4a"),
        Some("sys.m4a"),
    );
    assert!(args
        .windows(2)
        .any(|w| w[0] == "-filter_complex"
            && w[1] == "[1:a][2:a]amix=inputs=2:duration=longest[aout]"));
    assert!(args.windows(2).any(|w| w[0] == "-map" && w[1] == "[aout]"));
    assert!(args.windows(2).any(|w| w[0] == "-b:a" && w[1] == "192k"));
}

#[test]
fn gif_request_with_audio_degrades_to_video_only() {
    let args = build_encoder_args(
        &options(ExportFormat::Gif),
        640,
        480,
        30,
        1,
        Some("mic.m4a"),
        None,
    );
    assert!(!args.iter().any(|a| a == "mic.m4a"));
    assert!(!args.iter().any(|a| a == "-c:a"));
    assert!(args.iter().any(|a| a.contains("palettegen")));
}

#[test]
fn gif_edit_export_drops_audio_silently() {
    let edits = TrackEdits { segments: vec![seg(0, 2000, 1000)] };
    let args = build_edit_export_args(
        "in.mp4",
        None,
        Some("mic.m4a"),
        Some("sys.m4a"),
        &options(ExportFormat::Gif),
        &edits,
        640,
        480,
        30,
    );
    assert!(!args.iter().any(|a| a == "mic.m4a" || a == "sys.m4a"));
    assert!(!args.iter().any(|a| a == "-c:a"));
    assert!(!filter_complex_of(&args).contains("amix"));
    assert!(args.windows(2).any(|w| w[0] == "-f" && w[1] == "gif"));
}
