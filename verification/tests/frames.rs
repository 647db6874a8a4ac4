//! Frame compositing, probing, image loading, and waveform peaks.

use screenstudio::blend::blend_channel;
use screenstudio::compose::{find_cursor_at_time, CursorSample, CursorSprite};
use screenstudio::geometry::is_inside_rounded_rect;
use screenstudio::pipeline::FramePipeline;
use screenstudio::pngimage::load_cursor_image;
use screenstudio::probe::{parse_fps_fraction, parse_probe_output, progress_from_out_time};
use screenstudio::numfmt::{milli_to_str, ms_to_secs_str, u64_to_dec};
use screenstudio::types::ExportError;
use screenstudio::waveform::compute_peaks;

fn sample(time_ms: u64, x: i64, y: i64, sprite_index: usize) -> CursorSample {
    CursorSample { time_ms, x, y, sprite_index }
}

fn pipeline(width: u32, height: u32, timeline: Vec<CursorSample>, sprites: Vec<CursorSprite>) -> FramePipeline {
    FramePipeline::new(width, height, 30, 1, true, timeline, sprites, 0)
}

#[test]
fn rounded_rect_membership() {
    // Interior points of the box are always members.
    assert!(is_inside_rounded_rect(10, 10, 100, 80, 10));
    assert!(is_inside_rounded_rect(50, 40, 100, 80, 10));
    // Corner points are members only with a zero radius.
    assert!(is_inside_rounded_rect(0, 0, 100, 80, 0));
    assert!(is_inside_rounded_rect(99, 0, 100, 80, 0));
    assert!(is_inside_rounded_rect(0, 79, 100, 80, 0));
    assert!(is_inside_rounded_rect(99, 79, 100, 80, 0));
    assert!(!is_inside_rounded_rect(0, 0, 100, 80, 10));
    assert!(!is_inside_rounded_rect(99, 0, 100, 80, 10));
    assert!(!is_inside_rounded_rect(0, 79, 100, 80, 10));
    assert!(!is_inside_rounded_rect(99, 79, 100, 80, 10));
    // On the quarter-circle arc of the top-left corner.
    assert!(is_inside_rounded_rect(10, 0, 100, 80, 10));
    assert!(!is_inside_rounded_rect(2, 2, 100, 80, 10));
}

#[test]
fn blending_identity_and_replacement() {
    // Alpha 0 leaves the destination unchanged.
    assert_eq!(blend_channel(200, 17, 0), 17);
    assert_eq!(blend_channel(0, 255, 0), 255);
    // Alpha 255 replaces it with the source.
    assert_eq!(blend_channel(200, 17, 255), 200);
    assert_eq!(blend_channel(0, 255, 255), 0);
    // Half alpha lands between the two.
    let mid = blend_channel(255, 0, 128);
    assert!(mid >= 127 && mid <= 129);
}

#[test]
fn cursor_lookup_clamps_and_picks_last_at_or_before() {
    let timeline = vec![sample(10, 0, 0, 0), sample(20, 0, 0, 0), sample(30, 0, 0, 0)];
    assert_eq!(find_cursor_at_time(&timeline, 25), Some(1));
    assert_eq!(find_cursor_at_time(&timeline, 20), Some(1));
    assert_eq!(find_cursor_at_time(&timeline, 5), Some(0));
    assert_eq!(find_cursor_at_time(&timeline, 99), Some(2));
    assert_eq!(find_cursor_at_time(&Vec::new(), 5), None);
}

#[test]
fn cancellation_stops_before_the_frame_is_touched() {
    let mut engine = pipeline(4, 4, Vec::new(), Vec::new());
    let mut frame = vec![7u8; 4 * 4 * 4];
    let before = frame.clone();
    let r = engine.process_frame(true, &mut frame, None, 0, 0);
    assert!(matches!(r, Err(ExportError::Cancelled)));
    assert_eq!(frame, before);
    assert_eq!(engine.frame_index, 0);
    // The run proceeds once the flag is no longer set.
    let r2 = engine.process_frame(false, &mut frame, None, 0, 0);
    assert!(r2.is_ok());
    assert_eq!(engine.frame_index, 1);
}

#[test]
fn first_frame_size_mismatch_is_a_decoding_error() {
    let mut engine = pipeline(4, 4, Vec::new(), Vec::new());
    let mut frame = vec![0u8; 63];
    let r = engine.process_frame(false, &mut frame, None, 0, 0);
    assert!(matches!(r, Err(ExportError::Decoding(_))));
    assert_eq!(engine.frame_index, 0);
}

#[test]
fn cursor_sprite_is_alpha_blended_at_the_sample_position() {
    // A 1x1 fully opaque red sprite at (1, 1) on a black 4x4 frame.
    let sprite = CursorSprite {
        width: 1,
        height: 1,
        hotspot_x: 0,
        hotspot_y: 0,
        data: vec![255, 0, 0, 255],
    };
    let timeline = vec![sample(0, 1, 1, 0)];
    let mut engine = pipeline(4, 4, timeline, vec![sprite]);
    let mut frame = vec![0u8; 4 * 4 * 4];
    engine.process_frame(false, &mut frame, None, 0, 0).unwrap();
    let idx = (1 * 4 + 1) * 4;
    assert_eq!(&frame[idx..idx + 4], &[255, 0, 0, 0]);
    // Every other byte is untouched.
    for (k, &b) in frame.iter().enumerate() {
        if !(idx <= k && k < idx + 3) {
            assert_eq!(b, 0, "byte {} changed", k);
        }
    }
}

#[test]
fn half_transparent_sprite_blends_halfway() {
    let sprite = CursorSprite {
        width: 1,
        height: 1,
        hotspot_x: 0,
        hotspot_y: 0,
        data: vec![255, 255, 255, 128],
    };
    let timeline = vec![sample(0, 0, 0, 0)];
    let mut engine = pipeline(2, 2, timeline, vec![sprite]);
    let mut frame = vec![0u8; 2 * 2 * 4];
    engine.process_frame(false, &mut frame, None, 0, 0).unwrap();
    assert_eq!(frame[0], (255 * 128 / 255) as u8);
    assert_eq!(frame[3], 0, "destination alpha stays untouched");
}

#[test]
fn near_zero_alpha_is_skipped() {
    let sprite = CursorSprite {
        width: 1,
        height: 1,
        hotspot_x: 0,
        hotspot_y: 0,
        data: vec![255, 255, 255, 2],
    };
    let timeline = vec![sample(0, 0, 0, 0)];
    let mut engine = pipeline(2, 2, timeline, vec![sprite]);
    let mut frame = vec![9u8; 2 * 2 * 4];
    engine.process_frame(false, &mut frame, None, 0, 0).unwrap();
    assert!(frame.iter().all(|&b| b == 9));
}

#[test]
fn missing_sprite_is_skipped_silently() {
    let timeline = vec![sample(0, 1, 1, 5)];
    let mut engine = pipeline(2, 2, timeline, Vec::new());
    let mut frame = vec![3u8; 2 * 2 * 4];
    assert!(engine.process_frame(false, &mut frame, None, 0, 0).is_ok());
    assert!(frame.iter().all(|&b| b == 3));
}

#[test]
fn webcam_thumbnail_lands_bottom_right_at_full_opacity() {
    // A 16x16 frame: the thumbnail is 2 wide; a square webcam keeps it
    // 2 tall. With margin 0 it covers pixels (14..16) x (14..16).
    let mut engine = pipeline(16, 16, Vec::new(), Vec::new());
    let mut frame = vec![0u8; 16 * 16 * 4];
    let webcam = vec![200u8; 2 * 2 * 4];
    engine.process_frame(false, &mut frame, Some(&webcam), 2, 2).unwrap();
    for y in 0..16 {
        for x in 0..16 {
            let idx = (y * 16 + x) * 4;
            if x >= 14 && y >= 14 {
                assert_eq!(&frame[idx..idx + 4], &[200, 200, 200, 255]);
            } else {
                assert_eq!(&frame[idx..idx + 4], &[0, 0, 0, 0]);
            }
        }
    }
    assert_eq!(engine.webcam_frames_drawn, 1);
}

#[test]
fn progress_is_reported_every_tenth_frame() {
    let mut engine = pipeline(2, 2, Vec::new(), Vec::new());
    let mut reports = Vec::new();
    for _ in 0..20 {
        let mut frame = vec![0u8; 2 * 2 * 4];
        reports.push(engine.process_frame(false, &mut frame, None, 0, 0).unwrap());
    }
    let due: Vec<usize> = reports
        .iter()
        .enumerate()
        .filter(|(_, &r)| r)
        .map(|(i, _)| i)
        .collect();
    assert_eq!(due, vec![9, 19]);
}

#[test]
fn probe_line_parses_exactly() {
    let p = parse_probe_output(b"1920,1080,30000/1001,900").unwrap();
    assert_eq!(p.width, 1920);
    assert_eq!(p.height, 1080);
    assert_eq!((p.fps_num, p.fps_den), (30000, 1001));
    assert_eq!(p.total_frames, 900);
    assert!(matches!(
        parse_probe_output(b"x,1080,30/1,900"),
        Err(ExportError::Ffmpeg(_))
    ));
    assert!(matches!(parse_probe_output(b"1920,1080"), Err(ExportError::Ffmpeg(_))));
    // A malformed packet count falls back to zero.
    let q = parse_probe_output(b"640,480,25/1,?").unwrap();
    assert_eq!(q.total_frames, 0);
}

#[test]
fn fps_fraction_fallbacks() {
    assert_eq!(parse_fps_fraction(b"30/1"), (30, 1));
    assert_eq!(parse_fps_fraction(b"30000/1001"), (30000, 1001));
    assert_eq!(parse_fps_fraction(b"25"), (25, 1));
    assert_eq!(parse_fps_fraction(b"abc"), (30, 1));
    assert_eq!(parse_fps_fraction(b"30/0"), (30, 1));
}

#[test]
fn progress_counter_translates_to_encoding_progress() {
    let p = progress_from_out_time(b"1500000", 10000).unwrap();
    assert_eq!(p.current_frame, 1500);
    assert_eq!(p.total_frames, 10000);
    assert!(progress_from_out_time(b"n/a", 10000).is_none());
}

#[test]
fn decimal_rendering() {
    assert_eq!(u64_to_dec(0), "0");
    assert_eq!(u64_to_dec(1234567890), "1234567890");
    assert_eq!(ms_to_secs_str(1000), "1");
    assert_eq!(ms_to_secs_str(1500), "1.5");
    assert_eq!(ms_to_secs_str(1), "0.001");
    assert_eq!(ms_to_secs_str(1050), "1.05");
    assert_eq!(milli_to_str(2000), "2");
    assert_eq!(milli_to_str(1500), "1.5");
}

#[test]
fn png_rgba_loads_as_is() {
    let bytes: Vec<u8> = vec![
        137, 80, 78, 71, 13, 10, 26, 10, 0, 0, 0, 13, 73, 72, 68, 82, 0, 0, 0, 1, 0, 0, 0, 2, 8,
        6, 0, 0, 0, 153, 129, 182, 39, 0, 0, 0, 18, 73, 68, 65, 84, 120, 156, 99, 96, 100, 98,
        102, 97, 96, 101, 99, 231, 0, 0, 0, 140, 0, 37, 40, 82, 130, 229, 0, 0, 0, 0, 73, 69, 78,
        68, 174, 66, 96, 130,
    ];
    let img = load_cursor_image(&bytes).unwrap();
    assert_eq!((img.width, img.height), (1, 2));
    assert_eq!(img.data, vec![1, 2, 3, 4, 5, 6, 7, 8]);
}

#[test]
fn png_rgb_is_promoted_to_opaque_rgba() {
    let bytes: Vec<u8> = vec![
        137, 80, 78, 71, 13, 10, 26, 10, 0, 0, 0, 13, 73, 72, 68, 82, 0, 0, 0, 2, 0, 0, 0, 1, 8,
        2, 0, 0, 0, 123, 64, 232, 221, 0, 0, 0, 15, 73, 68, 65, 84, 120, 156, 99, 224, 18, 145,
        211, 48, 178, 1, 0, 2, 55, 0, 211, 91, 86, 81, 216, 0, 0, 0, 0, 73, 69, 78, 68, 174, 66,
        96, 130,
    ];
    let img = load_cursor_image(&bytes).unwrap();
    assert_eq!((img.width, img.height), (2, 1));
    assert_eq!(img.data, vec![10, 20, 30, 255, 40, 50, 60, 255]);
}

#[test]
fn garbage_bytes_are_a_decoding_error() {
    assert!(matches!(
        load_cursor_image(b"not a png"),
        Err(ExportError::Decoding(_))
    ));
}

#[test]
fn test_compute_peaks_empty() {
    let peaks = compute_peaks(&[], 8000, 50, 10);
    let peaks: Vec<f32> = peaks.iter().map(|&a| a as f32 / 32767.0).collect();
    assert_eq!(peaks.len(), 10);
    assert!(peaks.iter().all(|&p| p == 0.0));
}

#[test]
fn test_compute_peaks_basic() {
    // Create synthetic audio data - one second of samples at 8kHz
    // With peaks at different amplitudes
    let mut samples_bytes = Vec::new();
    for i in 0..8000 {
        // Sine wave with varying amplitude
        let amplitude = ((i as f32 / 8000.0) * 16000.0) as i16;
        samples_bytes.extend_from_slice(&amplitude.to_le_bytes());
    }

    let peaks = compute_peaks(&samples_bytes, 8000, 50, 50);
    let peaks: Vec<f32> = peaks.iter().map(|&a| a as f32 / 32767.0).collect();

    assert_eq!(peaks.len(), 50);
    // All peaks should be in valid range
    assert!(peaks.iter().all(|&p| p >= 0.0 && p <= 1.0));
    // Later peaks should be larger (amplitude increases over time)
    assert!(peaks[45] > peaks[5]);
}

#[test]
fn test_compute_peaks_normalization() {
    // Max amplitude sample
    let max_sample: i16 = i16::MAX;
    let samples_bytes: Vec<u8> = (0..160).flat_map(|_| max_sample.to_le_bytes()).collect();

    let peaks = compute_peaks(&samples_bytes, 8000, 50, 1);
    let peaks: Vec<f32> = peaks.iter().map(|&a| a as f32 / 32767.0).collect();

    assert_eq!(peaks.len(), 1);
    // Should be normalized to ~1.0
    assert!((peaks[0] - 1.0).abs() < 0.01);
}

#[test]
fn negative_samples_count_by_magnitude() {
    let samples: [i16; 4] = [-30000, 100, 200, -50];
    let bytes: Vec<u8> = samples.iter().flat_map(|s| s.to_le_bytes()).collect();
    // One bucket of four samples (8000 / 2000 = 4).
    let peaks = compute_peaks(&bytes, 8000, 2000, 1);
    assert_eq!(peaks, vec![30000]);
}

#[test]
fn thumbnail_width_rounds_to_nearest_pixel() {
    // A 12-wide frame: 12 / 8 = 1.5 rounds to 2 thumbnail pixels.
    let mut engine = pipeline(12, 12, Vec::new(), Vec::new());
    let mut frame = vec![0u8; 12 * 12 * 4];
    let webcam = vec![50u8; 2 * 2 * 4];
    engine.process_frame(false, &mut frame, Some(&webcam), 2, 2).unwrap();
    let covered: Vec<(usize, usize)> = (0..12)
        .flat_map(|y| (0..12).map(move |x| (x, y)))
        .filter(|&(x, y)| frame[(y * 12 + x) * 4 + 3] == 255)
        .collect();
    // A 2x2 thumbnail in the bottom-right corner.
    assert_eq!(covered, vec![(10, 10), (11, 10), (10, 11), (11, 11)]);
}
