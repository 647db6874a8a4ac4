//! Export configuration, progress reporting, and error classification.

use vstd::prelude::*;
use vstd::string::StringExecFns;
use crate::edit::TrackEdits;

verus! {

/// Output container and codec family.
#[derive(Clone, Copy, Debug, PartialEq, Eq, Structural)]
pub enum ExportFormat {
    Mp4,
    Webm,
    Gif,
}

impl ExportFormat {
    /// The file extension for this format.
    pub fn extension(&self) -> (r: &'static str)
        ensures
            r@ == (match *self {
                ExportFormat::Mp4 => "mp4"@,
                ExportFormat::Webm => "webm"@,
                ExportFormat::Gif => "gif"@,
            }),
    {
        match self {
            ExportFormat::Mp4 => "mp4",
            ExportFormat::Webm => "webm",
            ExportFormat::Gif => "gif",
        }
    }

    /// The codec engine's video encoder name for this format.
    pub fn video_codec(&self) -> (r: &'static str)
        ensures
            r@ == (match *self {
                ExportFormat::Mp4 => "libx264"@,
                ExportFormat::Webm => "libvpx-vp9"@,
                ExportFormat::Gif => "gif"@,
            }),
    {
        match self {
            ExportFormat::Mp4 => "libx264",
            ExportFormat::Webm => "libvpx-vp9",
            ExportFormat::Gif => "gif",
        }
    }
}

/// Quality tier, mapping to a constant-rate factor and an encoder preset.
#[derive(Clone, Copy, Debug, PartialEq, Eq, Structural)]
pub enum ExportQuality {
    Low,
    Medium,
    High,
    Lossless,
}

/// The constant-rate factor of a quality tier.
pub open spec fn spec_crf(q: ExportQuality) -> int {
    match q {
        ExportQuality::Low => 28,
        ExportQuality::Medium => 23,
        ExportQuality::High => 18,
        ExportQuality::Lossless => 1,
    }
}

/// The encoder preset of a quality tier.
pub open spec fn spec_h264_preset(q: ExportQuality) -> Seq<char> {
    match q {
        ExportQuality::Low => "faster"@,
        ExportQuality::Medium => "medium"@,
        ExportQuality::High => "slow"@,
        ExportQuality::Lossless => "veryslow"@,
    }
}

impl ExportQuality {
    /// The constant-rate factor: lower means higher quality. The lossless
    /// tier uses 1 (visually lossless) rather than 0, which interacts
    /// badly with scaling and 4:2:0 subsampling.
    pub fn crf(&self) -> (r: u8)
        ensures
            r as int == spec_crf(*self),
    {
        match self {
            ExportQuality::Low => 28,
            ExportQuality::Medium => 23,
            ExportQuality::High => 18,
            ExportQuality::Lossless => 1,
        }
    }

    /// The encoder speed/quality preset.
    pub fn h264_preset(&self) -> (r: &'static str)
        ensures
            r@ == spec_h264_preset(*self),
    {
        match self {
            ExportQuality::Low => "faster",
            ExportQuality::Medium => "medium",
            ExportQuality::High => "slow",
            ExportQuality::Lossless => "veryslow",
        }
    }
}

/// Export configuration supplied by the caller, frozen for the run.
#[derive(Clone, Debug)]
pub struct ExportOptions {
    /// Output format.
    pub format: ExportFormat,
    /// Quality tier.
    pub quality: ExportQuality,
    /// Output width in pixels (absent: inherit the source).
    pub width: Option<u32>,
    /// Output height in pixels (absent: inherit the source).
    pub height: Option<u32>,
    /// Output frame rate (absent: inherit the source).
    pub fps: Option<u32>,
    /// Output file path.
    pub output_path: String,
    /// Whether to overlay the cursor.
    pub include_cursor: bool,
    /// Whether to overlay the webcam.
    pub include_webcam: bool,
    /// Whether to include microphone audio.
    pub include_mic_audio: bool,
    /// Whether to include system audio.
    pub include_system_audio: bool,
    /// Screen track edits (absent: use the full source).
    pub screen_edits: Option<TrackEdits>,
    /// Camera track edits (absent: use the full source).
    pub camera_edits: Option<TrackEdits>,
}

/// The stage an export run is in.
#[derive(Clone, Debug)]
pub enum ExportStage {
    /// Loading input files.
    Preparing,
    /// Smoothing the cursor timeline.
    SmoothingCursor,
    /// Encoding frames.
    Encoding,
    /// Waiting for the encoder to finish the output file.
    Finalizing,
    /// Finished successfully.
    Complete,
    /// Failed, with a message.
    Error { message: String },
}

/// A progress report: a percentage, the stage, and the frame counters.
#[derive(Clone, Debug)]
pub struct ExportProgress {
    /// Progress percentage, 0 to 100.
    pub percent: u64,
    /// Current stage.
    pub stage: ExportStage,
    /// Units processed so far (frames, or milliseconds of output).
    pub current_frame: u64,
    /// Total units to process.
    pub total_frames: u64,
}

/// The percentage reported while encoding: 10 plus the encoded share of
/// the remaining 85 points, or a flat 10 when the total is unknown.
pub open spec fn spec_encoding_percent(current: int, total: int) -> int {
    if total > 0 {
        let p = 10 + current * 85 / total;
        if p <= u64::MAX as int {
            p
        } else {
            u64::MAX as int
        }
    } else {
        10
    }
}

impl ExportProgress {
    /// Progress at the start of the run.
    pub fn preparing() -> (r: ExportProgress)
        ensures
            r.percent == 0,
            r.stage is Preparing,
            r.current_frame == 0,
            r.total_frames == 0,
    {
        ExportProgress { percent: 0, stage: ExportStage::Preparing, current_frame: 0, total_frames: 0 }
    }

    /// Progress while the cursor timeline is smoothed.
    pub fn smoothing_cursor(percent: u64) -> (r: ExportProgress)
        ensures
            r.percent == percent,
            r.stage is SmoothingCursor,
            r.current_frame == 0,
            r.total_frames == 0,
    {
        ExportProgress {
            percent,
            stage: ExportStage::SmoothingCursor,
            current_frame: 0,
            total_frames: 0,
        }
    }

    /// Progress while encoding.
    pub fn encoding(current_frame: u64, total_frames: u64) -> (r: ExportProgress)
        ensures
            r.percent == spec_encoding_percent(current_frame as int, total_frames as int),
            r.stage is Encoding,
            r.current_frame == current_frame,
            r.total_frames == total_frames,
    {
        let percent: u64 = if total_frames > 0 {
            let wide: u128 = 10 + (current_frame as u128) * 85 / (total_frames as u128);
            if wide <= u64::MAX as u128 {
                wide as u64
            } else {
                u64::MAX
            }
        } else {
            10
        };
        ExportProgress { percent, stage: ExportStage::Encoding, current_frame, total_frames }
    }

    /// Progress while the output file is finalized.
    pub fn finalizing() -> (r: ExportProgress)
        ensures
            r.percent == 95,
            r.stage is Finalizing,
    {
        ExportProgress {
            percent: 95,
            stage: ExportStage::Finalizing,
            current_frame: 0,
            total_frames: 0,
        }
    }

    /// Progress after a successful run.
    pub fn complete() -> (r: ExportProgress)
        ensures
            r.percent == 100,
            r.stage is Complete,
    {
        ExportProgress { percent: 100, stage: ExportStage::Complete, current_frame: 0, total_frames: 0 }
    }

    /// Progress after a failed run.
    pub fn error(message: String) -> (r: ExportProgress)
        ensures
            r.percent == 0,
            r.stage matches ExportStage::Error { message: m } && m@ == message@,
    {
        ExportProgress {
            percent: 0,
            stage: ExportStage::Error { message },
            current_frame: 0,
            total_frames: 0,
        }
    }
}

/// A classified export failure. None of these is retried: every
/// subprocess failure, probe failure, or size mismatch is terminal for
/// the run.
#[derive(Clone, Debug)]
pub enum ExportError {
    /// Filesystem access failed.
    Io(String),
    /// The codec engine was missing, refused to start, or exited with an
    /// error.
    Ffmpeg(String),
    /// A required input file is absent.
    BundleNotFound(String),
    /// The caller supplied contradictory options.
    InvalidConfig(String),
    /// The caller requested an abort; not a failure.
    Cancelled,
    /// The decoded stream was corrupt or of an unexpected size.
    Decoding(String),
    /// The encoder rejected frame data.
    Encoding(String),
}

impl ExportError {
    /// A human-readable description, in place of display formatting.
    pub fn message(&self) -> (r: String)
        ensures
            r@ == (match *self {
                ExportError::Io(m) => "IO error: "@ + m@,
                ExportError::Ffmpeg(m) => "FFmpeg error: "@ + m@,
                ExportError::BundleNotFound(m) => "Recording bundle not found: "@ + m@,
                ExportError::InvalidConfig(m) => "Invalid configuration: "@ + m@,
                ExportError::Cancelled => "Export cancelled"@,
                ExportError::Decoding(m) => "Decoding error: "@ + m@,
                ExportError::Encoding(m) => "Encoding error: "@ + m@,
            }),
    {
        match self {
            ExportError::Io(m) => {
                let mut s = String::from_str("IO error: ");
                s.append(m.as_str());
                s
            },
            ExportError::Ffmpeg(m) => {
                let mut s = String::from_str("FFmpeg error: ");
                s.append(m.as_str());
                s
            },
            ExportError::BundleNotFound(m) => {
                let mut s = String::from_str("Recording bundle not found: ");
                s.append(m.as_str());
                s
            },
            ExportError::InvalidConfig(m) => {
                let mut s = String::from_str("Invalid configuration: ");
                s.append(m.as_str());
                s
            },
            ExportError::Cancelled => "Export cancelled".to_owned(),
            ExportError::Decoding(m) => {
                let mut s = String::from_str("Decoding error: ");
                s.append(m.as_str());
                s
            },
            ExportError::Encoding(m) => {
                let mut s = String::from_str("Encoding error: ");
                s.append(m.as_str());
                s
            },
        }
    }
}

} // verus!
