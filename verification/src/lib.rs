//! Verified core of a screen-recording export engine.
//!
//! The library models the editing and export logic of a screen recorder:
//! an edit list of source segments with playback speed, an audio tempo
//! chain builder, a textual filter-graph builder for the external codec
//! engine, encoder argument builders, probe-output parsing, and a
//! frame-accurate compositor that overlays a cursor sprite and a rounded
//! webcam thumbnail onto raw RGBA frames.
//!
//! All timestamps are integer milliseconds; playback speed factors are
//! fixed-point values in thousandths (1000 = normal speed), so that the
//! arithmetic the contracts speak about is exact.

pub mod apperror;
pub mod blend;
pub mod capture;
pub mod compose;
pub mod edit;
pub mod encoderargs;
pub mod exportargs;
pub mod filtergraph;
pub mod geometry;
pub mod numfmt;
pub mod pipeline;
pub mod pngimage;
pub mod probe;
pub mod recorder;
pub mod schema;
pub mod strjoin;
pub mod tempo;
pub mod types;
pub mod waveform;
