//! Recording lifecycle: the state machine that decides which control
//! commands are allowed in which state, and the export job's control
//! flags.

use vstd::prelude::*;

verus! {

/// Current state of the recording system.
#[derive(Clone, Copy, Debug, PartialEq, Eq, Structural)]
pub enum RecordingState {
    /// No recording in progress.
    Idle,
    /// Currently recording.
    Recording,
    /// Recording is paused.
    Paused,
    /// Recording completed.
    Complete,
}

impl Default for RecordingState {
    /// The initial state.
    fn default() -> (r: RecordingState)
        ensures
            r is Idle,
    {
        RecordingState::Idle
    }
}

/// A control command for the recording coordinator.
#[derive(Clone, Copy, Debug, PartialEq, Eq, Structural)]
pub enum RecordingCommand {
    Start,
    Stop,
    Pause,
    Resume,
}

/// Why a control command was refused.
#[derive(Clone, Copy, Debug, PartialEq, Eq, Structural)]
pub enum RecordingControlError {
    /// Start was asked for while a recording is under way.
    AlreadyRecording,
    /// Stop, pause, or resume was asked for with nothing to act on.
    NotRecording,
}

/// Decide what a control command does in a state: starting is allowed
/// only when idle; stopping acts on any recording, paused, or completed
/// session and returns to idle; pausing needs a running recording;
/// resuming needs a paused one.
pub fn recording_transition(state: RecordingState, command: RecordingCommand) -> (r: Result<
    RecordingState,
    RecordingControlError,
>)
    ensures
        command is Start ==> (if state is Idle {
            r == Ok::<RecordingState, RecordingControlError>(RecordingState::Recording)
        } else {
            r == Err::<RecordingState, RecordingControlError>(
                RecordingControlError::AlreadyRecording,
            )
        }),
        command is Stop ==> (if state is Idle {
            r == Err::<RecordingState, RecordingControlError>(RecordingControlError::NotRecording)
        } else {
            r == Ok::<RecordingState, RecordingControlError>(RecordingState::Idle)
        }),
        command is Pause ==> (if state is Recording {
            r == Ok::<RecordingState, RecordingControlError>(RecordingState::Paused)
        } else {
            r == Err::<RecordingState, RecordingControlError>(RecordingControlError::NotRecording)
        }),
        command is Resume ==> (if state is Paused {
            r == Ok::<RecordingState, RecordingControlError>(RecordingState::Recording)
        } else {
            r == Err::<RecordingState, RecordingControlError>(RecordingControlError::NotRecording)
        }),
{
    match command {
        RecordingCommand::Start => {
            if let RecordingState::Idle = state {
                Ok(RecordingState::Recording)
            } else {
                Err(RecordingControlError::AlreadyRecording)
            }
        },
        RecordingCommand::Stop => {
            if let RecordingState::Idle = state {
                Err(RecordingControlError::NotRecording)
            } else {
                Ok(RecordingState::Idle)
            }
        },
        RecordingCommand::Pause => {
            if let RecordingState::Recording = state {
                Ok(RecordingState::Paused)
            } else {
                Err(RecordingControlError::NotRecording)
            }
        },
        RecordingCommand::Resume => {
            if let RecordingState::Paused = state {
                Ok(RecordingState::Recording)
            } else {
                Err(RecordingControlError::NotRecording)
            }
        },
    }
}

/// Configuration for starting a recording.
#[derive(Clone, Debug)]
pub struct RecordingConfig {
    /// Display ID to capture.
    pub display_id: u32,
    /// Whether to capture system audio.
    pub capture_system_audio: bool,
    /// Whether to capture the microphone.
    pub capture_microphone: bool,
    /// Microphone device ID, if capturing.
    pub microphone_device_id: Option<String>,
    /// Whether to capture the webcam.
    pub capture_webcam: bool,
    /// Webcam device ID, if capturing.
    pub webcam_device_id: Option<String>,
    /// Whether to track mouse and keyboard input.
    pub track_input: bool,
    /// Output directory for the recording.
    pub output_dir: String,
}

/// The control flags of the export job: whether a run is under way, and
/// whether the caller asked it to stop. The running export polls the
/// cancellation flag between frames.
#[derive(Clone, Copy, Debug, PartialEq, Eq, Structural)]
pub struct ExportState {
    /// Whether an export is currently running.
    pub exporting: bool,
    /// Whether the caller asked the running export to stop.
    pub cancel_requested: bool,
}

impl Default for ExportState {
    /// Initially nothing runs and nothing is cancelled.
    fn default() -> (r: ExportState)
        ensures
            !r.exporting,
            !r.cancel_requested,
    {
        ExportState { exporting: false, cancel_requested: false }
    }
}

impl ExportState {
    /// Try to begin an export: refused while one is already running,
    /// otherwise the run begins with a cleared cancellation flag.
    pub fn begin_export(&mut self) -> (r: bool)
        ensures
            r == !old(self).exporting,
            old(self).exporting ==> *final(self) == *old(self),
            !old(self).exporting ==> final(self).exporting && !final(self).cancel_requested,
    {
        if self.exporting {
            false
        } else {
            self.exporting = true;
            self.cancel_requested = false;
            true
        }
    }

    /// Ask the running export to stop: refused when none runs.
    pub fn request_cancel(&mut self) -> (r: bool)
        ensures
            r == old(self).exporting,
            !old(self).exporting ==> *final(self) == *old(self),
            old(self).exporting ==> final(self).cancel_requested && final(self).exporting == old(
                self,
            ).exporting,
    {
        if self.exporting {
            self.cancel_requested = true;
            true
        } else {
            false
        }
    }

    /// Mark the run as over, keeping the cancellation flag for the
    /// caller to inspect.
    pub fn finish_export(&mut self)
        ensures
            !final(self).exporting,
            final(self).cancel_requested == old(self).cancel_requested,
    {
        self.exporting = false;
    }

    /// Whether an export is currently running.
    pub fn is_exporting(&self) -> (r: bool)
        ensures
            r == self.exporting,
    {
        self.exporting
    }
}

} // verus!
