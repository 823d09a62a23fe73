//! What passes between the coordinator and the screen recorder it drives.
use vstd::prelude::*;

use crate::domain::{Category, RecordingId};

verus! {

#[derive(Clone, Copy, Debug, PartialEq, Eq, Structural)]
pub enum RecordingMode {
    Automatic,
    Manual,
    Test(Category),
}

/// The files a finished capture left behind.
#[derive(Clone, Debug, PartialEq, Eq)]
pub struct CaptureArtifacts {
    pub replay: Option<String>,
    pub regular: String,
    pub requested_replay_ms: u64,
    pub regular_started_at_ms: i64,
    pub regular_stopped_at_ms: i64,
}

/// An audio device the recorder can capture.
#[derive(Debug, PartialEq, Eq)]
pub struct AudioDevice {
    pub id: String,
    pub label: String,
}

impl Clone for AudioDevice {
    fn clone(&self) -> (copy: Self)
        ensures
            copy == *self,
    {
        AudioDevice { id: self.id.clone(), label: self.label.clone() }
    }
}

/// What a capture is started with.
#[derive(Clone, Debug, PartialEq, Eq)]
pub struct StartRequest {
    pub id: RecordingId,
    pub requested_replay_ms: u64,
    pub mode: RecordingMode,
}

#[derive(Clone, Debug, PartialEq, Eq)]
pub enum RecorderError {
    SelectionDenied { log_tail: String },
    SpawnFailed { message: String, log_tail: String },
    MissingRegularArtifact,
    InvalidSettings(String),
    Busy,
    NotArmed,
    WrongId,
    Io(String),
}

/// What the recorder reports when it is polled.
#[derive(Clone, Debug, PartialEq, Eq)]
pub enum RecorderEvent {
    TargetTokenAvailable(String),
    CaptureEnded { artifacts: Option<CaptureArtifacts> },
    RestartFailed { message: String },
    ChildExited { code: Option<i32> },
    Restarted,
    RestartScheduled { attempt: u32 },
    Diagnostic(String),
}

} // verus!
