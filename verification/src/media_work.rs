//! The two kinds of media work, step by step: finalizing a capture and cutting
//! a clip.
use std::sync::Arc;

use vstd::prelude::*;

use crate::domain::{share, LibraryEntry, RecordingId};
use crate::media_jobs;
use crate::media_jobs::{check_clip, clip_args, clip_entry, failure, FfmpegOutcome};
use crate::text;

verus! {

/// How a job ended: with an entry, cancelled, or with an error.
pub type JobOutcome = Result<Option<Arc<LibraryEntry>>, String>;

/// The error of a job, behind what it was about.
pub open spec fn fails_with(outcome: JobOutcome, context: Seq<char>, error: Seq<char>) -> bool {
    outcome matches Err(message) && message@ == context + ": "@ + error
}

// --- finalizing a capture ---

pub enum FinalizeStage {
    MakingFile,
    Combining { temp: String },
    Measuring { temp: String, actual_replay_ms: u64 },
    Storing { temp: String },
    Over,
}

/// What came of the last action.
pub enum FinalizeEvent {
    FileMade(Result<String, String>),
    /// How putting replay and recording together ended.
    Combined(Result<Option<u64>, String>),
    /// The size of the media; none where it cannot be told.
    Measured(u64),
    Stored(Result<LibraryEntry, String>),
}

pub enum FinalizeAction {
    /// Create a job file with this prefix and extension.
    MakeFile { prefix: &'static str, extension: &'static str },
    /// Put replay and recording together in this file.
    Combine { path: String },
    Measure { path: String },
    /// Store the recording, with this much replay in front.
    Store { path: String, actual_replay_ms: u64 },
    /// Remove the file that is named, if any, and report the outcome.
    Finish { remove: Option<String>, outcome: JobOutcome },
}

/// Turns a capture into a library entry.
pub struct FinalizeWork {
    pub stage: FinalizeStage,
}

impl FinalizeWork {
    pub fn start() -> (started: (FinalizeWork, FinalizeAction))
        ensures
            started.0.stage is MakingFile,
            started.1 matches FinalizeAction::MakeFile { prefix, extension } && prefix@ == "final"@
                && extension@ == "mp4"@,
    {
        (
            FinalizeWork { stage: FinalizeStage::MakingFile },
            FinalizeAction::MakeFile { prefix: "final", extension: "mp4" },
        )
    }

    /// Whether `event` answers the action of this stage.
    pub open spec fn expects(self, event: FinalizeEvent) -> bool {
        match self.stage {
            FinalizeStage::MakingFile => event is FileMade,
            FinalizeStage::Combining { .. } => event is Combined,
            FinalizeStage::Measuring { .. } => event is Measured,
            FinalizeStage::Storing { .. } => event is Stored,
            FinalizeStage::Over => false,
        }
    }

    /// What follows from `event`.
    pub open spec fn follows(
        self,
        event: FinalizeEvent,
        next: FinalizeWork,
        action: FinalizeAction,
    ) -> bool {
        match (self.stage, event) {
            (FinalizeStage::MakingFile, FinalizeEvent::FileMade(Ok(temp))) => {
                &&& next.stage == (FinalizeStage::Combining { temp })
                &&& action == (FinalizeAction::Combine { path: temp })
            },
            (FinalizeStage::MakingFile, FinalizeEvent::FileMade(Err(error))) => {
                &&& next.stage is Over
                &&& action matches FinalizeAction::Finish { remove, outcome } && remove is None
                    && fails_with(outcome, "final media temp"@, error@)
            },
            (
                FinalizeStage::Combining { temp },
                FinalizeEvent::Combined(Ok(Some(actual_replay_ms))),
            ) => {
                &&& next.stage == (FinalizeStage::Measuring { temp, actual_replay_ms })
                &&& action == (FinalizeAction::Measure { path: temp })
            },
            (FinalizeStage::Combining { temp }, FinalizeEvent::Combined(Ok(None))) => {
                &&& next.stage is Over
                &&& action == (FinalizeAction::Finish { remove: Some(temp), outcome: Ok(None) })
            },
            (FinalizeStage::Combining { .. }, FinalizeEvent::Combined(Err(message))) => {
                &&& next.stage is Over
                &&& action == (FinalizeAction::Finish { remove: None, outcome: Err(message) })
            },
            (
                FinalizeStage::Measuring { temp, actual_replay_ms },
                FinalizeEvent::Measured(bytes),
            ) => if bytes == 0 {
                &&& next.stage is Over
                &&& action matches FinalizeAction::Finish { remove, outcome } && remove == Some(
                    temp,
                ) && (outcome matches Err(message) && message@
                    == "FFmpeg produced an empty recording"@)
            } else {
                &&& next.stage == (FinalizeStage::Storing { temp })
                &&& action == (FinalizeAction::Store { path: temp, actual_replay_ms })
            },
            (FinalizeStage::Storing { .. }, FinalizeEvent::Stored(Ok(entry))) => {
                &&& next.stage is Over
                &&& action matches FinalizeAction::Finish { remove, outcome } && remove is None && (
                outcome matches Ok(Some(stored)) && *stored == entry)
            },
            (FinalizeStage::Storing { temp }, FinalizeEvent::Stored(Err(error))) => {
                &&& next.stage is Over
                &&& action matches FinalizeAction::Finish { remove, outcome } && remove == Some(
                    temp,
                ) && fails_with(outcome, "finalize"@, error@)
            },
            _ => false,
        }
    }

    /// Take in what came of the last action and say what to do next.
    pub fn next(self, event: FinalizeEvent) -> (result: (FinalizeWork, FinalizeAction))
        requires
            self.expects(event),
        ensures
            self.follows(event, result.0, result.1),
    {
        let (stage, action) = match (self.stage, event) {
            (FinalizeStage::MakingFile, FinalizeEvent::FileMade(Ok(temp))) => {
                let path = temp.clone();
                (FinalizeStage::Combining { temp }, FinalizeAction::Combine { path })
            },
            (FinalizeStage::MakingFile, FinalizeEvent::FileMade(Err(error))) => (
                FinalizeStage::Over,
                FinalizeAction::Finish {
                    remove: None,
                    outcome: Err(failure("final media temp", &error)),
                },
            ),
            (
                FinalizeStage::Combining { temp },
                FinalizeEvent::Combined(Ok(Some(actual_replay_ms))),
            ) => {
                let path = temp.clone();
                (
                    FinalizeStage::Measuring { temp, actual_replay_ms },
                    FinalizeAction::Measure { path },
                )
            },
            (FinalizeStage::Combining { temp }, FinalizeEvent::Combined(Ok(None))) => (
                FinalizeStage::Over,
                FinalizeAction::Finish { remove: Some(temp), outcome: Ok(None) },
            ),
            (FinalizeStage::Combining { .. }, FinalizeEvent::Combined(Err(message))) => (
                FinalizeStage::Over,
                FinalizeAction::Finish { remove: None, outcome: Err(message) },
            ),
            (
                FinalizeStage::Measuring { temp, actual_replay_ms },
                FinalizeEvent::Measured(bytes),
            ) => if bytes == 0 {
                (
                    FinalizeStage::Over,
                    FinalizeAction::Finish {
                        remove: Some(temp),
                        outcome: Err("FFmpeg produced an empty recording".to_owned()),
                    },
                )
            } else {
                let path = temp.clone();
                (FinalizeStage::Storing { temp }, FinalizeAction::Store { path, actual_replay_ms })
            },
            (FinalizeStage::Storing { .. }, FinalizeEvent::Stored(Ok(entry))) => (
                FinalizeStage::Over,
                FinalizeAction::Finish { remove: None, outcome: Ok(Some(Arc::new(entry))) },
            ),
            (FinalizeStage::Storing { temp }, FinalizeEvent::Stored(Err(error))) => (
                FinalizeStage::Over,
                FinalizeAction::Finish {
                    remove: Some(temp),
                    outcome: Err(failure("finalize", &error)),
                },
            ),
            (_, _) => {
                assert(false);
                (FinalizeStage::Over, FinalizeAction::MakeFile { prefix: "", extension: "" })
            },
        };
        (FinalizeWork { stage }, action)
    }
}

/// An empty recording is never stored.
pub proof fn only_media_with_content_is_stored(
    work: FinalizeWork,
    event: FinalizeEvent,
    next: FinalizeWork,
    action: FinalizeAction,
)
    requires
        work.follows(event, next, action),
        action is Store,
    ensures
        event matches FinalizeEvent::Measured(bytes) && bytes > 0,
{
}

// --- cutting a clip ---

/// The place claimed in the library for a clip.
#[derive(Clone, Debug, PartialEq, Eq)]
pub struct ClipClaim {
    pub id: RecordingId,
    pub created_at_ms: i64,
    pub media_path: String,
    pub sidecar_path: String,
}

pub enum ClipStage {
    Looking,
    Claiming,
    MakingFile { claim: ClipClaim },
    Cutting { claim: ClipClaim, temp: String },
    Writing { entry: Arc<LibraryEntry>, temp: String },
    Over,
}

/// What came of the last action.
pub enum ClipEvent {
    SourceThere(bool),
    Claimed(Result<ClipClaim, String>),
    FileMade(Result<String, String>),
    Ffmpeg(FfmpegOutcome),
    EntryWritten(Result<(), String>),
}

pub enum ClipAction {
    LookFor { path: String },
    /// Claim a place in the library under the clip's name.
    Claim,
    /// Create a job file with this prefix and extension.
    MakeFile { prefix: &'static str, extension: &'static str },
    RunFfmpeg { args: Vec<String>, total_ms: u64 },
    /// Move the media into its place and write its sidecar.
    WriteEntry { entry: Arc<LibraryEntry>, temp: String },
    /// Remove the files that are named and report the outcome.
    Finish { remove: Vec<String>, outcome: JobOutcome },
}

/// Cuts a clip out of a recording.
pub struct ClipWork {
    pub source: Arc<LibraryEntry>,
    pub start_ms: u64,
    pub end_ms: u64,
    pub stage: ClipStage,
}

/// The error of a range that cannot be cut, or of a source that is missing.
pub open spec fn clip_refusal(source: LibraryEntry, start_ms: u64, end_ms: u64) -> Seq<char> {
    if !media_jobs::clip_in_range(source, start_ms, end_ms) {
        "clip range "@ + text::decimal(start_ms as nat) + ".."@ + text::decimal(end_ms as nat)
            + " ms is outside the "@ + text::decimal(source.duration_ms as nat) + " ms source"@
    } else {
        "clip source "@ + source.media_path@ + " is missing"@
    }
}

impl ClipWork {
    /// A clip that has begun lies inside its source.
    pub open spec fn wf(self) -> bool {
        !(self.stage is Over) ==> media_jobs::clip_in_range(
            *self.source,
            self.start_ms,
            self.end_ms,
        )
    }

    pub fn start(source: Arc<LibraryEntry>, start_ms: u64, end_ms: u64) -> (started: (
        ClipWork,
        ClipAction,
    ))
        ensures
            started.0.wf(),
            started.0.source == source,
            started.0.start_ms == start_ms,
            started.0.end_ms == end_ms,
            if media_jobs::clip_in_range(*source, start_ms, end_ms) {
                &&& started.0.stage is Looking
                &&& started.1 == (ClipAction::LookFor { path: source.media_path })
            } else {
                &&& started.0.stage is Over
                &&& started.1 matches ClipAction::Finish { remove, outcome } && remove@.len() == 0
                    && (outcome matches Err(message) && message@ == clip_refusal(
                    *source,
                    start_ms,
                    end_ms,
                ))
            },
    {
        let (stage, action) = match check_clip(&source, start_ms, end_ms, true) {
            Ok(_) => (
                ClipStage::Looking,
                ClipAction::LookFor { path: source.media_path.clone() },
            ),
            Err(message) => (
                ClipStage::Over,
                ClipAction::Finish { remove: Vec::new(), outcome: Err(message) },
            ),
        };
        (ClipWork { source, start_ms, end_ms, stage }, action)
    }

    /// Whether `event` answers the action of this stage.
    pub open spec fn expects(self, event: ClipEvent) -> bool {
        match self.stage {
            ClipStage::Looking => event is SourceThere,
            ClipStage::Claiming => event is Claimed,
            ClipStage::MakingFile { .. } => event is FileMade,
            ClipStage::Cutting { .. } => event is Ffmpeg,
            ClipStage::Writing { .. } => event is EntryWritten,
            ClipStage::Over => false,
        }
    }

    /// The job ends with an error and leaves these files to be removed.
    pub open spec fn ends_with(
        stage: ClipStage,
        action: ClipAction,
        files: Seq<Seq<char>>,
        message: Seq<char>,
    ) -> bool {
        &&& stage is Over
        &&& action matches ClipAction::Finish { remove, outcome } && text::texts(remove@) == files
            && (outcome matches Err(said) && said@ == message)
    }

    /// What follows from `event`.
    pub open spec fn follows(self, event: ClipEvent, next: ClipStage, action: ClipAction) -> bool {
        match (self.stage, event) {
            (ClipStage::Looking, ClipEvent::SourceThere(there)) => if there {
                next is Claiming && action is Claim
            } else {
                Self::ends_with(
                    next,
                    action,
                    seq![],
                    "clip source "@ + self.source.media_path@ + " is missing"@,
                )
            },
            (ClipStage::Claiming, ClipEvent::Claimed(Ok(claim))) => {
                &&& next == (ClipStage::MakingFile { claim })
                &&& action matches ClipAction::MakeFile { prefix, extension } && prefix@ == "clip"@
                    && extension@ == "mp4"@
            },
            (ClipStage::Claiming, ClipEvent::Claimed(Err(error))) => Self::ends_with(
                next,
                action,
                seq![],
                "clip output"@ + ": "@ + error@,
            ),
            (ClipStage::MakingFile { claim }, ClipEvent::FileMade(Ok(temp))) => {
                &&& next == (ClipStage::Cutting { claim, temp })
                &&& action matches ClipAction::RunFfmpeg { args, total_ms } && total_ms
                    == self.end_ms - self.start_ms && text::texts(args@)
                    == media_jobs::clip_arguments(
                    self.source.media_path@,
                    self.start_ms as nat,
                    (self.end_ms - self.start_ms) as nat,
                    temp@,
                )
            },
            (ClipStage::MakingFile { .. }, ClipEvent::FileMade(Err(error))) => Self::ends_with(
                next,
                action,
                seq![],
                "clip temp"@ + ": "@ + error@,
            ),
            (ClipStage::Cutting { claim, temp }, ClipEvent::Ffmpeg(outcome)) => match outcome {
                FfmpegOutcome::Done { .. } => next matches ClipStage::Writing { entry, temp: kept } && {
                    &&& kept == temp
                    &&& media_jobs::is_clip_entry(
                        *entry,
                        *self.source,
                        claim.id,
                        claim.media_path,
                        claim.sidecar_path,
                        claim.created_at_ms,
                        self.start_ms,
                        self.end_ms,
                    )
                    &&& action == (ClipAction::WriteEntry { entry, temp })
                },
                FfmpegOutcome::Cancelled => {
                    &&& next is Over
                    &&& action matches ClipAction::Finish { remove, outcome } && text::texts(
                        remove@,
                    ) == seq![temp@, claim.media_path@] && outcome == Ok::<
                        Option<Arc<LibraryEntry>>,
                        String,
                    >(None)
                },
                FfmpegOutcome::Failed { message } => Self::ends_with(
                    next,
                    action,
                    seq![temp@, claim.media_path@],
                    message@,
                ),
            },
            (ClipStage::Writing { entry, .. }, ClipEvent::EntryWritten(Ok(_))) => {
                &&& next is Over
                &&& action matches ClipAction::Finish { remove, outcome } && remove@.len() == 0
                    && outcome == Ok::<Option<Arc<LibraryEntry>>, String>(Some(entry))
            },
            (ClipStage::Writing { temp, .. }, ClipEvent::EntryWritten(Err(error))) => Self::ends_with(
                next,
                action,
                seq![temp@],
                "write clip"@ + ": "@ + error@,
            ),
            _ => false,
        }
    }

    fn end_with(files: Vec<String>, message: String) -> (result: (ClipStage, ClipAction))
        ensures
            Self::ends_with(result.0, result.1, text::texts(files@), message@),
    {
        (ClipStage::Over, ClipAction::Finish { remove: files, outcome: Err(message) })
    }

    /// Take in what came of the last action and say what to do next.
    pub fn next(self, event: ClipEvent) -> (result: (ClipWork, ClipAction))
        requires
            self.wf(),
            self.expects(event),
        ensures
            result.0.wf(),
            result.0 == (ClipWork { stage: result.0.stage, ..self }),
            self.follows(event, result.0.stage, result.1),
    {
        let ClipWork { source, start_ms, end_ms, stage } = self;
        let none: Vec<String> = Vec::new();
        assert(text::texts(none@) =~= seq![]);
        let (stage, action) = match (stage, event) {
            (ClipStage::Looking, ClipEvent::SourceThere(there)) => match check_clip(
                &source,
                start_ms,
                end_ms,
                there,
            ) {
                Ok(_) => (ClipStage::Claiming, ClipAction::Claim),
                Err(message) => Self::end_with(none, message),
            },
            (ClipStage::Claiming, ClipEvent::Claimed(Ok(claim))) => (
                ClipStage::MakingFile { claim },
                ClipAction::MakeFile { prefix: "clip", extension: "mp4" },
            ),
            (ClipStage::Claiming, ClipEvent::Claimed(Err(error))) => Self::end_with(
                none,
                failure("clip output", &error),
            ),
            (ClipStage::MakingFile { claim }, ClipEvent::FileMade(Ok(temp))) => {
                let total_ms: u64 = end_ms - start_ms;
                let args = clip_args(&source.media_path, start_ms, total_ms, &temp);
                (ClipStage::Cutting { claim, temp }, ClipAction::RunFfmpeg { args, total_ms })
            },
            (ClipStage::MakingFile { .. }, ClipEvent::FileMade(Err(error))) => Self::end_with(
                none,
                failure("clip temp", &error),
            ),
            (ClipStage::Cutting { claim, temp }, ClipEvent::Ffmpeg(outcome)) => match outcome {
                FfmpegOutcome::Done { .. } => {
                    let ClipClaim { id, created_at_ms, media_path, sidecar_path } = claim;
                    let entry = Arc::new(
                        clip_entry(
                            &source,
                            id,
                            media_path,
                            sidecar_path,
                            created_at_ms,
                            start_ms,
                            end_ms,
                        ),
                    );
                    let written = share(&entry);
                    let from = temp.clone();
                    (
                        ClipStage::Writing { entry, temp },
                        ClipAction::WriteEntry { entry: written, temp: from },
                    )
                },
                FfmpegOutcome::Cancelled => {
                    let remove = both(temp, claim.media_path);
                    (ClipStage::Over, ClipAction::Finish { remove, outcome: Ok(None) })
                },
                FfmpegOutcome::Failed { message } => Self::end_with(
                    both(temp, claim.media_path),
                    message,
                ),
            },
            (ClipStage::Writing { entry, .. }, ClipEvent::EntryWritten(Ok(_))) => (
                ClipStage::Over,
                ClipAction::Finish { remove: none, outcome: Ok(Some(entry)) },
            ),
            (ClipStage::Writing { temp, .. }, ClipEvent::EntryWritten(Err(error))) => {
                let mut remove: Vec<String> = Vec::new();
                remove.push(temp);
                assert(text::texts(remove@) =~= seq![temp@]);
                Self::end_with(remove, failure("write clip", &error))
            },
            (_, _) => {
                assert(false);
                (ClipStage::Over, ClipAction::Claim)
            },
        };
        (ClipWork { source, start_ms, end_ms, stage }, action)
    }
}

fn both(first: String, second: String) -> (files: Vec<String>)
    ensures
        text::texts(files@) == seq![first@, second@],
{
    let mut files: Vec<String> = Vec::new();
    files.push(first);
    files.push(second);
    assert(text::texts(files@) =~= seq![first@, second@]);
    files
}

/// A clip that was cancelled or failed while it was cut leaves neither its
/// working file nor its claimed place behind.
pub proof fn abandoned_clips_leave_nothing(
    work: ClipWork,
    outcome: FfmpegOutcome,
    claim: ClipClaim,
    temp: String,
    next: ClipStage,
    action: ClipAction,
)
    requires
        work.stage == (ClipStage::Cutting { claim, temp }),
        work.follows(ClipEvent::Ffmpeg(outcome), next, action),
        !(outcome is Done),
    ensures
        next is Over,
        action matches ClipAction::Finish { remove, .. } && text::texts(remove@) == seq![
            temp@,
            claim.media_path@,
        ],
{
}

} // verus!
