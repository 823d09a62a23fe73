//! One run of FFmpeg: its progress and its messages go to files of their own,
//! never to pipes, and neither file outlives the run.
use vstd::prelude::*;

use crate::media_jobs;
use crate::media_jobs::{command_args, failure, with_log_tail, FfmpegOutcome};
use crate::text;

verus! {

pub enum RunStage {
    MakingProgress { args: Vec<String> },
    MakingLog { args: Vec<String>, progress: String },
    OpeningLog { args: Vec<String>, progress: String, log: String },
    Spawning { progress: String, log: String },
    Watching { progress: String, log: String },
    ReadingLog { progress: String, log: String, message: String },
    Over,
}

/// What came of the last action.
pub enum RunEvent {
    FileMade(Result<String, String>),
    LogOpened(Result<(), String>),
    Spawned(Result<(), String>),
    Ended(FfmpegOutcome),
    /// The end of the log; empty where it could not be read.
    LogRead(String),
}

pub enum RunAction {
    /// Create a job file with this prefix and extension.
    MakeFile { prefix: &'static str, extension: &'static str },
    /// Open the log for FFmpeg to write to.
    OpenLog { path: String },
    Spawn { args: Vec<String> },
    /// Watch the child until it is gone.
    Watch { progress: String },
    /// Read the end of the log.
    ReadLog { path: String },
    /// Remove the files that are named and report the outcome.
    Finish { remove: Vec<String>, outcome: FfmpegOutcome },
}

/// Runs FFmpeg once.
pub struct FfmpegRun {
    pub stage: RunStage,
}

/// The run is over: these files go, and this is why it failed.
pub open spec fn gives_up(
    next: RunStage,
    action: RunAction,
    files: Seq<Seq<char>>,
    context: Seq<char>,
    error: Seq<char>,
) -> bool {
    &&& next is Over
    &&& action matches RunAction::Finish { remove, outcome } && text::texts(remove@) == files && (
    outcome matches FfmpegOutcome::Failed { message } && message@ == context + ": "@ + error)
}

impl RunStage {
    /// The files that the run has made so far.
    pub open spec fn files(self) -> Seq<Seq<char>> {
        match self {
            RunStage::MakingProgress { .. } => seq![],
            RunStage::MakingLog { progress, .. } => seq![progress@],
            RunStage::OpeningLog { progress, log, .. } => seq![progress@, log@],
            RunStage::Spawning { progress, log } => seq![progress@, log@],
            RunStage::Watching { progress, log } => seq![progress@, log@],
            RunStage::ReadingLog { progress, log, .. } => seq![progress@, log@],
            RunStage::Over => seq![],
        }
    }
}

fn files_of(progress: String, log: Option<String>) -> (files: Vec<String>)
    ensures
        text::texts(files@) == (match log {
            Some(log) => seq![progress@, log@],
            None => seq![progress@],
        }),
{
    let mut files: Vec<String> = Vec::new();
    files.push(progress);
    match log {
        Some(log) => {
            files.push(log);
            assert(text::texts(files@) =~= seq![progress@, log@]);
        },
        None => {
            assert(text::texts(files@) =~= seq![progress@]);
        },
    }
    files
}

fn give_up(files: Vec<String>, context: &str, error: &str) -> (result: (RunStage, RunAction))
    ensures
        gives_up(result.0, result.1, text::texts(files@), context@, error@),
{
    let outcome = FfmpegOutcome::Failed { message: failure(context, error) };
    (RunStage::Over, RunAction::Finish { remove: files, outcome })
}

impl FfmpegRun {
    /// Start a run with these arguments.
    pub fn start(args: Vec<String>) -> (started: (FfmpegRun, RunAction))
        ensures
            started.0.stage == (RunStage::MakingProgress { args }),
            started.1 matches RunAction::MakeFile { prefix, extension } && prefix@ == "progress"@
                && extension@ == "txt"@,
    {
        (
            FfmpegRun { stage: RunStage::MakingProgress { args } },
            RunAction::MakeFile { prefix: "progress", extension: "txt" },
        )
    }

    /// Whether `event` answers the action of this stage.
    pub open spec fn expects(self, event: RunEvent) -> bool {
        match self.stage {
            RunStage::MakingProgress { .. } | RunStage::MakingLog { .. } => event is FileMade,
            RunStage::OpeningLog { .. } => event is LogOpened,
            RunStage::Spawning { .. } => event is Spawned,
            RunStage::Watching { .. } => event is Ended,
            RunStage::ReadingLog { .. } => event is LogRead,
            RunStage::Over => false,
        }
    }

    /// What follows from `event`.
    pub open spec fn follows(self, event: RunEvent, next: RunStage, action: RunAction) -> bool {
        match (self.stage, event) {
            (RunStage::MakingProgress { args }, RunEvent::FileMade(Ok(progress))) => {
                &&& next == (RunStage::MakingLog { args, progress })
                &&& action matches RunAction::MakeFile { prefix, extension } && prefix@ == "ffmpeg"@
                    && extension@ == "log"@
            },
            (RunStage::MakingProgress { .. }, RunEvent::FileMade(Err(error))) => gives_up(
                next,
                action,
                seq![],
                "progress file"@,
                error@,
            ),
            (RunStage::MakingLog { args, progress }, RunEvent::FileMade(Ok(log))) => {
                &&& next == (RunStage::OpeningLog { args, progress, log })
                &&& action == (RunAction::OpenLog { path: log })
            },
            (RunStage::MakingLog { progress, .. }, RunEvent::FileMade(Err(error))) => gives_up(
                next,
                action,
                seq![progress@],
                "log file"@,
                error@,
            ),
            (RunStage::OpeningLog { args, progress, log }, RunEvent::LogOpened(Ok(_))) => {
                &&& next == (RunStage::Spawning { progress, log })
                &&& action matches RunAction::Spawn { args: all } && text::texts(all@) == seq![
                    "-progress"@,
                    progress@,
                    "-nostats"@,
                ] + text::texts(args@)
            },
            (RunStage::OpeningLog { progress, log, .. }, RunEvent::LogOpened(Err(error))) =>
            gives_up(next, action, seq![progress@, log@], "log file"@, error@),
            (RunStage::Spawning { progress, log }, RunEvent::Spawned(Ok(_))) => {
                &&& next == (RunStage::Watching { progress, log })
                &&& action == (RunAction::Watch { progress })
            },
            (RunStage::Spawning { progress, log }, RunEvent::Spawned(Err(error))) => gives_up(
                next,
                action,
                seq![progress@, log@],
                "spawn FFmpeg"@,
                error@,
            ),
            (RunStage::Watching { progress, log }, RunEvent::Ended(outcome)) => match outcome {
                FfmpegOutcome::Failed { message } => {
                    &&& next == (RunStage::ReadingLog { progress, log, message })
                    &&& action == (RunAction::ReadLog { path: log })
                },
                _ => {
                    &&& next is Over
                    &&& action matches RunAction::Finish { remove, outcome: reported }
                        && text::texts(remove@) == seq![progress@, log@] && reported == outcome
                },
            },
            (RunStage::ReadingLog { progress, log, message }, RunEvent::LogRead(tail)) => {
                &&& next is Over
                &&& action matches RunAction::Finish { remove, outcome } && text::texts(remove@)
                    == seq![progress@, log@] && (outcome matches FfmpegOutcome::Failed {
                    message: m,
                } && m@ == media_jobs::with_tail(message@, tail@))
            },
            _ => false,
        }
    }

    /// Take in what came of the last action and say what to do next.
    pub fn next(self, event: RunEvent) -> (result: (FfmpegRun, RunAction))
        requires
            self.expects(event),
        ensures
            self.follows(event, result.0.stage, result.1),
    {
        let (stage, action) = match (self.stage, event) {
            (RunStage::MakingProgress { args }, RunEvent::FileMade(Ok(progress))) => (
                RunStage::MakingLog { args, progress },
                RunAction::MakeFile { prefix: "ffmpeg", extension: "log" },
            ),
            (RunStage::MakingProgress { .. }, RunEvent::FileMade(Err(error))) => {
                let none: Vec<String> = Vec::new();
                assert(text::texts(none@) =~= seq![]);
                give_up(none, "progress file", &error)
            },
            (RunStage::MakingLog { args, progress }, RunEvent::FileMade(Ok(log))) => {
                let path = log.clone();
                (RunStage::OpeningLog { args, progress, log }, RunAction::OpenLog { path })
            },
            (RunStage::MakingLog { progress, .. }, RunEvent::FileMade(Err(error))) => give_up(
                files_of(progress, None),
                "log file",
                &error,
            ),
            (RunStage::OpeningLog { args, progress, log }, RunEvent::LogOpened(Ok(_))) => {
                let args = command_args(&progress, args);
                (RunStage::Spawning { progress, log }, RunAction::Spawn { args })
            },
            (RunStage::OpeningLog { progress, log, .. }, RunEvent::LogOpened(Err(error))) =>
            give_up(files_of(progress, Some(log)), "log file", &error),
            (RunStage::Spawning { progress, log }, RunEvent::Spawned(Ok(_))) => {
                let watched = progress.clone();
                (RunStage::Watching { progress, log }, RunAction::Watch { progress: watched })
            },
            (RunStage::Spawning { progress, log }, RunEvent::Spawned(Err(error))) => give_up(
                files_of(progress, Some(log)),
                "spawn FFmpeg",
                &error,
            ),
            (RunStage::Watching { progress, log }, RunEvent::Ended(outcome)) => match outcome {
                FfmpegOutcome::Failed { message } => {
                    let path = log.clone();
                    (
                        RunStage::ReadingLog { progress, log, message },
                        RunAction::ReadLog { path },
                    )
                },
                other => (
                    RunStage::Over,
                    RunAction::Finish { remove: files_of(progress, Some(log)), outcome: other },
                ),
            },
            (RunStage::ReadingLog { progress, log, message }, RunEvent::LogRead(tail)) => (
                RunStage::Over,
                RunAction::Finish {
                    remove: files_of(progress, Some(log)),
                    outcome: with_log_tail(FfmpegOutcome::Failed { message }, &tail),
                },
            ),
            (_, _) => {
                assert(false);
                (RunStage::Over, RunAction::MakeFile { prefix: "", extension: "" })
            },
        };
        (FfmpegRun { stage }, action)
    }
}

/// No run leaves a file behind: whatever it made by the time it ends is
/// removed.
pub proof fn runs_remove_their_files(
    run: FfmpegRun,
    event: RunEvent,
    next: RunStage,
    remove: Vec<String>,
    outcome: FfmpegOutcome,
)
    requires
        run.follows(event, next, RunAction::Finish { remove, outcome }),
    ensures
        text::texts(remove@) == run.stage.files(),
{
}

} // verus!
