//! Replacing the stored configuration so that a failed write never touches
//! the file that is there.
use vstd::prelude::*;

use crate::config::{ConfigError, WritePlan, WriteStep};
use crate::text;

verus! {

/// How far a write has got.
pub enum WriteStage {
    MakingDirectory,
    /// The configuration is being turned into text.
    Encoding,
    /// What an earlier write may have left is being removed.
    Clearing { temporary: String, text: String },
    Creating { temporary: String, text: String },
    Writing { temporary: String },
    Syncing { temporary: String },
    Replacing { temporary: String },
    SyncingDirectory { temporary: String },
    /// The write failed and its file is being removed.
    Cleaning { error: ConfigError },
    Over,
}

/// What came of the last action.
pub enum WriteEvent {
    Done(Result<(), String>),
    Encoded(Result<String, String>),
    /// The file is gone, or could not be removed; either is as good.
    Removed,
}

/// What to do next.
pub enum WriteAction {
    CreateDirectory { path: String },
    /// Turn the configuration into text.
    Encode,
    Remove { path: String },
    /// Create the file, which must not be there, for its owner alone.
    Create { path: String },
    Write { path: String, text: String },
    Sync { path: String },
    Replace { from: String, to: String },
    SyncDirectory { path: String },
    Finish(Result<(), ConfigError>),
}

/// The write of a configuration, step by step.
pub struct ConfigWrite {
    pub plan: WritePlan,
    pub stage: WriteStage,
}

/// The error of a step that failed.
pub open spec fn is_step_error(
    error: ConfigError,
    plan: WritePlan,
    step: WriteStep,
    temporary: Seq<char>,
    cause: String,
) -> bool {
    error matches ConfigError::Io { operation, path, source } && {
        &&& operation@ == step.name()
        &&& source == cause
        &&& path@ == (match step {
            WriteStep::CreateDirectory | WriteStep::SyncDirectory => plan.directory@,
            WriteStep::Replace => plan.path@,
            _ => temporary,
        })
    }
}

impl ConfigWrite {
    /// The first step is to make sure of the directory.
    pub fn start(plan: WritePlan) -> (started: (ConfigWrite, WriteAction))
        ensures
            started.0.plan == plan,
            started.0.stage is MakingDirectory,
            started.1 == (WriteAction::CreateDirectory { path: plan.directory }),
    {
        let path = plan.directory.clone();
        (
            ConfigWrite { plan, stage: WriteStage::MakingDirectory },
            WriteAction::CreateDirectory { path },
        )
    }

    /// Whether `event` answers the action of this stage.
    pub open spec fn expects(self, event: WriteEvent) -> bool {
        match self.stage {
            WriteStage::Encoding => event is Encoded,
            WriteStage::Clearing { .. } | WriteStage::Cleaning { .. } => event is Removed,
            WriteStage::Over => false,
            _ => event is Done,
        }
    }

    /// The write failed at a step: its file is removed before that is said.
    pub open spec fn cleans_up(
        self,
        step: WriteStep,
        temporary: String,
        cause: String,
        next: WriteStage,
        action: WriteAction,
    ) -> bool {
        &&& next matches WriteStage::Cleaning { error } && is_step_error(
            error,
            self.plan,
            step,
            temporary@,
            cause,
        ) && error.committed() == (step == WriteStep::SyncDirectory)
        &&& action == (WriteAction::Remove { path: temporary })
    }

    /// What follows from `event`.
    pub open spec fn follows(self, event: WriteEvent, next: WriteStage, action: WriteAction) -> bool {
        match (self.stage, event) {
            (WriteStage::MakingDirectory, WriteEvent::Done(Ok(_))) => next is Encoding
                && action is Encode,
            (WriteStage::MakingDirectory, WriteEvent::Done(Err(cause))) => next is Over && (
            action matches WriteAction::Finish(Err(error)) && is_step_error(
                error,
                self.plan,
                WriteStep::CreateDirectory,
                seq![],
                cause,
            ) && !error.committed()),
            (WriteStage::Encoding, WriteEvent::Encoded(Err(cause))) => next is Over && action
                == WriteAction::Finish(
                Err(ConfigError::InvalidJson { path: self.plan.path, source: cause }),
            ),
            (WriteStage::Encoding, WriteEvent::Encoded(Ok(text))) => match text::file_name(
                self.plan.path@,
            ) {
                Some(name) => next matches WriteStage::Clearing { temporary, text: kept } && kept
                    == text && temporary@ == text::joined(self.plan.directory@, name + ".tmp"@)
                    && action == (WriteAction::Remove { path: temporary }),
                None => next is Over && (action matches WriteAction::Finish(
                    Err(ConfigError::Io { operation, path, source }),
                ) && operation@ == "resolve config filename"@ && path@ == self.plan.path@
                    && source@ == "config path has no filename"@),
            },
            (WriteStage::Clearing { temporary, text }, WriteEvent::Removed) => next == (
            WriteStage::Creating { temporary, text }) && action == (WriteAction::Create {
                path: temporary,
            }),
            (
                WriteStage::Creating { temporary, text },
                WriteEvent::Done(Ok(_)),
            ) => next == (WriteStage::Writing { temporary }) && (action matches WriteAction::Write {
                path,
                text: written,
            } && path == temporary && written@ == text@ + "\n"@),
            (WriteStage::Creating { temporary, .. }, WriteEvent::Done(Err(cause))) => self.cleans_up(
                WriteStep::CreateTemporary,
                temporary,
                cause,
                next,
                action,
            ),
            (WriteStage::Writing { temporary }, WriteEvent::Done(Ok(_))) => next == (
            WriteStage::Syncing { temporary }) && action == (WriteAction::Sync { path: temporary }),
            (WriteStage::Writing { temporary }, WriteEvent::Done(Err(cause))) => self.cleans_up(
                WriteStep::WriteTemporary,
                temporary,
                cause,
                next,
                action,
            ),
            (WriteStage::Syncing { temporary }, WriteEvent::Done(Ok(_))) => next == (
            WriteStage::Replacing { temporary }) && action == (WriteAction::Replace {
                from: temporary,
                to: self.plan.path,
            }),
            (WriteStage::Syncing { temporary }, WriteEvent::Done(Err(cause))) => self.cleans_up(
                WriteStep::SyncTemporary,
                temporary,
                cause,
                next,
                action,
            ),
            (WriteStage::Replacing { temporary }, WriteEvent::Done(Ok(_))) => next == (
            WriteStage::SyncingDirectory { temporary }) && action == (WriteAction::SyncDirectory {
                path: self.plan.directory,
            }),
            (WriteStage::Replacing { temporary }, WriteEvent::Done(Err(cause))) => self.cleans_up(
                WriteStep::Replace,
                temporary,
                cause,
                next,
                action,
            ),
            (WriteStage::SyncingDirectory { .. }, WriteEvent::Done(Ok(_))) => next is Over && (
            action matches WriteAction::Finish(Ok(_))),
            (
                WriteStage::SyncingDirectory { temporary },
                WriteEvent::Done(Err(cause)),
            ) => self.cleans_up(WriteStep::SyncDirectory, temporary, cause, next, action),
            (WriteStage::Cleaning { error }, WriteEvent::Removed) => next is Over && action
                == WriteAction::Finish(Err(error)),
            _ => false,
        }
    }

    fn clean_up(plan: &WritePlan, step: WriteStep, temporary: String, cause: String) -> (result: (
        WriteStage,
        WriteAction,
    ))
        ensures
            (ConfigWrite { plan: *plan, stage: WriteStage::Over }).cleans_up(
                step,
                temporary,
                cause,
                result.0,
                result.1,
            ),
    {
        let error = plan.failed(step, &temporary, cause);
        (WriteStage::Cleaning { error }, WriteAction::Remove { path: temporary })
    }

    /// Take in what came of the last action and say what to do next.
    pub fn next(self, event: WriteEvent) -> (result: (ConfigWrite, WriteAction))
        requires
            self.expects(event),
        ensures
            result.0.plan == self.plan,
            self.follows(event, result.0.stage, result.1),
    {
        let ConfigWrite { plan, stage } = self;
        let (stage, action) = match (stage, event) {
            (WriteStage::MakingDirectory, WriteEvent::Done(Ok(_))) => (
                WriteStage::Encoding,
                WriteAction::Encode,
            ),
            (WriteStage::MakingDirectory, WriteEvent::Done(Err(cause))) => (
                WriteStage::Over,
                WriteAction::Finish(Err(plan.failed(WriteStep::CreateDirectory, "", cause))),
            ),
            (WriteStage::Encoding, WriteEvent::Encoded(Err(cause))) => (
                WriteStage::Over,
                WriteAction::Finish(
                    Err(ConfigError::InvalidJson { path: plan.path.clone(), source: cause }),
                ),
            ),
            (WriteStage::Encoding, WriteEvent::Encoded(Ok(text))) => match plan.temporary_path() {
                Ok(temporary) => {
                    let path = temporary.clone();
                    (WriteStage::Clearing { temporary, text }, WriteAction::Remove { path })
                },
                Err(error) => (WriteStage::Over, WriteAction::Finish(Err(error))),
            },
            (WriteStage::Clearing { temporary, text }, WriteEvent::Removed) => {
                let path = temporary.clone();
                (WriteStage::Creating { temporary, text }, WriteAction::Create { path })
            },
            (WriteStage::Creating { temporary, text }, WriteEvent::Done(Ok(_))) => {
                let path = temporary.clone();
                let mut text = text;
                text.append("\n");
                (WriteStage::Writing { temporary }, WriteAction::Write { path, text })
            },
            (WriteStage::Creating { temporary, .. }, WriteEvent::Done(Err(cause))) =>
            Self::clean_up(&plan, WriteStep::CreateTemporary, temporary, cause),
            (WriteStage::Writing { temporary }, WriteEvent::Done(Ok(_))) => {
                let path = temporary.clone();
                (WriteStage::Syncing { temporary }, WriteAction::Sync { path })
            },
            (WriteStage::Writing { temporary }, WriteEvent::Done(Err(cause))) => Self::clean_up(
                &plan,
                WriteStep::WriteTemporary,
                temporary,
                cause,
            ),
            (WriteStage::Syncing { temporary }, WriteEvent::Done(Ok(_))) => {
                let from = temporary.clone();
                let to = plan.path.clone();
                (WriteStage::Replacing { temporary }, WriteAction::Replace { from, to })
            },
            (WriteStage::Syncing { temporary }, WriteEvent::Done(Err(cause))) => Self::clean_up(
                &plan,
                WriteStep::SyncTemporary,
                temporary,
                cause,
            ),
            (WriteStage::Replacing { temporary }, WriteEvent::Done(Ok(_))) => {
                let path = plan.directory.clone();
                (WriteStage::SyncingDirectory { temporary }, WriteAction::SyncDirectory { path })
            },
            (WriteStage::Replacing { temporary }, WriteEvent::Done(Err(cause))) => Self::clean_up(
                &plan,
                WriteStep::Replace,
                temporary,
                cause,
            ),
            (WriteStage::SyncingDirectory { .. }, WriteEvent::Done(Ok(_))) => (
                WriteStage::Over,
                WriteAction::Finish(Ok(())),
            ),
            (WriteStage::SyncingDirectory { temporary }, WriteEvent::Done(Err(cause))) =>
            Self::clean_up(&plan, WriteStep::SyncDirectory, temporary, cause),
            (WriteStage::Cleaning { error }, WriteEvent::Removed) => (
                WriteStage::Over,
                WriteAction::Finish(Err(error)),
            ),
            (_, _) => {
                assert(false);
                (WriteStage::Over, WriteAction::Encode)
            },
        };
        (ConfigWrite { plan, stage }, action)
    }
}

/// The stored file is only ever replaced, and only by a complete text that has
/// reached the disk: a write that fails before leaves it as it was.
pub proof fn only_synced_text_replaces_the_config(
    write: ConfigWrite,
    event: WriteEvent,
    next: WriteStage,
    action: WriteAction,
)
    requires
        write.follows(event, next, action),
        action matches WriteAction::Replace { .. } || next is SyncingDirectory,
    ensures
        action matches WriteAction::Replace { from, to } ==> {
            &&& to == write.plan.path
            &&& write.stage == (WriteStage::Syncing { temporary: from })
            &&& event matches WriteEvent::Done(Ok(_))
        },
        next is SyncingDirectory ==> write.stage is Replacing,
{
}

/// A write that failed after it had created its file does not end before that
/// file was removed.
pub proof fn failed_writes_clean_up(
    write: ConfigWrite,
    event: WriteEvent,
    next: WriteStage,
    action: WriteAction,
)
    requires
        write.follows(event, next, action),
        action matches WriteAction::Finish(Err(_)),
    ensures
        write.stage is MakingDirectory || write.stage is Encoding || write.stage is Cleaning,
{
}

/// A write succeeds only once the file was replaced and its directory synced.
pub proof fn successful_writes_are_durable(
    write: ConfigWrite,
    event: WriteEvent,
    next: WriteStage,
    action: WriteAction,
)
    requires
        write.follows(event, next, action),
        action matches WriteAction::Finish(Ok(_)),
    ensures
        write.stage is SyncingDirectory,
        event matches WriteEvent::Done(Ok(_)),
{
}

} // verus!
