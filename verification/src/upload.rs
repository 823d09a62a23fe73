//! The cloud upload thread's decisions.
//!
//! Uploads are network-bound and can take minutes, so they run apart from the
//! serial media worker: a long upload never delays the finalization of the
//! next pull. One job is worked on at a time.
use std::sync::Arc;

use vstd::prelude::*;

use crate::cloud;
use crate::cloud::{CloudCredentials, CloudError};
use crate::domain::{LibraryEntry, RecordingId};

verus! {

/// Progress events are throttled to this cadence so a fast link does not
/// flood the coordinator with snapshots.
pub const PROGRESS_INTERVAL_MS: u64 = 250;

#[derive(Clone, Copy, Debug, PartialEq, Eq, Structural)]
pub enum UploadAction {
    /// Upload the media and metadata, then fetch a share link.
    Upload,
    /// Only fetch a share link for an already uploaded video.
    ShareLink,
}

#[derive(Clone, Debug, PartialEq, Eq)]
pub struct UploadJob {
    pub action: UploadAction,
    pub entry: Arc<LibraryEntry>,
    pub credentials: CloudCredentials,
    /// The user asked for this job, so its link goes to the clipboard.
    pub requested: bool,
}

#[derive(Clone, Debug, PartialEq, Eq)]
pub enum UploadEvent {
    Progress { id: RecordingId, sent: u64, total: u64 },
    /// The job finished. `link` is absent when the upload succeeded but the
    /// API would not produce a share link; `link_error` says why.
    Finished {
        id: RecordingId,
        title: String,
        link: Option<String>,
        link_error: Option<String>,
        requested: bool,
    },
    Failed { id: RecordingId, title: String, action: UploadAction, message: String },
}

/// What the worker is at.
pub enum WorkerStage {
    Waiting,
    Checking(UploadJob),
    Uploading(UploadJob),
    Linking(UploadJob),
    Reporting,
    Stopped,
}

/// What the worker does next.
pub enum UploadStep {
    Receive,
    /// Check that the account can upload to its guild.
    CheckAccess,
    /// Upload the recording's media and metadata.
    Upload,
    /// Fetch the share link.
    FetchLink,
    Report(UploadEvent),
    Stop,
}

/// What came of the last step.
pub enum WorkerEvent {
    Job(UploadJob),
    /// The coordinator dropped the job sender.
    JobsClosed,
    Checked(Result<(), CloudError>),
    Uploaded(Result<(), CloudError>),
    Linked(Result<String, CloudError>),
    /// Whether somebody still listens to the events.
    Reported(bool),
}

/// Works on one job at a time until the coordinator is gone.
pub struct UploadWorker {
    pub stage: WorkerStage,
}

/// The report of a job that failed with `error`.
pub open spec fn reports_failure(event: UploadEvent, job: UploadJob, error: CloudError) -> bool {
    event matches UploadEvent::Failed { id, title, action, message } && {
        &&& id == job.entry.id
        &&& title == job.entry.title
        &&& action == job.action
        &&& message@ == error.words(cloud::quoted(error.guild()))
    }
}

fn failed(job: &UploadJob, error: &CloudError) -> (event: UploadEvent)
    ensures
        reports_failure(event, *job, *error),
{
    UploadEvent::Failed {
        id: job.entry.id.duplicate(),
        title: job.entry.title.clone(),
        action: job.action,
        message: error.message(),
    }
}

/// The report of a job whose share link came back as `linked`. Without a link
/// an upload is still finished; a job that was only about the link failed.
pub open spec fn reports_link(
    event: UploadEvent,
    job: UploadJob,
    linked: Result<String, CloudError>,
) -> bool {
    match linked {
        Ok(url) => event == (UploadEvent::Finished {
            id: job.entry.id,
            title: job.entry.title,
            link: Some(url),
            link_error: None,
            requested: job.requested,
        }),
        Err(error) => if job.action == UploadAction::Upload {
            event matches UploadEvent::Finished { id, title, link, link_error, requested } && {
                &&& id == job.entry.id
                &&& title == job.entry.title
                &&& link is None
                &&& link_error matches Some(message) && message@ == error.words(
                    cloud::quoted(error.guild()),
                )
                &&& requested == job.requested
            }
        } else {
            reports_failure(event, job, error)
        },
    }
}

fn link_event(job: &UploadJob, linked: Result<String, CloudError>) -> (event: UploadEvent)
    ensures
        reports_link(event, *job, linked),
{
    match linked {
        Ok(url) => UploadEvent::Finished {
            id: job.entry.id.duplicate(),
            title: job.entry.title.clone(),
            link: Some(url),
            link_error: None,
            requested: job.requested,
        },
        Err(error) => if job.action == UploadAction::Upload {
            UploadEvent::Finished {
                id: job.entry.id.duplicate(),
                title: job.entry.title.clone(),
                link: None,
                link_error: Some(error.message()),
                requested: job.requested,
            }
        } else {
            failed(job, &error)
        },
    }
}

impl UploadWorker {
    /// A worker that waits for its first job.
    pub fn new() -> (worker: Self)
        ensures
            worker.stage is Waiting,
    {
        UploadWorker { stage: WorkerStage::Waiting }
    }

    /// Whether `event` answers the step of this stage.
    pub open spec fn expects(self, event: WorkerEvent) -> bool {
        match self.stage {
            WorkerStage::Waiting => event is Job || event is JobsClosed,
            WorkerStage::Checking(_) => event is Checked,
            WorkerStage::Uploading(_) => event is Uploaded,
            WorkerStage::Linking(_) => event is Linked,
            WorkerStage::Reporting => event is Reported,
            WorkerStage::Stopped => false,
        }
    }

    /// What follows from `event`.
    pub open spec fn follows(self, event: WorkerEvent, next: UploadWorker, step: UploadStep) -> bool {
        match (self.stage, event) {
            (WorkerStage::Waiting, WorkerEvent::Job(job)) => match job.action {
                UploadAction::Upload => next.stage == WorkerStage::Checking(job)
                    && step is CheckAccess,
                UploadAction::ShareLink => next.stage == WorkerStage::Linking(job)
                    && step is FetchLink,
            },
            (WorkerStage::Waiting, WorkerEvent::JobsClosed) => next.stage is Stopped
                && step is Stop,
            (WorkerStage::Checking(job), WorkerEvent::Checked(checked)) => match checked {
                Ok(_) => next.stage == WorkerStage::Uploading(job) && step is Upload,
                Err(error) => next.stage is Reporting && (step matches UploadStep::Report(report)
                    && reports_failure(report, job, error)),
            },
            (WorkerStage::Uploading(job), WorkerEvent::Uploaded(uploaded)) => match uploaded {
                Ok(_) => next.stage == WorkerStage::Linking(job) && step is FetchLink,
                Err(error) => next.stage is Reporting && (step matches UploadStep::Report(report)
                    && reports_failure(report, job, error)),
            },
            (WorkerStage::Linking(job), WorkerEvent::Linked(linked)) => next.stage is Reporting && (
            step matches UploadStep::Report(report) && reports_link(report, job, linked)),
            (WorkerStage::Reporting, WorkerEvent::Reported(heard)) => if heard {
                next.stage is Waiting && step is Receive
            } else {
                next.stage is Stopped && step is Stop
            },
            _ => false,
        }
    }

    /// Take in what came of the last step and say what to do next. The first
    /// step is to receive a job.
    pub fn run(self, event: WorkerEvent) -> (result: (UploadWorker, UploadStep))
        requires
            self.expects(event),
        ensures
            self.follows(event, result.0, result.1),
    {
        let (stage, step) = match (self.stage, event) {
            (WorkerStage::Waiting, WorkerEvent::Job(job)) => match job.action {
                UploadAction::Upload => (WorkerStage::Checking(job), UploadStep::CheckAccess),
                UploadAction::ShareLink => (WorkerStage::Linking(job), UploadStep::FetchLink),
            },
            (WorkerStage::Waiting, WorkerEvent::JobsClosed) => (
                WorkerStage::Stopped,
                UploadStep::Stop,
            ),
            (WorkerStage::Checking(job), WorkerEvent::Checked(Ok(_))) => (
                WorkerStage::Uploading(job),
                UploadStep::Upload,
            ),
            (WorkerStage::Checking(job), WorkerEvent::Checked(Err(error))) => (
                WorkerStage::Reporting,
                UploadStep::Report(failed(&job, &error)),
            ),
            (WorkerStage::Uploading(job), WorkerEvent::Uploaded(Ok(_))) => (
                WorkerStage::Linking(job),
                UploadStep::FetchLink,
            ),
            (WorkerStage::Uploading(job), WorkerEvent::Uploaded(Err(error))) => (
                WorkerStage::Reporting,
                UploadStep::Report(failed(&job, &error)),
            ),
            (WorkerStage::Linking(job), WorkerEvent::Linked(linked)) => (
                WorkerStage::Reporting,
                UploadStep::Report(link_event(&job, linked)),
            ),
            (WorkerStage::Reporting, WorkerEvent::Reported(heard)) => if heard {
                (WorkerStage::Waiting, UploadStep::Receive)
            } else {
                (WorkerStage::Stopped, UploadStep::Stop)
            },
            (_, _) => {
                assert(false);
                (WorkerStage::Stopped, UploadStep::Stop)
            },
        };
        (UploadWorker { stage }, step)
    }
}

/// Nothing is uploaded for an account that was refused: the upload step comes
/// only after a check that passed.
pub proof fn uploads_follow_a_passed_check(
    worker: UploadWorker,
    event: WorkerEvent,
    next: UploadWorker,
    step: UploadStep,
)
    requires
        worker.follows(event, next, step),
        step is Upload,
    ensures
        worker.stage is Checking,
        event matches WorkerEvent::Checked(Ok(_)),
{
}

/// Lets progress through at a bounded rate; the end always passes.
#[derive(Clone, Copy, Debug, PartialEq, Eq)]
pub struct ProgressThrottle {
    pub last_ms: Option<u64>,
}

impl ProgressThrottle {
    pub fn new() -> (throttle: Self)
        ensures
            throttle.last_ms is None,
    {
        ProgressThrottle { last_ms: None }
    }

    /// Progress passes at the end, and otherwise no more often than the
    /// interval.
    pub open spec fn lets_through(
        self,
        sent: u64,
        total: u64,
        now_ms: u64,
        after: ProgressThrottle,
        pass: bool,
    ) -> bool {
        &&& pass == (sent >= total || (self.last_ms matches Some(last) ==> now_ms - last
            >= PROGRESS_INTERVAL_MS))
        &&& after.last_ms == (if pass {
            Some(now_ms)
        } else {
            self.last_ms
        })
    }

    /// Whether to report `sent` of `total` bytes now.
    pub fn passes(&mut self, sent: u64, total: u64, now_ms: u64) -> (pass: bool)
        ensures
            old(self).lets_through(sent, total, now_ms, *final(self), pass),
    {
        let recent = match self.last_ms {
            Some(last) => now_ms < last || now_ms - last < PROGRESS_INTERVAL_MS,
            None => false,
        };
        if sent < total && recent {
            return false;
        }
        self.last_ms = Some(now_ms);
        true
    }
}

} // verus!
