//! Coordinator-owned application state and commands.
//!
//! The coordinator owns the configuration, the library index and the in-flight
//! recording. It decides; the caller performs what it decides on and reports
//! back. At most one media job is in flight at a time, so automatic
//! finalization always precedes queued user work.
use std::collections::VecDeque;
use std::sync::Arc;

use vstd::prelude::*;

use crate::activity::RecordingDraft;
use crate::config::{Config, LayoutSettings, ValidationProblem};
use crate::domain;
use crate::domain::{
    Category, CorrelatedActivity, DeathMarkerVisibility, GameFlavor, LibraryEntry,
    MarkerVisibility, Problem, ProblemView, RecorderStatus, RecordingId, RecoveryAction, WorkKind,
    WorkProgress,
};
use crate::media_jobs::MediaJob;
use crate::parser::ParsedEvent;
use crate::recorder::RecordingMode;
use crate::text::same_text;
use crate::upload::{UploadAction, UploadJob};

verus! {

/// Bounded problem list surfaced in the snapshot.
pub const MAX_PROBLEMS: usize = 8;

pub const CAPTURE_STOPPED_PROBLEM: &'static str = "Screen capture stopped unexpectedly.";

pub const CAPTURE_RESTART_FAILED_PROBLEM: &'static str = "Screen capture could not be restarted.";

/// Keep queued transcodes finite while preserving the one-worker design.
pub const MAX_MEDIA_QUEUE: usize = 16;

/// Queued cloud uploads, bounded like the media queue.
pub const MAX_UPLOAD_QUEUE: usize = 64;

/// Commands handled per tick before the loop returns to polling.
pub const COMMAND_BATCH: usize = 16;

/// Ranges are milliseconds into the source recording's media.
#[derive(Clone, Debug, PartialEq, Eq)]
pub struct ClipRange {
    pub source: RecordingId,
    pub start_ms: u64,
    pub end_ms: u64,
}

#[derive(PartialEq, Eq)]
pub enum Command {
    Arm,
    Disarm,
    ForceEnd,
    StartManual,
    StopManual,
    RunTest { category: Category },
    ReselectCaptureTarget,
    SaveConfig { draft: Box<Config> },
    SetProtected { ids: Vec<RecordingId>, value: bool },
    SetTag { id: RecordingId, tag: String },
    Delete { ids: Vec<RecordingId> },
    CreateClip(ClipRange),
    /// Upload the recordings to the Warcraft Recorder Pro cloud; each share
    /// link is copied once its upload finishes.
    Upload { ids: Vec<RecordingId> },
    /// Fetch and copy the share link of an already uploaded recording.
    ShareLink { id: RecordingId },
    SetSelectedCategory { category: Category },
    SetMarkerVisibility {
        deaths: DeathMarkerVisibility,
        encounters: MarkerVisibility,
        rounds: MarkerVisibility,
    },
    /// Debounced UI geometry write from the shell: divider and column widths.
    SaveLayout { layout: LayoutSettings },
    /// The user closed the "What's new" dialog for the running version.
    DismissReleaseNotes,
    Shutdown,
}

/// The in-flight recording, as the UI needs it.
#[derive(Clone, Debug, PartialEq, Eq)]
pub struct ActiveRecordingView {
    pub id: RecordingId,
    pub category: Category,
    pub title: String,
    pub mode: RecordingMode,
    /// Wall-clock anchor for the elapsed-time display.
    pub started_unix_ms: i64,
    pub requested_replay_ms: u64,
}

/// The upload the cloud thread is working on.
#[derive(Debug, PartialEq, Eq)]
pub struct UploadProgressView {
    pub id: RecordingId,
    pub title: String,
    /// `ShareLink` jobs only fetch a link and report no bytes.
    pub action: UploadAction,
    pub sent: u64,
    pub total: u64,
}

impl Clone for UploadProgressView {
    fn clone(&self) -> (copy: Self)
        ensures
            copy == *self,
    {
        UploadProgressView {
            id: self.id.duplicate(),
            title: self.title.clone(),
            action: self.action,
            sent: self.sent,
            total: self.total,
        }
    }
}

/// The newest share link the cloud returned.
#[derive(Debug, PartialEq, Eq)]
pub struct ShareLinkView {
    pub id: RecordingId,
    pub title: String,
    pub url: String,
    /// Increases with every link, so the shell can tell a new link from a
    /// snapshot that repeats the last one.
    pub serial: u64,
    /// The user asked for it: copy it to the clipboard. Automatic uploads
    /// never overwrite the clipboard.
    pub copy: bool,
}

impl Clone for ShareLinkView {
    fn clone(&self) -> (copy: Self)
        ensures
            copy == *self,
    {
        ShareLinkView {
            id: self.id.duplicate(),
            title: self.title.clone(),
            url: self.url.clone(),
            serial: self.serial,
            copy: self.copy,
        }
    }
}

#[derive(Debug, PartialEq, Eq)]
pub struct CloudView {
    /// Cloud upload is on and has an account, password and guild.
    pub configured: bool,
    pub current: Option<UploadProgressView>,
    pub queued: usize,
    pub link: Option<ShareLinkView>,
}

impl Default for CloudView {
    fn default() -> (view: Self)
        ensures
            view == (CloudView { configured: false, current: None, queued: 0, link: None }),
    {
        CloudView { configured: false, current: None, queued: 0, link: None }
    }
}

/// Everything the shell shows.
#[derive(PartialEq, Eq)]
pub struct AppSnapshot {
    pub entries: Arc<Vec<Arc<LibraryEntry>>>,
    pub correlations: Arc<Vec<CorrelatedActivity>>,
    pub category_counts: Vec<(Category, usize)>,
    pub status: RecorderStatus,
    pub active: Option<ActiveRecordingView>,
    pub config: Config,
    pub setup_problems: Vec<ValidationProblem>,
    /// One entry per enabled flavour: its config field name and whether
    /// advanced combat logging is on. `None` when `Config.wtf` could not be
    /// read, which is the normal case in the sandbox: the portal exports the
    /// chosen Logs folder alone, never its `WTF` sibling.
    pub advanced_logging: Vec<(&'static str, Option<bool>)>,
    pub problems: Vec<Problem>,
    pub work: Option<WorkProgress>,
    pub queued_jobs: usize,
    pub storage_used_bytes: u64,
    pub protected_over_limit: bool,
    pub cloud: CloudView,
}

/// The recording the coordinator is currently driving.
pub struct ActiveRecording {
    pub draft: RecordingDraft,
    pub mode: RecordingMode,
    pub started_unix_ms: i64,
    pub requested_replay_ms: u64,
    /// Wall-clock time the capture stops; set when the activity ended and the
    /// configured overrun is running out.
    pub stop_at_ms: Option<i64>,
}

/// A capture whose stop was requested and whose artifacts have not arrived.
/// `Finalize` carries the draft the media worker needs; `Discard` only waits
/// so the artifacts can be swept instead of kept.
pub enum EndingCapture {
    Finalize(Box<RecordingDraft>),
    Discard,
}

/// An activity held back because the previous capture was still being
/// written. `finished` is set when the activity also ended inside that
/// window: the capture still has to start, because the replay buffer holds
/// it, and then stop again after whatever overrun is left.
pub struct DeferredBegin {
    pub draft: Box<RecordingDraft>,
    pub finished: bool,
}

/// When the newest event of a flavour was seen, on the wall clock and in its
/// log.
pub struct SeenEvent {
    pub flavor: GameFlavor,
    pub wall_ms: i64,
    pub log_ms: i64,
}

/// What is being captured, or about to be.
pub struct CaptureState {
    pub active: Option<ActiveRecording>,
    /// Set between the stop request and the arrival of its artifacts.
    pub ending: Option<EndingCapture>,
    /// An activity that began while the previous capture was still flushing.
    pub deferred: Option<DeferredBegin>,
    /// Injected test end event, released once its wall-clock deadline passes.
    pub pending_test_end: Option<(i64, ParsedEvent)>,
    pub seen: Vec<SeenEvent>,
}

/// Media work that waits, and the job that is being worked on.
pub struct MediaState {
    pub finalizations: VecDeque<MediaJob>,
    pub user_jobs: VecDeque<MediaJob>,
    pub busy: Option<WorkKind>,
    pub work: Option<WorkProgress>,
}

/// Cloud uploads that wait, the one that is being worked on, and the newest
/// link.
pub struct UploadState {
    /// False once shutdown has released the upload thread.
    pub open: bool,
    pub queue: VecDeque<UploadJob>,
    pub current: Option<UploadProgressView>,
    pub link: Option<ShareLinkView>,
}

/// The library, as it was last read.
pub struct LibraryState {
    pub entries: Arc<Vec<Arc<LibraryEntry>>>,
    pub correlations: Arc<Vec<CorrelatedActivity>>,
    pub used_bytes: u64,
    pub protected_over_limit: bool,
}

pub struct Coordinator {
    pub config: Config,
    pub armed: bool,
    pub capture: CaptureState,
    pub media: MediaState,
    pub uploads: UploadState,
    pub library: LibraryState,
    pub problems: Vec<Problem>,
    pub setup_problems: Vec<ValidationProblem>,
    pub advanced_logging: Vec<(&'static str, Option<bool>)>,
    /// Whether anything changed that the shell has not been shown.
    pub dirty: bool,
    pub stopping: bool,
}

/// What a list of problems says.
pub open spec fn problem_views(problems: Seq<Problem>) -> Seq<ProblemView> {
    problems.map_values(|problem: Problem| problem@)
}

/// A list of problems with one more: the oldest makes room.
pub open spec fn with_problem(problems: Seq<ProblemView>, problem: ProblemView) -> Seq<
    ProblemView,
> {
    if problems.len() >= MAX_PROBLEMS {
        problems.push(problem).skip(1)
    } else {
        problems.push(problem)
    }
}

/// The problem list never outgrows its bound.
pub proof fn the_problem_list_stays_bounded(problems: Seq<ProblemView>, problem: ProblemView)
    requires
        problems.len() <= MAX_PROBLEMS,
    ensures
        1 <= with_problem(problems, problem).len() <= MAX_PROBLEMS,
        with_problem(problems, problem).last() == problem,
{
}

impl Coordinator {
    /// Bounds on everything that grows.
    pub open spec fn wf(self) -> bool {
        &&& self.problems@.len() <= MAX_PROBLEMS
        &&& self.media.finalizations@.len() <= MAX_MEDIA_QUEUE
        &&& self.media.user_jobs@.len() <= MAX_MEDIA_QUEUE
        &&& self.uploads.queue@.len() <= MAX_UPLOAD_QUEUE
        &&& kinds_sorted(self.media)
        &&& self.capture_wf()
        &&& self.uploads_wf()
    }

    /// No upload is queued twice, nor again while it is being worked on.
    pub open spec fn uploads_wf(self) -> bool {
        &&& forall|i: int, j: int|
            0 <= i < j < self.uploads.queue@.len() ==> !same_upload(
                #[trigger] self.uploads.queue@[i],
                #[trigger] self.uploads.queue@[j],
            )
        &&& self.uploads.current matches Some(current) ==> forall|i: int|
            0 <= i < self.uploads.queue@.len() ==> !is_upload(
                #[trigger] self.uploads.queue@[i],
                current.id@,
                current.action,
            )
    }

    /// A capture is either running or being written, never both, and an
    /// activity is only held back for one that is being written (or for a
    /// shutdown that is under way).
    pub open spec fn capture_wf(self) -> bool {
        &&& self.capture.active is Some ==> self.capture.ending is None
        &&& self.capture.deferred is Some ==> self.capture.ending is Some || self.stopping
    }

    /// `after` is `self` with one problem more to show.
    pub open spec fn complains(
        self,
        after: Coordinator,
        summary: Seq<char>,
        detail: Option<Seq<char>>,
        action: Option<RecoveryAction>,
        now_ms: i64,
    ) -> bool {
        &&& after == (Coordinator { problems: after.problems, dirty: true, ..self })
        &&& problem_views(after.problems@) == with_problem(
            problem_views(self.problems@),
            ProblemView {
                summary,
                safe_detail: detail,
                occurred_unix_ms: now_ms,
                recovery_action: action,
            },
        )
    }

    /// Add a problem; the oldest makes room.
    pub fn push_problem(
        &mut self,
        summary: &str,
        detail: Option<String>,
        action: Option<RecoveryAction>,
        now_ms: i64,
    )
        requires
            old(self).wf(),
        ensures
            final(self).wf(),
            old(self).complains(
                *final(self),
                summary@,
                domain::text_view(detail),
                action,
                now_ms,
            ),
    {
        let problem = Problem {
            summary: summary.to_owned(),
            safe_detail: detail,
            occurred_unix_ms: now_ms,
            recovery_action: action,
        };
        let ghost view = problem@;
        self.problems.push(problem);
        assert(problem_views(self.problems@) =~= problem_views(old(self).problems@).push(view));
        if self.problems.len() > MAX_PROBLEMS {
            let ghost all = self.problems@;
            self.problems.remove(0);
            assert(problem_views(self.problems@) =~= problem_views(all).skip(1));
        }
        self.dirty = true;
    }
}

/// The job does this with this recording.
pub open spec fn is_upload(job: UploadJob, id: Seq<char>, action: UploadAction) -> bool {
    job.entry.id@ == id && job.action == action
}

/// Both jobs do the same with the same recording.
pub open spec fn same_upload(a: UploadJob, b: UploadJob) -> bool {
    is_upload(a, b.entry.id@, b.action)
}

/// Each queue holds one kind of work.
pub open spec fn kinds_sorted(media: MediaState) -> bool {
    &&& forall|i: int|
        0 <= i < media.finalizations@.len() ==> (#[trigger] media.finalizations@[i]).work()
            == WorkKind::Finalize
    &&& forall|i: int|
        0 <= i < media.user_jobs@.len() ==> (#[trigger] media.user_jobs@[i]).work()
            == WorkKind::Clip
}

/// A problem that is gone once capture runs again.
pub open spec fn is_capture_problem(problem: Problem) -> bool {
    problem.summary@ == CAPTURE_STOPPED_PROBLEM@ || problem.summary@
        == CAPTURE_RESTART_FAILED_PROBLEM@
}

/// The problems that stay when capture runs again, in their order.
pub open spec fn without_capture_problems(problems: Seq<Problem>) -> Seq<Problem>
    decreases problems.len(),
{
    if problems.len() == 0 {
        problems
    } else {
        let before = without_capture_problems(problems.drop_last());
        if is_capture_problem(problems.last()) {
            before
        } else {
            before.push(problems.last())
        }
    }
}

/// Clearing recovered problems never lengthens the list.
pub proof fn lemma_without_shrinks(problems: Seq<Problem>)
    ensures
        without_capture_problems(problems).len() <= problems.len(),
    decreases problems.len(),
{
    if problems.len() > 0 {
        lemma_without_shrinks(problems.drop_last());
    }
}

/// Remove the problems that are gone once capture runs again; whether there
/// were any.
pub fn clear_recovered_capture_problems(problems: &mut Vec<Problem>) -> (changed: bool)
    ensures
        final(problems)@ == without_capture_problems(old(problems)@),
        changed == (final(problems)@.len() != old(problems)@.len()),
{
    let previous_len: usize = problems.len();
    let ghost all = problems@;
    let mut kept: Vec<Problem> = Vec::new();
    let mut i: usize = 0;
    while i < problems.len()
        invariant
            i <= problems@.len(),
            problems@ == all,
            kept@ == without_capture_problems(all.take(i as int)),
        decreases problems@.len() - i,
    {
        assert(all.take(i + 1).drop_last() =~= all.take(i as int));
        let gone = same_text(&problems[i].summary, CAPTURE_STOPPED_PROBLEM) || same_text(
            &problems[i].summary,
            CAPTURE_RESTART_FAILED_PROBLEM,
        );
        if !gone {
            kept.push(problems[i].clone());
        }
        i = i + 1;
    }
    assert(all.take(i as int) =~= all);
    *problems = kept;
    problems.len() != previous_len
}

/// Clearing recovered problems touches nothing else: whatever stays was there
/// before, and no capture problem stays.
pub proof fn clearing_keeps_other_problems(problems: Seq<Problem>, i: int)
    requires
        0 <= i < without_capture_problems(problems).len(),
    ensures
        !is_capture_problem(without_capture_problems(problems)[i]),
        problems.contains(without_capture_problems(problems)[i]),
    decreases problems.len(),
{
    let before = without_capture_problems(problems.drop_last());
    if i < before.len() {
        clearing_keeps_other_problems(problems.drop_last(), i);
        let kept = before[i];
        let j = choose|j: int| 0 <= j < problems.drop_last().len() && problems.drop_last()[j] == kept;
        assert(problems[j] == kept);
    } else {
        assert(problems[problems.len() - 1] == problems.last());
    }
}

} // verus!
