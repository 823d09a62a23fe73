//! Media jobs and cloud uploads: what waits, what is worked on, and what the
//! user is told when it ends.
use std::sync::Arc;

use vstd::prelude::*;

use crate::coordinator;
use crate::coordinator::{
    ClipRange, Coordinator, EndingCapture, MediaState, ShareLinkView, UploadProgressView,
    UploadState, MAX_MEDIA_QUEUE, MAX_UPLOAD_QUEUE,
};
use crate::domain;
use crate::domain::{share, LibraryEntry, RecordingId, RecoveryAction, WorkKind};
use crate::media_jobs::{MediaEvent, MediaJob};
use crate::text;
use crate::text::push_decimal;
use crate::upload::{UploadAction, UploadEvent, UploadJob};

verus! {

/// How handing a job to its worker went.
pub enum Handover<T> {
    Sent,
    /// The worker is not ready; the job comes back.
    Full(T),
    /// The worker is gone.
    Disconnected,
}

/// What the caller does after an event of the media worker.
pub enum MediaReaction {
    Nothing,
    /// Fold the new entry into the library, queue its upload where asked for,
    /// then count the library and enforce its limit.
    Fold { entry: Arc<LibraryEntry>, upload: bool },
}

impl Coordinator {
    /// A capture that has been asked to stop counts as queued finalization:
    /// its artifacts are moments away.
    pub open spec fn finalization_pending(self) -> bool {
        self.capture.ending matches Some(EndingCapture::Finalize(_))
    }

    /// Finalization is always chosen before queued user work, and only one
    /// job is in flight at a time.
    pub open spec fn dispatches_media(self, after: Coordinator, job: Option<MediaJob>) -> bool {
        &&& after == (Coordinator {
            media: MediaState {
                finalizations: after.media.finalizations,
                user_jobs: after.media.user_jobs,
                ..self.media
            },
            ..self
        })
        &&& if self.media.busy is Some {
            job is None && after.media == self.media
        } else if self.media.finalizations@.len() > 0 {
            &&& job == Some(self.media.finalizations@[0])
            &&& after.media.finalizations@ == self.media.finalizations@.skip(1)
            &&& after.media.user_jobs@ == self.media.user_jobs@
        } else if self.media.user_jobs@.len() > 0 && !self.finalization_pending() {
            &&& job == Some(self.media.user_jobs@[0])
            &&& after.media.finalizations@ == self.media.finalizations@
            &&& after.media.user_jobs@ == self.media.user_jobs@.skip(1)
        } else {
            &&& job is None
            &&& after.media.finalizations@ == self.media.finalizations@
            &&& after.media.user_jobs@ == self.media.user_jobs@
        }
    }

    /// A job for the media worker, if one may go out now.
    pub fn dispatch_media(&mut self) -> (job: Option<MediaJob>)
        requires
            old(self).wf(),
        ensures
            final(self).wf(),
            old(self).dispatches_media(*final(self), job),
            job matches Some(j) ==> final(self).may_return(j),
    {
        if self.media.busy.is_some() {
            return None;
        }
        match self.media.finalizations.pop_front() {
            Some(job) => {
                assert(self.media.finalizations@ =~= old(self).media.finalizations@.skip(1));
                return Some(job);
            },
            None => {},
        }
        let pending = match &self.capture.ending {
            Some(EndingCapture::Finalize(_)) => true,
            _ => false,
        };
        if pending {
            return None;
        }
        let job = self.media.user_jobs.pop_front();
        match job {
            Some(job) => {
                assert(self.media.user_jobs@ =~= old(self).media.user_jobs@.skip(1));
                Some(job)
            },
            None => None,
        }
    }

    /// There is room to put the job back where it came from.
    pub open spec fn may_return(self, job: MediaJob) -> bool {
        match job.work() {
            WorkKind::Finalize => self.media.finalizations@.len() < MAX_MEDIA_QUEUE,
            WorkKind::Clip => self.media.user_jobs@.len() < MAX_MEDIA_QUEUE,
        }
    }

    /// A job of `kind` was handed to the media worker: it is being worked on,
    /// is back in its place, or the user is told that the worker is gone.
    pub open spec fn hands_over_media(
        self,
        kind: WorkKind,
        outcome: Handover<MediaJob>,
        now_ms: i64,
        after: Coordinator,
    ) -> bool {
        match outcome {
            Handover::Sent => after == (Coordinator {
                media: MediaState { busy: Some(kind), ..self.media },
                dirty: true,
                ..self
            }),
            Handover::Full(job) => {
                &&& after == (Coordinator {
                    media: MediaState {
                        finalizations: after.media.finalizations,
                        user_jobs: after.media.user_jobs,
                        ..self.media
                    },
                    ..self
                })
                &&& after.media.finalizations@ == (if kind == WorkKind::Finalize {
                    seq![job] + self.media.finalizations@
                } else {
                    self.media.finalizations@
                })
                &&& after.media.user_jobs@ == (if kind == WorkKind::Clip {
                    seq![job] + self.media.user_jobs@
                } else {
                    self.media.user_jobs@
                })
            },
            Handover::Disconnected => self.complains(
                after,
                "The media worker is unavailable."@,
                None,
                Some(RecoveryAction::Quit),
                now_ms,
            ),
        }
    }

    /// A job of `kind` was handed to the media worker.
    pub fn media_handed_over(&mut self, kind: WorkKind, outcome: Handover<MediaJob>, now_ms: i64)
        requires
            old(self).wf(),
            outcome matches Handover::Full(job) ==> job.work() == kind && old(self).may_return(job),
        ensures
            final(self).wf(),
            old(self).hands_over_media(kind, outcome, now_ms, *final(self)),
    {
        match outcome {
            Handover::Sent => {
                self.media.busy = Some(kind);
                self.dirty = true;
            },
            Handover::Full(job) => {
                if kind == WorkKind::Finalize {
                    self.media.finalizations.push_front(job);
                    assert(self.media.finalizations@ =~= seq![job] + old(self).media.finalizations@);
                } else {
                    self.media.user_jobs.push_front(job);
                    assert(self.media.user_jobs@ =~= seq![job] + old(self).media.user_jobs@);
                }
            },
            Handover::Disconnected => self.push_problem(
                "The media worker is unavailable.",
                None,
                Some(RecoveryAction::Quit),
                now_ms,
            ),
        }
    }

    /// Whether a saved recording is uploaded without being asked.
    pub open spec fn uploads_by_itself(self, kind: WorkKind) -> bool {
        kind == WorkKind::Finalize && self.config.cloud.auto_upload
            && self.config.cloud.configured()
    }

    /// The media worker is free again.
    pub open spec fn free(self) -> Coordinator {
        Coordinator {
            media: MediaState { busy: None, work: None, ..self.media },
            dirty: true,
            ..self
        }
    }

    /// What an event of the media worker leaves, and what is to be done.
    pub open spec fn follows_media(
        self,
        event: MediaEvent,
        now_ms: i64,
        after: Coordinator,
        reaction: MediaReaction,
    ) -> bool {
        match event {
            MediaEvent::Progress(progress) => {
                &&& reaction is Nothing
                &&& after == (Coordinator {
                    media: MediaState { work: Some(progress), ..self.media },
                    dirty: true,
                    ..self
                })
            },
            MediaEvent::Completed { kind, entry } => {
                &&& reaction == (MediaReaction::Fold {
                    entry,
                    upload: self.uploads_by_itself(kind),
                })
                &&& after == self.free()
            },
            MediaEvent::Failed { kind, message } => {
                &&& reaction is Nothing
                &&& self.free().complains(
                    after,
                    match kind {
                        WorkKind::Finalize => "A recording could not be saved."@,
                        WorkKind::Clip => "The clip could not be created."@,
                    },
                    Some(message@),
                    Some(RecoveryAction::OpenLogs),
                    now_ms,
                )
            },
            MediaEvent::Cancelled { .. } => reaction is Nothing && after == self.free(),
        }
    }

    /// Take in an event of the media worker.
    pub fn media_event(&mut self, event: MediaEvent, now_ms: i64) -> (reaction: MediaReaction)
        requires
            old(self).wf(),
        ensures
            final(self).wf(),
            old(self).follows_media(event, now_ms, *final(self), reaction),
    {
        self.dirty = true;
        match event {
            MediaEvent::Progress(progress) => {
                self.media.work = Some(progress);
                MediaReaction::Nothing
            },
            MediaEvent::Completed { kind, entry } => {
                self.media.busy = None;
                self.media.work = None;
                let upload = kind == WorkKind::Finalize && self.config.cloud.auto_upload
                    && self.config.cloud.credentials().is_some();
                MediaReaction::Fold { entry, upload }
            },
            MediaEvent::Failed { kind, message } => {
                self.media.busy = None;
                self.media.work = None;
                let summary = match kind {
                    WorkKind::Finalize => "A recording could not be saved.",
                    WorkKind::Clip => "The clip could not be created.",
                };
                self.push_problem(summary, Some(message), Some(RecoveryAction::OpenLogs), now_ms);
                MediaReaction::Nothing
            },
            MediaEvent::Cancelled { .. } => {
                self.media.busy = None;
                self.media.work = None;
                MediaReaction::Nothing
            },
        }
    }
}

/// The first entry with this identity.
pub open spec fn find_entry(entries: Seq<Arc<LibraryEntry>>, id: Seq<char>) -> Option<
    Arc<LibraryEntry>,
>
    decreases entries.len(),
{
    if entries.len() == 0 {
        None
    } else if entries[0].id@ == id {
        Some(entries[0])
    } else {
        find_entry(entries.skip(1), id)
    }
}

/// What is found has the identity that was looked for.
pub proof fn lemma_found_entry(entries: Seq<Arc<LibraryEntry>>, id: Seq<char>)
    ensures
        find_entry(entries, id) matches Some(entry) ==> entry.id@ == id,
    decreases entries.len(),
{
    if entries.len() > 0 && entries[0].id@ != id {
        lemma_found_entry(entries.skip(1), id);
    }
}

impl Coordinator {
    /// The library's entry with this identity.
    pub fn entry(&self, id: &RecordingId) -> (entry: Option<Arc<LibraryEntry>>)
        ensures
            entry == find_entry(self.library.entries@, id@),
    {
        let mut i: usize = 0;
        let entries: &Vec<Arc<LibraryEntry>> = &self.library.entries;
        assert(entries@.skip(0) =~= entries@);
        while i < entries.len()
            invariant
                i <= entries@.len(),
                entries@ == self.library.entries@,
                find_entry(entries@.skip(i as int), id@) == find_entry(entries@, id@),
            decreases entries@.len() - i,
        {
            assert(entries@.skip(i as int).skip(1) =~= entries@.skip(i + 1));
            if entries[i].id.same_as(id) {
                return Some(share(&entries[i]));
            }
            i = i + 1;
        }
        None
    }

    /// A clip was queued, or the user was told why not.
    pub open spec fn queues_clip(self, range: ClipRange, now_ms: i64, after: Coordinator) -> bool {
        match find_entry(self.library.entries@, range.source@) {
            None => self.complains(
                after,
                "The clip source is no longer in the library."@,
                Some(range.source@),
                Some(RecoveryAction::Retry),
                now_ms,
            ),
            Some(source) => if self.media.user_jobs@.len() >= MAX_MEDIA_QUEUE {
                self.complains(
                    after,
                    "The media work queue is full."@,
                    None,
                    Some(RecoveryAction::Retry),
                    now_ms,
                )
            } else {
                &&& after == (Coordinator {
                    media: MediaState { user_jobs: after.media.user_jobs, ..self.media },
                    ..self
                })
                &&& after.media.user_jobs@ == self.media.user_jobs@.push(
                    MediaJob::CreateClip {
                        source,
                        start_ms: range.start_ms,
                        end_ms: range.end_ms,
                    },
                )
            },
        }
    }

    /// Queue a clip of a recording.
    pub fn queue_clip(&mut self, range: &ClipRange, now_ms: i64)
        requires
            old(self).wf(),
        ensures
            final(self).wf(),
            old(self).queues_clip(*range, now_ms, *final(self)),
    {
        match self.entry(&range.source) {
            None => self.push_problem(
                "The clip source is no longer in the library.",
                Some(range.source.as_str().to_owned()),
                Some(RecoveryAction::Retry),
                now_ms,
            ),
            Some(source) => {
                if self.media.user_jobs.len() >= MAX_MEDIA_QUEUE {
                    self.push_problem(
                        "The media work queue is full.",
                        None,
                        Some(RecoveryAction::Retry),
                        now_ms,
                    );
                } else {
                    self.media.user_jobs.push_back(
                        MediaJob::CreateClip {
                            source,
                            start_ms: range.start_ms,
                            end_ms: range.end_ms,
                        },
                    );
                }
            },
        }
    }
}

impl Coordinator {
    /// The job is queued, or being worked on.
    pub open spec fn upload_known(self, id: Seq<char>, action: UploadAction) -> bool {
        ||| self.uploads.current matches Some(current) && current.id@ == id && current.action
            == action
        ||| exists|i: int|
            0 <= i < self.uploads.queue@.len() && coordinator::is_upload(
                #[trigger] self.uploads.queue@[i],
                id,
                action,
            )
    }

    fn knows_upload(&self, id: &RecordingId, action: UploadAction) -> (known: bool)
        ensures
            known == self.upload_known(id@, action),
    {
        match &self.uploads.current {
            Some(current) => {
                if current.action == action && current.id.same_as(id) {
                    return true;
                }
            },
            None => {},
        }
        let mut i: usize = 0;
        while i < self.uploads.queue.len()
            invariant
                i <= self.uploads.queue@.len(),
                !(self.uploads.current matches Some(current) && current.id@ == id@
                    && current.action == action),
                forall|j: int|
                    0 <= j < i ==> !coordinator::is_upload(
                        #[trigger] self.uploads.queue@[j],
                        id@,
                        action,
                    ),
            decreases self.uploads.queue@.len() - i,
        {
            let job = &self.uploads.queue[i];
            if job.action == action && job.entry.id.same_as(id) {
                assert(coordinator::is_upload(self.uploads.queue@[i as int], id@, action));
                return true;
            }
            i = i + 1;
        }
        false
    }

    /// An upload was queued, was known already, or the user was told why it
    /// cannot be. A recording that is no longer in the library is passed over.
    pub open spec fn queues_upload(
        self,
        id: Seq<char>,
        action: UploadAction,
        requested: bool,
        now_ms: i64,
        after: Coordinator,
    ) -> bool {
        if !self.config.cloud.configured() {
            self.complains(
                after,
                "Cloud upload is not set up."@,
                Some("Turn on cloud upload and enter the account, password and guild."@),
                Some(RecoveryAction::OpenSettings),
                now_ms,
            )
        } else {
            match find_entry(self.library.entries@, id) {
                None => after == self,
                Some(entry) => if self.upload_known(id, action) {
                    after == self
                } else if self.uploads.queue@.len() >= MAX_UPLOAD_QUEUE {
                    self.complains(
                        after,
                        "The upload queue is full."@,
                        Some(
                            text::decimal(MAX_UPLOAD_QUEUE as nat)
                                + " uploads are already waiting."@,
                        ),
                        None,
                        now_ms,
                    )
                } else {
                    &&& after == (Coordinator {
                        uploads: UploadState { queue: after.uploads.queue, ..self.uploads },
                        dirty: true,
                        ..self
                    })
                    &&& after.uploads.queue@.len() == self.uploads.queue@.len() + 1
                    &&& after.uploads.queue@.drop_last() == self.uploads.queue@
                    &&& self.is_job(after.uploads.queue@.last(), action, entry, requested)
                },
            }
        }
    }

    /// The job uploads this entry with the configured account.
    pub open spec fn is_job(
        self,
        job: UploadJob,
        action: UploadAction,
        entry: Arc<LibraryEntry>,
        requested: bool,
    ) -> bool {
        &&& job.action == action
        &&& job.entry == entry
        &&& job.requested == requested
        &&& job.credentials.user@ == text::trim(self.config.cloud.account@)
        &&& job.credentials.password@ == self.config.cloud.password@
        &&& job.credentials.guild@ == text::trim(self.config.cloud.guild@)
    }

    /// Queue an upload, or a share link, of a recording.
    pub fn queue_upload(
        &mut self,
        id: &RecordingId,
        action: UploadAction,
        requested: bool,
        now_ms: i64,
    )
        requires
            old(self).wf(),
        ensures
            final(self).wf(),
            old(self).queues_upload(id@, action, requested, now_ms, *final(self)),
    {
        let credentials = match self.config.cloud.credentials() {
            Some(credentials) => credentials,
            None => {
                self.push_problem(
                    "Cloud upload is not set up.",
                    Some(
                        "Turn on cloud upload and enter the account, password and guild.".to_owned(),
                    ),
                    Some(RecoveryAction::OpenSettings),
                    now_ms,
                );
                return;
            },
        };
        let entry = match self.entry(id) {
            Some(entry) => entry,
            None => {
                return;
            },
        };
        if self.knows_upload(id, action) {
            return;
        }
        if self.uploads.queue.len() >= MAX_UPLOAD_QUEUE {
            let mut detail = String::new();
            push_decimal(&mut detail, MAX_UPLOAD_QUEUE as u64);
            detail.append(" uploads are already waiting.");
            assert(detail@ =~= text::decimal(MAX_UPLOAD_QUEUE as nat)
                + " uploads are already waiting."@);
            self.push_problem("The upload queue is full.", Some(detail), None, now_ms);
            return;
        }
        proof {
            lemma_found_entry(self.library.entries@, id@);
        }
        self.uploads.queue.push_back(UploadJob { action, entry, credentials, requested });
        self.dirty = true;
        assert(self.uploads.queue@.drop_last() =~= old(self).uploads.queue@);
    }

    /// Putting the job back in front keeps the queue in bounds and free of
    /// repetitions.
    pub open spec fn may_requeue(self, job: UploadJob) -> bool {
        &&& self.uploads.queue@.len() < MAX_UPLOAD_QUEUE
        &&& forall|i: int|
            0 <= i < self.uploads.queue@.len() ==> !coordinator::same_upload(
                job,
                #[trigger] self.uploads.queue@[i],
            )
        &&& self.uploads.current is None
    }

    /// One upload is worked on at a time, in their order. Without an upload
    /// thread the job is dropped.
    pub open spec fn dispatches_upload(self, after: Coordinator, job: Option<UploadJob>) -> bool {
        &&& after == (Coordinator {
            uploads: UploadState { queue: after.uploads.queue, ..self.uploads },
            ..self
        })
        &&& if self.uploads.current is Some || self.uploads.queue@.len() == 0 {
            job is None && after.uploads.queue@ == self.uploads.queue@
        } else {
            &&& after.uploads.queue@ == self.uploads.queue@.skip(1)
            &&& job == (if self.uploads.open {
                Some(self.uploads.queue@[0])
            } else {
                None
            })
        }
    }

    /// A job for the upload thread, if one may go out now.
    pub fn dispatch_upload(&mut self) -> (job: Option<UploadJob>)
        requires
            old(self).wf(),
        ensures
            final(self).wf(),
            old(self).dispatches_upload(*final(self), job),
            job matches Some(j) ==> final(self).may_requeue(j),
    {
        if self.uploads.current.is_some() {
            return None;
        }
        match self.uploads.queue.pop_front() {
            Some(job) => {
                assert(self.uploads.queue@ =~= old(self).uploads.queue@.skip(1));
                assert forall|i: int|
                    0 <= i < self.uploads.queue@.len() implies !coordinator::same_upload(
                    job,
                    #[trigger] self.uploads.queue@[i],
                ) by {
                    assert(self.uploads.queue@[i] == old(self).uploads.queue@[i + 1]);
                    assert(!coordinator::same_upload(
                        old(self).uploads.queue@[0],
                        old(self).uploads.queue@[i + 1],
                    ));
                }
                if self.uploads.open {
                    Some(job)
                } else {
                    None
                }
            },
            None => None,
        }
    }

    /// The shell's view of a job that starts.
    pub open spec fn upload_view(job: UploadJob) -> UploadProgressView {
        UploadProgressView {
            id: job.entry.id,
            title: job.entry.title,
            action: job.action,
            sent: 0,
            total: 0,
        }
    }

    pub fn start_view(job: &UploadJob) -> (view: UploadProgressView)
        ensures
            view == Self::upload_view(*job),
    {
        UploadProgressView {
            id: job.entry.id.duplicate(),
            title: job.entry.title.clone(),
            action: job.action,
            sent: 0,
            total: 0,
        }
    }

    /// A job was handed to the upload thread: it is being worked on, is back
    /// in front, or nothing can be uploaded any more.
    pub open spec fn hands_over_upload(
        self,
        view: UploadProgressView,
        outcome: Handover<UploadJob>,
        now_ms: i64,
        after: Coordinator,
    ) -> bool {
        match outcome {
            Handover::Sent => after == (Coordinator {
                uploads: UploadState { current: Some(view), ..self.uploads },
                dirty: true,
                ..self
            }),
            Handover::Full(job) => {
                &&& after == (Coordinator {
                    uploads: UploadState { queue: after.uploads.queue, ..self.uploads },
                    ..self
                })
                &&& after.uploads.queue@ == seq![job] + self.uploads.queue@
            },
            Handover::Disconnected => {
                &&& after.uploads.queue@.len() == 0
                &&& (Coordinator {
                    uploads: UploadState {
                        open: false,
                        queue: after.uploads.queue,
                        ..self.uploads
                    },
                    ..self
                }).complains(after, "The upload thread stopped."@, None, None, now_ms)
            },
        }
    }

    /// A job was handed to the upload thread; `view` is what the shell shows
    /// of it.
    pub fn upload_handed_over(
        &mut self,
        view: UploadProgressView,
        outcome: Handover<UploadJob>,
        now_ms: i64,
    )
        requires
            old(self).wf(),
            match outcome {
                Handover::Sent => old(self).uploads.current is None && !old(self).upload_known(
                    view.id@,
                    view.action,
                ),
                Handover::Full(job) => old(self).may_requeue(job),
                Handover::Disconnected => true,
            },
        ensures
            final(self).wf(),
            old(self).hands_over_upload(view, outcome, now_ms, *final(self)),
    {
        match outcome {
            Handover::Sent => {
                self.uploads.current = Some(view);
                self.dirty = true;
            },
            Handover::Full(job) => {
                self.uploads.queue.push_front(job);
                assert(self.uploads.queue@ =~= seq![job] + old(self).uploads.queue@);
                assert forall|i: int, j: int|
                    0 <= i < j < self.uploads.queue@.len() implies !coordinator::same_upload(
                    #[trigger] self.uploads.queue@[i],
                    #[trigger] self.uploads.queue@[j],
                ) by {
                    assert(self.uploads.queue@[j] == old(self).uploads.queue@[j - 1]);
                    if i > 0 {
                        assert(self.uploads.queue@[i] == old(self).uploads.queue@[i - 1]);
                    }
                }
            },
            Handover::Disconnected => {
                self.uploads.open = false;
                self.uploads.queue.clear();
                self.push_problem("The upload thread stopped.", None, None, now_ms);
            },
        }
    }
}

/// The serial of the next share link.
pub open spec fn next_serial(link: Option<ShareLinkView>) -> int {
    match link {
        Some(link) => link.serial + 1,
        None => 1,
    }
}

impl Coordinator {
    /// No upload is being worked on.
    pub open spec fn idle_uploads(self) -> Coordinator {
        Coordinator {
            uploads: UploadState { current: None, ..self.uploads },
            dirty: true,
            ..self
        }
    }

    /// Another share link can still be counted.
    pub open spec fn serial_fits(self) -> bool {
        self.uploads.link matches Some(link) ==> link.serial < u64::MAX
    }

    /// `after` is what an event of the upload thread leaves.
    pub open spec fn follows_upload(self, event: UploadEvent, now_ms: i64, after: Coordinator) -> bool {
        match event {
            UploadEvent::Progress { id, sent, total } => after == (Coordinator {
                uploads: UploadState {
                    current: match self.uploads.current {
                        Some(current) if current.id@ == id@ => Some(
                            UploadProgressView { sent, total, ..current },
                        ),
                        other => other,
                    },
                    ..self.uploads
                },
                dirty: true,
                ..self
            }),
            UploadEvent::Finished { id, title, link, link_error, requested } => match link {
                Some(url) => after == (Coordinator {
                    uploads: UploadState {
                        current: None,
                        link: Some(
                            ShareLinkView {
                                id,
                                title,
                                url,
                                serial: next_serial(self.uploads.link) as u64,
                                copy: requested,
                            },
                        ),
                        ..self.uploads
                    },
                    dirty: true,
                    ..self
                }),
                None => self.idle_uploads().complains(
                    after,
                    title@ + " was uploaded, but no share link was returned."@,
                    domain::text_view(link_error),
                    None,
                    now_ms,
                ),
            },
            UploadEvent::Failed { title, action, message, .. } => self.idle_uploads().complains(
                after,
                match action {
                    UploadAction::Upload => title@ + " could not be uploaded."@,
                    UploadAction::ShareLink => "No share link for "@ + title@
                        + "; has it been uploaded?"@,
                },
                Some(message@),
                Some(RecoveryAction::OpenSettings),
                now_ms,
            ),
        }
    }

    /// Take in an event of the upload thread.
    pub fn upload_event(&mut self, event: UploadEvent, now_ms: i64)
        requires
            old(self).wf(),
            old(self).serial_fits(),
        ensures
            final(self).wf(),
            old(self).follows_upload(event, now_ms, *final(self)),
    {
        self.dirty = true;
        match event {
            UploadEvent::Progress { id, sent, total } => {
                match self.uploads.current.take() {
                    Some(current) => {
                        let mut current = current;
                        if current.id.same_as(&id) {
                            current.sent = sent;
                            current.total = total;
                        }
                        self.uploads.current = Some(current);
                    },
                    None => {},
                }
            },
            UploadEvent::Finished { id, title, link, link_error, requested } => {
                self.uploads.current = None;
                match link {
                    Some(url) => {
                        let serial: u64 = match &self.uploads.link {
                            Some(link) => link.serial + 1,
                            None => 1,
                        };
                        self.uploads.link = Some(
                            ShareLinkView { id, title, url, serial, copy: requested },
                        );
                    },
                    None => {
                        let mut summary = title;
                        summary.append(" was uploaded, but no share link was returned.");
                        self.push_problem(&summary, link_error, None, now_ms);
                    },
                }
            },
            UploadEvent::Failed { title, action, message, .. } => {
                self.uploads.current = None;
                let summary = match action {
                    UploadAction::Upload => {
                        let mut summary = title;
                        summary.append(" could not be uploaded.");
                        summary
                    },
                    UploadAction::ShareLink => {
                        let mut summary = "No share link for ".to_owned();
                        summary.append(&title);
                        summary.append("; has it been uploaded?");
                        summary
                    },
                };
                self.push_problem(
                    &summary,
                    Some(message),
                    Some(RecoveryAction::OpenSettings),
                    now_ms,
                );
            },
        }
    }
}

/// A new share link always has a greater serial than the last one, so the
/// shell can tell it from a repeated snapshot; and only a link the user asked
/// for is copied.
pub proof fn share_link_serials_increase(
    before: Coordinator,
    event: UploadEvent,
    now_ms: i64,
    after: Coordinator,
)
    requires
        before.serial_fits(),
        before.follows_upload(event, now_ms, after),
    ensures
        after.uploads.link != before.uploads.link ==> {
            &&& after.uploads.link matches Some(link) && {
                &&& before.uploads.link matches Some(old_link) ==> link.serial > old_link.serial
                &&& link.serial > 0
                &&& event matches UploadEvent::Finished { requested, .. } && link.copy == requested
            }
        },
{
}

/// An upload the coordinator starts by itself is queued without the user's
/// request, so its link is never copied.
pub proof fn automatic_uploads_are_not_requested(
    before: Coordinator,
    id: Seq<char>,
    now_ms: i64,
    after: Coordinator,
)
    requires
        before.queues_upload(id, UploadAction::Upload, false, now_ms, after),
        after.uploads.queue@.len() > before.uploads.queue@.len(),
    ensures
        !after.uploads.queue@.last().requested,
        after.uploads.queue@.last().action == UploadAction::Upload,
{
}

} // verus!
