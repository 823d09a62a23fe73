//! Starting up and shutting down.
use std::collections::VecDeque;
use std::sync::Arc;

use vstd::prelude::*;

use crate::config;
use crate::config::{Config, ConfigError};
use crate::coordinator;
use crate::coordinator::{
    ActiveRecording, CaptureState, Command, Coordinator, LibraryState, MediaState, UploadState,
};
use crate::domain::{Problem, ProblemView, RecoveryAction};
use crate::media_jobs::MediaJob;

verus! {

/// Nothing is being captured or about to be.
pub open spec fn idle_capture(capture: CaptureState) -> bool {
    &&& capture.active is None
    &&& capture.ending is None
    &&& capture.deferred is None
    &&& capture.pending_test_end is None
    &&& capture.seen@.len() == 0
}

/// No media work waits or runs.
pub open spec fn idle_media(media: MediaState) -> bool {
    &&& media.finalizations@.len() == 0
    &&& media.user_jobs@.len() == 0
    &&& media.busy is None
    &&& media.work is None
}

/// The texts of a list with `; ` between them.
pub open spec fn semicolons(items: Seq<String>) -> Seq<char>
    decreases items.len(),
{
    if items.len() == 0 {
        seq![]
    } else if items.len() == 1 {
        items[0]@
    } else {
        semicolons(items.drop_last()) + "; "@ + items.last()@
    }
}

fn join_semicolons(items: &Vec<String>) -> (out: String)
    ensures
        out@ == semicolons(items@),
{
    let mut out = String::new();
    let mut i: usize = 0;
    while i < items.len()
        invariant
            i <= items@.len(),
            out@ == semicolons(items@.take(i as int)),
        decreases items@.len() - i,
    {
        assert(items@.take(i + 1).drop_last() =~= items@.take(i as int));
        if i > 0 {
            out.append("; ");
        }
        out.append(&items[i]);
        if i == 0 {
            assert(out@ =~= items@[0]@);
        }
        i = i + 1;
    }
    assert(items@.take(i as int) =~= items@);
    out
}

impl Coordinator {
    /// A coordinator with the configuration that was loaded. Without a file
    /// the defaults are in use; where it could not be loaded they are too,
    /// and the user is told.
    pub fn new(loaded: Result<Config, ConfigError>, upload_thread: bool, now_ms: i64) -> (result:
        Self)
        ensures
            result.wf(),
            match loaded {
                Ok(config) => result.config == config && result.problems@.len() == 0,
                Err(error) => {
                    &&& call_ensures(Config::default, (), result.config)
                    &&& coordinator::problem_views(result.problems@) == (match error {
                        ConfigError::NotFound(_) => seq![],
                        _ => seq![
                            ProblemView {
                                summary: "Settings could not be loaded; defaults are in use."@,
                                safe_detail: Some(error.words()),
                                occurred_unix_ms: now_ms,
                                recovery_action: Some(RecoveryAction::OpenSettings),
                            },
                        ],
                    })
                },
            },
            !result.armed,
            idle_capture(result.capture),
            idle_media(result.media),
            result.uploads.open == upload_thread,
            result.uploads.queue@.len() == 0,
            result.uploads.current is None,
            result.uploads.link is None,
            result.library.entries@.len() == 0,
            result.library.correlations@.len() == 0,
            result.library.used_bytes == 0,
            !result.library.protected_over_limit,
            result.setup_problems@.len() == 0,
            result.advanced_logging@.len() == 0,
            result.dirty,
            !result.stopping,
    {
        let mut problems: Vec<Problem> = Vec::new();
        let config = match loaded {
            Ok(config) => config,
            Err(error) => {
                match error {
                    ConfigError::NotFound(_) => {},
                    _ => {
                        problems.push(
                            Problem {
                                summary:
                                    "Settings could not be loaded; defaults are in use.".to_owned(),
                                safe_detail: Some(error.message()),
                                occurred_unix_ms: now_ms,
                                recovery_action: Some(RecoveryAction::OpenSettings),
                            },
                        );
                    },
                }
                Config::default()
            },
        };
        Coordinator {
            config,
            armed: false,
            capture: CaptureState {
                active: None,
                ending: None,
                deferred: None,
                pending_test_end: None,
                seen: Vec::new(),
            },
            media: MediaState {
                finalizations: VecDeque::new(),
                user_jobs: VecDeque::new(),
                busy: None,
                work: None,
            },
            uploads: UploadState {
                open: upload_thread,
                queue: VecDeque::new(),
                current: None,
                link: None,
            },
            library: LibraryState {
                entries: Arc::new(Vec::new()),
                correlations: Arc::new(Vec::new()),
                used_bytes: 0,
                protected_over_limit: false,
            },
            problems,
            setup_problems: Vec::new(),
            advanced_logging: Vec::new(),
            dirty: true,
            stopping: false,
        }
    }

    /// Check the configuration; whether it can be used.
    pub fn validate_setup(&mut self) -> (usable: bool)
        ensures
            old(self).wf() ==> final(self).wf(),
            config::problem_texts(final(self).setup_problems@) == config::usable_problems(
                old(self).config,
            ),
            usable == (config::usable_problems(old(self).config).len() == 0),
            *final(self) == (Coordinator {
                setup_problems: final(self).setup_problems,
                dirty: true,
                ..*old(self)
            }),
    {
        self.setup_problems = self.config.validate();
        self.dirty = true;
        assert(config::problem_texts(self.setup_problems@).len() == self.setup_problems@.len());
        self.setup_problems.len() == 0
    }

    /// The recording directory could not be prepared.
    pub fn storage_failed(&mut self, detail: String, now_ms: i64)
        requires
            old(self).wf(),
        ensures
            final(self).wf(),
            old(self).complains(
                *final(self),
                "The recording directory could not be prepared."@,
                Some(detail@),
                Some(RecoveryAction::OpenSettings),
                now_ms,
            ),
    {
        self.push_problem(
            "The recording directory could not be prepared.",
            Some(detail),
            Some(RecoveryAction::OpenSettings),
            now_ms,
        );
    }

    /// Files that could not be moved out of the way are told of.
    pub open spec fn sweeps(self, failures: Seq<String>, now_ms: i64, after: Coordinator) -> bool {
        if failures.len() == 0 {
            after == self
        } else {
            self.complains(
                after,
                "Some interrupted recordings could not be moved to Recovery."@,
                Some(semicolons(failures)),
                Some(RecoveryAction::OpenLogs),
                now_ms,
            )
        }
    }

    /// Interrupted recordings were moved out of the way; some may not have
    /// gone.
    pub fn orphans_swept(&mut self, failures: &Vec<String>, now_ms: i64)
        requires
            old(self).wf(),
        ensures
            final(self).wf(),
            old(self).sweeps(failures@, now_ms, *final(self)),
    {
        if failures.len() > 0 {
            self.push_problem(
                "Some interrupted recordings could not be moved to Recovery.",
                Some(join_semicolons(failures)),
                Some(RecoveryAction::OpenLogs),
                now_ms,
            );
        }
    }

    /// The log folders are about to be opened anew.
    pub fn forget_logs(&mut self)
        ensures
            old(self).wf() ==> final(self).wf(),
            final(self).advanced_logging@.len() == 0,
            final(self).capture.seen@.len() == 0,
            *final(self) == (Coordinator {
                advanced_logging: final(self).advanced_logging,
                capture: CaptureState { seen: final(self).capture.seen, ..old(self).capture },
                ..*old(self)
            }),
    {
        self.advanced_logging = Vec::new();
        self.capture.seen = Vec::new();
    }

    /// What a log folder that was opened, or could not be, leaves.
    pub open spec fn opens_log(
        self,
        field: &'static str,
        advanced: Option<bool>,
        outcome: Result<(), String>,
        now_ms: i64,
        after: Coordinator,
    ) -> bool {
        let told = Coordinator { advanced_logging: after.advanced_logging, ..self };
        &&& after.advanced_logging@ == self.advanced_logging@.push((field, advanced))
        &&& match outcome {
            Ok(_) => after == told,
            Err(error) => told.complains(
                after,
                "The "@ + field@ + " log folder could not be watched."@,
                Some(error@),
                Some(RecoveryAction::OpenSettings),
                now_ms,
            ),
        }
    }

    /// A log folder was opened, or could not be watched. `advanced` is what
    /// the game's settings beside it say, where they could be read.
    pub fn log_opened(
        &mut self,
        field: &'static str,
        advanced: Option<bool>,
        outcome: Result<(), String>,
        now_ms: i64,
    )
        requires
            old(self).wf(),
        ensures
            final(self).wf(),
            old(self).opens_log(field, advanced, outcome, now_ms, *final(self)),
    {
        self.advanced_logging.push((field, advanced));
        match outcome {
            Ok(_) => {},
            Err(error) => {
                let mut summary = "The ".to_owned();
                summary.append(field);
                summary.append(" log folder could not be watched.");
                self.push_problem(
                    &summary,
                    Some(error),
                    Some(RecoveryAction::OpenSettings),
                    now_ms,
                );
            },
        }
    }

    /// Begin to shut down; false where that is under way already.
    pub fn begin_shutdown(&mut self) -> (begun: bool)
        ensures
            old(self).wf() ==> final(self).wf(),
            begun == !old(self).stopping,
            *final(self) == (Coordinator { stopping: true, ..*old(self) }),
    {
        if self.stopping {
            return false;
        }
        self.stopping = true;
        true
    }

    /// A capture that still runs stops now, whatever its activity says.
    pub open spec fn stopped_now(self, now_ms: i64) -> Coordinator {
        Coordinator {
            capture: CaptureState {
                active: match self.capture.active {
                    Some(active) => Some(ActiveRecording { stop_at_ms: Some(now_ms), ..active }),
                    None => None,
                },
                ..self.capture
            },
            ..self
        }
    }

    pub fn stop_now(&mut self, now_ms: i64)
        ensures
            old(self).wf() ==> final(self).wf(),
            *final(self) == old(self).stopped_now(now_ms),
    {
        match self.capture.active.take() {
            Some(active) => {
                let mut active = active;
                active.stop_at_ms = Some(now_ms);
                self.capture.active = Some(active);
            },
            None => {},
        }
    }

    /// Let go of the workers: uploads and user jobs are dropped, and every
    /// finalization that was not submitted yet is handed to the media worker
    /// in the shutdown message, in its order.
    pub open spec fn lets_go(self, after: Coordinator, pending: Seq<MediaJob>) -> bool {
        &&& pending == self.media.finalizations@
        &&& after.media.finalizations@.len() == 0
        &&& after.media.user_jobs@.len() == 0
        &&& after.uploads.queue@.len() == 0
        &&& after == (Coordinator {
            armed: false,
            uploads: UploadState { open: false, queue: after.uploads.queue, ..self.uploads },
            media: MediaState {
                finalizations: after.media.finalizations,
                user_jobs: after.media.user_jobs,
                ..self.media
            },
            ..self
        })
    }

    /// Let go of the workers; what comes back is what is still to be saved.
    pub fn release_workers(&mut self) -> (pending: Vec<MediaJob>)
        requires
            old(self).wf(),
        ensures
            final(self).wf(),
            old(self).lets_go(*final(self), pending@),
    {
        self.uploads.open = false;
        self.uploads.queue.clear();
        self.armed = false;
        self.media.user_jobs.clear();
        let ghost all = self.media.finalizations@;
        let mut pending: Vec<MediaJob> = Vec::new();
        let ghost held = *self;
        while self.media.finalizations.len() > 0
            invariant
                pending@ + self.media.finalizations@ == all,
                *self == (Coordinator {
                    media: MediaState {
                        finalizations: self.media.finalizations,
                        ..held.media
                    },
                    ..held
                }),
            decreases self.media.finalizations@.len(),
        {
            let ghost left = self.media.finalizations@;
            let ghost taken = pending@;
            match self.media.finalizations.pop_front() {
                Some(job) => {
                    pending.push(job);
                    assert(pending@ + self.media.finalizations@ =~= taken + left);
                },
                None => {},
            }
        }
        assert(pending@ =~= all);
        pending
    }
}

/// The position of the first shutdown in a batch, or its length.
pub open spec fn first_shutdown(batch: Seq<Command>) -> int
    decreases batch.len(),
{
    if batch.len() == 0 || batch[0] is Shutdown {
        0
    } else {
        1 + first_shutdown(batch.skip(1))
    }
}

/// How many commands of a batch are handled, and whether to stop after them.
/// A shutdown stops there; a closed channel stops once the commands that were
/// received from it are handled.
pub fn drain_commands(batch: &Vec<Command>, closed: bool) -> (drained: (usize, bool))
    ensures
        drained.0 == first_shutdown(batch@),
        drained.1 == (closed || drained.0 < batch@.len()),
{
    let mut i: usize = 0;
    assert(batch@.skip(0) =~= batch@);
    while i < batch.len()
        invariant
            i <= batch@.len(),
            first_shutdown(batch@) == i + first_shutdown(batch@.skip(i as int)),
        decreases batch@.len() - i,
    {
        assert(batch@.skip(i as int).skip(1) =~= batch@.skip(i + 1));
        match &batch[i] {
            Command::Shutdown => {
                return (i, true);
            },
            _ => {},
        }
        i = i + 1;
    }
    (i, closed)
}

} // verus!
