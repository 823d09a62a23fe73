//! The life of a capture: arming, starting, ending and discarding, and what
//! the user is told when the recorder refuses.
use vstd::prelude::*;

use crate::activity::{ActivityEvent, RecordingDraft};
use crate::coordinator;
use crate::coordinator::{
    clear_recovered_capture_problems, ActiveRecording, CaptureState, Coordinator, DeferredBegin,
    EndingCapture, MediaState, SeenEvent, CAPTURE_RESTART_FAILED_PROBLEM, CAPTURE_STOPPED_PROBLEM,
    MAX_MEDIA_QUEUE,
};
use crate::domain;
use crate::domain::{
    ActivityDetails, Category, GameFlavor, GameFlavorView, MediaFacts, MeterData, Outcome, Problem,
    ProblemView, RecordingId, RecoveryAction,
};
use crate::media_jobs::MediaJob;
use crate::parser::ParsedEvent;
use crate::recorder::{CaptureArtifacts, RecorderError, RecorderEvent, RecordingMode, StartRequest};
use crate::test_recording;
use crate::test_recording::test_events;
use crate::text;
use crate::text::{push_signed, same_text};

verus! {

/// Force-end an automatic recording after this long without new log data: a
/// crash/alt-F4 safety net only. WoW flushes the combat log in bursts, so the
/// window must sit well above that cadence or a live activity gets force-ended
/// inside a flush gap and discarded before its player is identified.
pub const RETAIL_DATA_TIMEOUT_MS: i64 = 600_000;

pub const CLASSIC_DATA_TIMEOUT_MS: i64 = 120_000;

/// What the user is told when the recorder refuses.
pub open spec fn recorder_summary(error: RecorderError) -> Seq<char> {
    match error {
        RecorderError::SelectionDenied { .. } => "Screen capture was not allowed."@,
        RecorderError::SpawnFailed { .. } => "Screen capture could not start."@,
        RecorderError::MissingRegularArtifact => "The recording produced no video file."@,
        RecorderError::InvalidSettings(_) => "The capture settings are not usable."@,
        RecorderError::Busy | RecorderError::NotArmed | RecorderError::WrongId =>
            "The recorder was not ready for that."@,
        RecorderError::Io(_) => "Screen capture failed."@,
    }
}

/// The technical detail that goes with it.
pub open spec fn recorder_detail(error: RecorderError) -> Option<Seq<char>> {
    match error {
        RecorderError::SelectionDenied { log_tail } => Some(log_tail@),
        RecorderError::SpawnFailed { message, log_tail } => Some(message@ + "\n"@ + log_tail@),
        RecorderError::MissingRegularArtifact => None,
        RecorderError::InvalidSettings(message) => Some(message@),
        RecorderError::Busy => Some("Busy"@),
        RecorderError::NotArmed => Some("NotArmed"@),
        RecorderError::WrongId => Some("WrongId"@),
        RecorderError::Io(error) => Some(error@),
    }
}

/// What the user can do about it.
pub open spec fn recorder_recovery(error: RecorderError) -> RecoveryAction {
    match error {
        RecorderError::SelectionDenied { .. } => RecoveryAction::ReselectCaptureTarget,
        RecorderError::SpawnFailed { .. } => RecoveryAction::OpenLogs,
        RecorderError::MissingRegularArtifact => RecoveryAction::OpenLogs,
        RecorderError::InvalidSettings(_) => RecoveryAction::OpenSettings,
        RecorderError::Busy | RecorderError::NotArmed | RecorderError::WrongId =>
            RecoveryAction::Retry,
        RecorderError::Io(_) => RecoveryAction::OpenLogs,
    }
}

/// The problem a refusal of the recorder becomes.
pub open spec fn recorder_problem(error: RecorderError, now_ms: i64) -> ProblemView {
    ProblemView {
        summary: recorder_summary(error),
        safe_detail: recorder_detail(error),
        occurred_unix_ms: now_ms,
        recovery_action: Some(recorder_recovery(error)),
    }
}

/// A capture to start: what is recorded, and what the recorder is asked for.
pub struct StartCapture {
    pub draft: RecordingDraft,
    pub request: StartRequest,
    /// Set where the activity is over already: when to stop again.
    pub stop_at_ms: Option<i64>,
}

impl StartCapture {
    /// The recorder is asked for the recording that the draft describes.
    pub open spec fn wf(self) -> bool {
        self.request.id == self.draft.id
    }
}

/// End the activity of a flavour now, in the activity engine.
pub struct ForceEnd {
    pub flavor: GameFlavor,
    pub at_ms: i64,
}

impl Coordinator {
    /// True from the moment a capture starts until its artifacts are in hand.
    /// Anything that stops, replaces, or reconfigures the recorder has to
    /// wait: it is still writing the previous recording.
    pub open spec fn in_flight(self) -> bool {
        self.capture.active is Some || self.capture.ending is Some
    }

    pub fn capture_in_flight(&self) -> (yes: bool)
        ensures
            yes == self.in_flight(),
    {
        self.capture.active.is_some() || self.capture.ending.is_some()
    }

    /// `after` shows the problem that a refusal of the recorder becomes.
    pub open spec fn complains_of(self, after: Coordinator, error: RecorderError, now_ms: i64) -> bool {
        self.complains(
            after,
            recorder_summary(error),
            recorder_detail(error),
            Some(recorder_recovery(error)),
            now_ms,
        )
    }

    pub fn push_recorder_problem(&mut self, error: &RecorderError, now_ms: i64)
        requires
            old(self).wf(),
        ensures
            final(self).wf(),
            old(self).complains_of(*final(self), *error, now_ms),
    {
        match error {
            RecorderError::SelectionDenied { log_tail } => self.push_problem(
                "Screen capture was not allowed.",
                Some(log_tail.clone()),
                Some(RecoveryAction::ReselectCaptureTarget),
                now_ms,
            ),
            RecorderError::SpawnFailed { message, log_tail } => {
                let mut detail = message.clone();
                detail.append("\n");
                detail.append(log_tail);
                self.push_problem(
                    "Screen capture could not start.",
                    Some(detail),
                    Some(RecoveryAction::OpenLogs),
                    now_ms,
                )
            },
            RecorderError::MissingRegularArtifact => self.push_problem(
                "The recording produced no video file.",
                None,
                Some(RecoveryAction::OpenLogs),
                now_ms,
            ),
            RecorderError::InvalidSettings(message) => self.push_problem(
                "The capture settings are not usable.",
                Some(message.clone()),
                Some(RecoveryAction::OpenSettings),
                now_ms,
            ),
            RecorderError::Busy => self.push_problem(
                "The recorder was not ready for that.",
                Some("Busy".to_owned()),
                Some(RecoveryAction::Retry),
                now_ms,
            ),
            RecorderError::NotArmed => self.push_problem(
                "The recorder was not ready for that.",
                Some("NotArmed".to_owned()),
                Some(RecoveryAction::Retry),
                now_ms,
            ),
            RecorderError::WrongId => self.push_problem(
                "The recorder was not ready for that.",
                Some("WrongId".to_owned()),
                Some(RecoveryAction::Retry),
                now_ms,
            ),
            RecorderError::Io(error) => self.push_problem(
                "Screen capture failed.",
                Some(error.clone()),
                Some(RecoveryAction::OpenLogs),
                now_ms,
            ),
        }
    }

    /// `after` is armed, and no longer shows problems that are over with that.
    pub open spec fn runs_again(self, after: Coordinator) -> bool {
        &&& after == (Coordinator {
            armed: true,
            problems: after.problems,
            dirty: after.dirty,
            ..self
        })
        &&& after.problems@ == coordinator::without_capture_problems(self.problems@)
        &&& after.dirty == (self.dirty || after.problems@.len() != self.problems@.len())
    }

    fn run_again(&mut self)
        requires
            old(self).wf(),
        ensures
            final(self).wf(),
            old(self).runs_again(*final(self)),
    {
        proof {
            coordinator::lemma_without_shrinks(self.problems@);
        }
        self.armed = true;
        if clear_recovered_capture_problems(&mut self.problems) {
            self.dirty = true;
        }
    }

    /// The recorder did not do what it was asked: `running` says whether it
    /// is up all the same.
    pub open spec fn recorder_refused(
        self,
        after: Coordinator,
        error: RecorderError,
        running: bool,
        now_ms: i64,
    ) -> bool {
        let kept = if running {
            coordinator::without_capture_problems(self.problems@)
        } else {
            self.problems@
        };
        &&& after == (Coordinator {
            armed: running,
            problems: after.problems,
            dirty: true,
            ..self
        })
        &&& coordinator::problem_views(after.problems@) == coordinator::with_problem(
            coordinator::problem_views(kept),
            recorder_problem(error, now_ms),
        )
    }

    fn note_refusal(&mut self, error: &RecorderError, running: bool, now_ms: i64)
        requires
            old(self).wf(),
        ensures
            final(self).wf(),
            old(self).recorder_refused(*final(self), *error, running, now_ms),
    {
        if running {
            self.run_again();
        } else {
            self.armed = false;
        }
        self.push_recorder_problem(error, now_ms);
    }

    /// Capture is only armed while none is in flight.
    pub open spec fn rearms(self, now_ms: i64, after: Coordinator, proceed: bool) -> bool {
        &&& proceed == !self.in_flight()
        &&& if proceed {
            after == self
        } else {
            self.complains(
                after,
                "Screen capture cannot be rearmed while a recording is being captured or saved."@,
                None,
                Some(RecoveryAction::Retry),
                now_ms,
            )
        }
    }

    /// Whether the recorder may be armed now; if not, the user is told.
    pub fn arm(&mut self, now_ms: i64) -> (proceed: bool)
        requires
            old(self).wf(),
        ensures
            final(self).wf(),
            old(self).rearms(now_ms, *final(self), proceed),
    {
        if self.capture_in_flight() {
            self.push_problem(
                "Screen capture cannot be rearmed while a recording is being captured or saved.",
                None,
                Some(RecoveryAction::Retry),
                now_ms,
            );
            return false;
        }
        true
    }

    /// The recorder was asked to arm.
    pub fn arm_finished(&mut self, outcome: Result<(), RecorderError>, running: bool, now_ms: i64)
        requires
            old(self).wf(),
        ensures
            final(self).wf(),
            match outcome {
                Ok(_) => old(self).runs_again(*final(self)),
                Err(error) => old(self).recorder_refused(*final(self), error, running, now_ms),
            },
    {
        match outcome {
            Ok(_) => self.run_again(),
            Err(error) => self.note_refusal(&error, running, now_ms),
        }
    }

    /// Capture is only disarmed while none is in flight.
    pub open spec fn disarms(self, now_ms: i64, after: Coordinator, proceed: bool) -> bool {
        &&& proceed == !self.in_flight()
        &&& if proceed {
            after == (Coordinator { armed: false, ..self })
        } else {
            self.complains(
                after,
                "Screen capture cannot be disarmed while a recording is being captured or saved."@,
                None,
                Some(RecoveryAction::Retry),
                now_ms,
            )
        }
    }

    /// Whether the recorder may be shut down now; if not, the user is told.
    pub fn disarm(&mut self, now_ms: i64) -> (proceed: bool)
        requires
            old(self).wf(),
        ensures
            final(self).wf(),
            old(self).disarms(now_ms, *final(self), proceed),
    {
        if self.capture_in_flight() {
            self.push_problem(
                "Screen capture cannot be disarmed while a recording is being captured or saved.",
                None,
                Some(RecoveryAction::Retry),
                now_ms,
            );
            return false;
        }
        self.armed = false;
        true
    }

    /// The capture target only changes while no capture is in flight.
    pub open spec fn retargets(self, now_ms: i64, after: Coordinator, proceed: bool) -> bool {
        &&& proceed == !self.in_flight()
        &&& if proceed {
            after == self
        } else {
            self.complains(
                after,
                "The capture target cannot change while a recording is being captured or saved."@,
                None,
                Some(RecoveryAction::Retry),
                now_ms,
            )
        }
    }

    /// Whether the capture target may change now; if not, the user is told.
    pub fn reselect_target(&mut self, now_ms: i64) -> (proceed: bool)
        requires
            old(self).wf(),
        ensures
            final(self).wf(),
            old(self).retargets(now_ms, *final(self), proceed),
    {
        if self.capture_in_flight() {
            self.push_problem(
                "The capture target cannot change while a recording is being captured or saved.",
                None,
                Some(RecoveryAction::Retry),
                now_ms,
            );
            return false;
        }
        true
    }

    /// The capture target is remembered under this token.
    pub open spec fn remembers(self, after: Coordinator, token: String) -> bool {
        after == (Coordinator {
            config: crate::config::Config {
                capture: crate::config::CaptureSettings {
                    capture_target_token: Some(token),
                    ..self.config.capture
                },
                ..self.config
            },
            ..self
        })
    }

    /// Remember the capture target's token; whether the configuration has to
    /// be saved for it.
    pub fn store_token(&mut self, token: String) -> (save: bool)
        ensures
            save == (domain::text_view(old(self).config.capture.capture_target_token) != Some(
                token@,
            )),
            save ==> old(self).remembers(*final(self), token),
            !save ==> *final(self) == *old(self),
            old(self).wf() ==> final(self).wf(),
    {
        let known = match &self.config.capture.capture_target_token {
            Some(current) => same_text(current, &token),
            None => false,
        };
        if known {
            return false;
        }
        self.config.capture.capture_target_token = Some(token);
        true
    }
}

/// The problems with another summary, in their order.
pub open spec fn without_summary(problems: Seq<Problem>, summary: Seq<char>) -> Seq<Problem>
    decreases problems.len(),
{
    if problems.len() == 0 {
        problems
    } else {
        let before = without_summary(problems.drop_last(), summary);
        if problems.last().summary@ == summary {
            before
        } else {
            before.push(problems.last())
        }
    }
}

proof fn lemma_without_summary(problems: Seq<Problem>, summary: Seq<char>)
    ensures
        without_summary(problems, summary).len() <= problems.len(),
    decreases problems.len(),
{
    if problems.len() > 0 {
        lemma_without_summary(problems.drop_last(), summary);
    }
}

/// How a child's exit is described.
pub open spec fn exit_text(code: Option<i32>) -> Seq<char> {
    "gpu-screen-recorder exited with code "@ + (match code {
        Some(code) => "Some("@ + text::signed_decimal(code as int) + ")"@,
        None => "None"@,
    })
}

fn exit_detail(code: Option<i32>) -> (detail: String)
    ensures
        detail@ == exit_text(code),
{
    let mut detail = "gpu-screen-recorder exited with code ".to_owned();
    match code {
        Some(code) => {
            let mut value = "Some(".to_owned();
            push_signed(&mut value, code as i64);
            value.append(")");
            detail.append(&value);
        },
        None => detail.append("None"),
    }
    detail
}

/// What the caller does after an event of the recorder.
pub enum RecorderReaction {
    Nothing,
    /// Save the configuration; it holds a new capture target.
    SaveToken,
    /// The recorder resolved a requested end.
    CaptureEnded(CaptureResolved),
    /// Forget the activity of this flavour and sweep what it left behind.
    DropActivity { flavor: GameFlavor },
}

/// What the caller does once a capture has ended.
pub struct CaptureResolved {
    /// Move what was left behind out of the way.
    pub sweep: bool,
    /// Start the capture that was held back.
    pub start: Option<StartCapture>,
}

impl Coordinator {
    /// What becomes of the request for another capture target.
    pub open spec fn takes_target(
        self,
        outcome: Result<Option<String>, RecorderError>,
        running: bool,
        now_ms: i64,
        after: Coordinator,
        save: bool,
    ) -> bool {
        match outcome {
            Err(error) => !save && self.recorder_refused(after, error, running, now_ms),
            Ok(None) => !save && self.runs_again(after),
            Ok(Some(token)) => {
                &&& save == (domain::text_view(self.config.capture.capture_target_token) != Some(
                    token@,
                ))
                &&& after.config == (if save {
                    crate::config::Config {
                        capture: crate::config::CaptureSettings {
                            capture_target_token: Some(token),
                            ..self.config.capture
                        },
                        ..self.config
                    }
                } else {
                    self.config
                })
                &&& self.runs_again(Coordinator { config: self.config, ..after })
            },
        }
    }

    /// The recorder was asked for another capture target.
    pub fn reselect_finished(
        &mut self,
        outcome: Result<Option<String>, RecorderError>,
        running: bool,
        now_ms: i64,
    ) -> (save: bool)
        requires
            old(self).wf(),
        ensures
            final(self).wf(),
            old(self).takes_target(outcome, running, now_ms, *final(self), save),
    {
        match outcome {
            Err(error) => {
                self.note_refusal(&error, running, now_ms);
                false
            },
            Ok(token) => {
                self.run_again();
                match token {
                    Some(token) => self.store_token(token),
                    None => false,
                }
            },
        }
    }

    /// The configuration with the new capture target could not be saved.
    pub fn token_save_failed(&mut self, detail: String, now_ms: i64)
        requires
            old(self).wf(),
        ensures
            final(self).wf(),
            old(self).complains(
                *final(self),
                "The capture target could not be saved."@,
                Some(detail@),
                Some(RecoveryAction::ReselectCaptureTarget),
                now_ms,
            ),
    {
        self.push_problem(
            "The capture target could not be saved.",
            Some(detail),
            Some(RecoveryAction::ReselectCaptureTarget),
            now_ms,
        );
    }

    /// `after` is disarmed and shows one problem with this summary.
    pub open spec fn capture_lost(
        self,
        after: Coordinator,
        summary: Seq<char>,
        detail: Seq<char>,
        now_ms: i64,
    ) -> bool {
        &&& !after.armed
        &&& after.dirty
        &&& coordinator::problem_views(after.problems@) == coordinator::with_problem(
            coordinator::problem_views(without_summary(self.problems@, summary)),
            ProblemView {
                summary,
                safe_detail: Some(detail),
                occurred_unix_ms: now_ms,
                recovery_action: Some(RecoveryAction::ReselectCaptureTarget),
            },
        )
    }

    /// Capture is gone: say so once, with the newest detail.
    fn lose_capture(&mut self, summary: &'static str, detail: String, now_ms: i64)
        requires
            old(self).wf(),
        ensures
            final(self).wf(),
            *final(self) == (Coordinator {
                armed: false,
                problems: final(self).problems,
                dirty: true,
                ..*old(self)
            }),
            old(self).capture_lost(*final(self), summary@, detail@, now_ms),
    {
        self.armed = false;
        let ghost all = self.problems@;
        proof {
            lemma_without_summary(all, summary@);
        }
        let mut kept: Vec<Problem> = Vec::new();
        let mut i: usize = 0;
        while i < self.problems.len()
            invariant
                i <= self.problems@.len(),
                self.problems@ == all,
                kept@ == without_summary(all.take(i as int), summary@),
                *self == (Coordinator { armed: false, ..*old(self) }),
            decreases self.problems@.len() - i,
        {
            assert(all.take(i + 1).drop_last() =~= all.take(i as int));
            if !same_text(&self.problems[i].summary, summary) {
                kept.push(self.problems[i].clone());
            }
            i = i + 1;
        }
        assert(all.take(i as int) =~= all);
        self.problems = kept;
        self.push_problem(
            summary,
            Some(detail),
            Some(RecoveryAction::ReselectCaptureTarget),
            now_ms,
        );
    }

    /// The recorder's child is gone. A running recording is given up: its
    /// activity is dropped and what it left is swept.
    pub fn child_exited(&mut self, code: Option<i32>, now_ms: i64) -> (dropped: Option<GameFlavor>)
        requires
            old(self).wf(),
        ensures
            final(self).wf(),
            old(self).capture_lost(
                *final(self),
                CAPTURE_STOPPED_PROBLEM@,
                exit_text(code),
                now_ms,
            ),
            match old(self).capture.active {
                Some(active) => {
                    &&& dropped == Some(active.draft.flavor)
                    &&& final(self).capture == (CaptureState {
                        active: None,
                        pending_test_end: None,
                        ..old(self).capture
                    })
                },
                None => dropped is None && final(self).capture == old(self).capture,
            },
            *final(self) == (Coordinator {
                armed: false,
                problems: final(self).problems,
                dirty: true,
                capture: final(self).capture,
                ..*old(self)
            }),
    {
        self.lose_capture(CAPTURE_STOPPED_PROBLEM, exit_detail(code), now_ms);
        match self.capture.active.take() {
            Some(active) => {
                self.capture.pending_test_end = None;
                Some(active.draft.flavor)
            },
            None => None,
        }
    }

    /// Capture could not be restarted.
    pub fn restart_failed(&mut self, message: String, now_ms: i64)
        requires
            old(self).wf(),
        ensures
            final(self).wf(),
            *final(self) == (Coordinator {
                armed: false,
                problems: final(self).problems,
                dirty: true,
                ..*old(self)
            }),
            old(self).capture_lost(
                *final(self),
                CAPTURE_RESTART_FAILED_PROBLEM@,
                message@,
                now_ms,
            ),
    {
        self.lose_capture(CAPTURE_RESTART_FAILED_PROBLEM, message, now_ms);
    }

    /// Capture runs again.
    pub fn restarted(&mut self)
        requires
            old(self).wf(),
        ensures
            final(self).wf(),
            *final(self) == (Coordinator {
                armed: true,
                problems: final(self).problems,
                dirty: true,
                ..*old(self)
            }),
            final(self).problems@ == coordinator::without_capture_problems(old(self).problems@),
    {
        self.run_again();
        self.dirty = true;
    }
}

/// What becomes of an activity that begins.
pub enum BeginDecision {
    /// It is not recorded: forget it in the activity engine.
    Drop { flavor: GameFlavor },
    /// It waits for the previous capture.
    Deferred,
    Start(StartCapture),
}

/// How much of the replay buffer to put in front: from the activity's start
/// to its detection, plus the extra lead-in, as far as the buffer reaches.
pub open spec fn wanted_replay_ms(
    config: crate::config::Config,
    started_at_ms: int,
    detected_at_ms: int,
) -> int {
    let wanted = detected_at_ms - started_at_ms + config.capture.extra_lead_in_seconds * 1_000;
    let capacity = config.capture.replay_buffer_seconds * 1_000;
    if wanted < 0 {
        0
    } else if wanted > capacity {
        capacity
    } else {
        wanted
    }
}

/// The replay that is asked for never exceeds what the buffer holds.
pub proof fn replay_requests_fit_the_buffer(
    config: crate::config::Config,
    started_at_ms: int,
    detected_at_ms: int,
)
    ensures
        0 <= wanted_replay_ms(config, started_at_ms, detected_at_ms)
            <= config.capture.replay_buffer_seconds * 1_000,
{
}

impl Coordinator {
    /// The start of an automatic recording of `draft`, detected at `detected_at_ms`.
    pub open spec fn starts_automatic(
        self,
        start: StartCapture,
        draft: RecordingDraft,
        detected_at_ms: i64,
    ) -> bool {
        &&& start.wf()
        &&& start.draft == draft
        &&& start.request.mode == RecordingMode::Automatic
        &&& start.request.requested_replay_ms == wanted_replay_ms(
            self.config,
            draft.started_at_ms as int,
            detected_at_ms as int,
        )
        &&& start.stop_at_ms is None
    }

    fn automatic_start(&self, draft: RecordingDraft, detected_at_ms: i64) -> (start: StartCapture)
        ensures
            self.starts_automatic(start, draft, detected_at_ms),
    {
        let capacity: i128 = self.config.capture.replay_buffer_seconds as i128 * 1_000;
        let lead_in: i128 = self.config.capture.extra_lead_in_seconds as i128 * 1_000;
        let wanted: i128 = detected_at_ms as i128 - draft.started_at_ms as i128 + lead_in;
        let requested_replay_ms: u64 = if wanted < 0 {
            0
        } else if wanted > capacity {
            capacity as u64
        } else {
            wanted as u64
        };
        let request = StartRequest {
            id: draft.id.duplicate(),
            requested_replay_ms,
            mode: RecordingMode::Automatic,
        };
        StartCapture { draft, request, stop_at_ms: None }
    }

    /// An activity begins. While another is being recorded it is dropped.
    /// While the previous capture is still being written one activity is held
    /// back instead of dropped: the replay buffer keeps filling, so the
    /// lead-in is recomputed from the real start when the capture begins.
    pub open spec fn begins(
        self,
        draft: RecordingDraft,
        detected_at_ms: i64,
        after: Coordinator,
        decision: BeginDecision,
    ) -> bool {
        if self.capture.active is Some || (self.capture.ending is Some
            && self.capture.deferred is Some) {
            &&& decision matches BeginDecision::Drop { flavor } && flavor == draft.flavor
            &&& after == self
        } else if self.capture.ending is Some {
            &&& decision is Deferred
            &&& after == (Coordinator {
                capture: CaptureState {
                    deferred: Some(DeferredBegin { draft: Box::new(draft), finished: false }),
                    ..self.capture
                },
                ..self
            })
        } else {
            &&& decision matches BeginDecision::Start(start) && self.starts_automatic(
                start,
                draft,
                detected_at_ms,
            )
            &&& after == self
        }
    }

    /// An activity begins: it is recorded, held back or dropped.
    pub fn begin(&mut self, draft: RecordingDraft, detected_at_ms: i64) -> (decision: BeginDecision)
        requires
            old(self).wf(),
        ensures
            final(self).wf(),
            old(self).begins(draft, detected_at_ms, *final(self), decision),
    {
        if self.capture.active.is_some() {
            return BeginDecision::Drop { flavor: draft.flavor };
        }
        if self.capture.ending.is_some() {
            if self.capture.deferred.is_some() {
                return BeginDecision::Drop { flavor: draft.flavor };
            }
            self.capture.deferred = Some(DeferredBegin { draft: Box::new(draft), finished: false });
            return BeginDecision::Deferred;
        }
        BeginDecision::Start(self.automatic_start(draft, detected_at_ms))
    }

    /// The recorder was asked to start a capture. Where it refuses, the user
    /// is told and the activity is to be dropped.
    pub open spec fn captures(
        self,
        start: StartCapture,
        outcome: Result<i64, RecorderError>,
        now_ms: i64,
        after: Coordinator,
        dropped: Option<GameFlavor>,
    ) -> bool {
        match outcome {
            Ok(started_at_ms) => {
                &&& dropped is None
                &&& after == (Coordinator {
                    capture: CaptureState {
                        active: Some(
                            ActiveRecording {
                                draft: start.draft,
                                mode: start.request.mode,
                                started_unix_ms: started_at_ms,
                                requested_replay_ms: start.request.requested_replay_ms,
                                stop_at_ms: start.stop_at_ms,
                            },
                        ),
                        ..self.capture
                    },
                    ..self
                })
            },
            Err(error) => {
                &&& dropped == Some(start.draft.flavor)
                &&& self.complains_of(after, error, now_ms)
            },
        }
    }

    /// The recorder was asked to start a capture: the recording is under way,
    /// or its activity is to be dropped.
    pub fn capture_started(
        &mut self,
        start: StartCapture,
        outcome: Result<i64, RecorderError>,
        now_ms: i64,
    ) -> (dropped: Option<GameFlavor>)
        requires
            old(self).wf(),
            !old(self).in_flight(),
        ensures
            final(self).wf(),
            old(self).captures(start, outcome, now_ms, *final(self), dropped),
    {
        match outcome {
            Ok(started_at_ms) => {
                self.capture.active = Some(
                    ActiveRecording {
                        draft: start.draft,
                        mode: start.request.mode,
                        started_unix_ms: started_at_ms,
                        requested_replay_ms: start.request.requested_replay_ms,
                        stop_at_ms: start.stop_at_ms,
                    },
                );
                None
            },
            Err(error) => {
                self.push_recorder_problem(&error, now_ms);
                Some(start.draft.flavor)
            },
        }
    }
}

/// When the newest event of a flavour was seen, on the wall clock and in its
/// log.
pub open spec fn last_seen(seen: Seq<SeenEvent>, flavor: GameFlavorView) -> Option<(i64, i64)>
    decreases seen.len(),
{
    if seen.len() == 0 {
        None
    } else if seen[0].flavor@ == flavor {
        Some((seen[0].wall_ms, seen[0].log_ms))
    } else {
        last_seen(seen.skip(1), flavor)
    }
}

proof fn lemma_seen_at(seen: Seq<SeenEvent>, flavor: GameFlavorView, at: int)
    requires
        0 <= at < seen.len(),
        seen[at].flavor@ == flavor,
        forall|j: int| 0 <= j < at ==> (#[trigger] seen[j]).flavor@ != flavor,
    ensures
        last_seen(seen, flavor) == Some((seen[at].wall_ms, seen[at].log_ms)),
    decreases at,
{
    if at > 0 {
        assert(seen[0].flavor@ != flavor);
        assert forall|j: int| 0 <= j < at - 1 implies (#[trigger] seen.skip(1)[j]).flavor@
            != flavor by {
            assert(seen.skip(1)[j] == seen[j + 1]);
        }
        lemma_seen_at(seen.skip(1), flavor, at - 1);
    }
}

proof fn lemma_never_seen(seen: Seq<SeenEvent>, flavor: GameFlavorView)
    requires
        forall|j: int| 0 <= j < seen.len() ==> (#[trigger] seen[j]).flavor@ != flavor,
    ensures
        last_seen(seen, flavor) is None,
    decreases seen.len(),
{
    if seen.len() > 0 {
        assert(seen[0].flavor@ != flavor);
        assert forall|j: int| 0 <= j < seen.len() - 1 implies (#[trigger] seen.skip(1)[j]).flavor@
            != flavor by {
            assert(seen.skip(1)[j] == seen[j + 1]);
        }
        lemma_never_seen(seen.skip(1), flavor);
    }
}

/// Lists that agree on everything but the times of one flavour agree on all
/// other flavours.
proof fn lemma_seen_elsewhere(
    seen: Seq<SeenEvent>,
    changed: Seq<SeenEvent>,
    flavor: GameFlavorView,
    other: GameFlavorView,
)
    requires
        other != flavor,
        changed.len() == seen.len() || changed.len() == seen.len() + 1,
        changed.len() == seen.len() + 1 ==> changed.last().flavor@ == flavor,
        forall|j: int|
            0 <= j < seen.len() ==> {
                ||| #[trigger] changed[j] == seen[j]
                ||| (changed[j].flavor@ == flavor && seen[j].flavor@ == flavor)
            },
    ensures
        last_seen(changed, other) == last_seen(seen, other),
    decreases seen.len(),
{
    if seen.len() > 0 {
        let _ = changed[0];
        assert forall|j: int| 0 <= j < seen.len() - 1 implies ({
            ||| #[trigger] changed.skip(1)[j] == seen.skip(1)[j]
            ||| (changed.skip(1)[j].flavor@ == flavor && seen.skip(1)[j].flavor@ == flavor)
        }) by {
            assert(changed.skip(1)[j] == changed[j + 1]);
            assert(seen.skip(1)[j] == seen[j + 1]);
        }
        assert(changed.len() == seen.len() + 1 ==> changed.skip(1).last() == changed.last());
        lemma_seen_elsewhere(seen.skip(1), changed.skip(1), flavor, other);
    } else if changed.len() == 1 {
        assert(changed[0] == changed.last());
        assert(changed.skip(1) =~= seq![]);
    }
}

impl Coordinator {
    /// `after` remembers an event of a flavour.
    pub open spec fn notes(
        self,
        flavor: GameFlavorView,
        wall_ms: i64,
        log_ms: i64,
        after: Coordinator,
    ) -> bool {
        &&& after == (Coordinator {
            capture: CaptureState { seen: after.capture.seen, ..self.capture },
            ..self
        })
        &&& last_seen(after.capture.seen@, flavor) == Some((wall_ms, log_ms))
        &&& forall|other: GameFlavorView|
            other != flavor ==> #[trigger] last_seen(after.capture.seen@, other) == last_seen(
                self.capture.seen@,
                other,
            )
    }

    /// Remember when the newest event of a flavour was seen.
    pub fn note_event(&mut self, flavor: &GameFlavor, wall_ms: i64, log_ms: i64)
        ensures
            old(self).wf() ==> final(self).wf(),
            old(self).notes(flavor@, wall_ms, log_ms, *final(self)),
    {
        let ghost all = self.capture.seen@;
        let mut i: usize = 0;
        while i < self.capture.seen.len() && !self.capture.seen[i].flavor.same_as(flavor)
            invariant
                i <= self.capture.seen@.len(),
                *self == *old(self),
                all == self.capture.seen@,
                forall|j: int| 0 <= j < i ==> (#[trigger] all[j]).flavor@ != flavor@,
            decreases self.capture.seen@.len() - i,
        {
            i = i + 1;
        }
        let event = SeenEvent { flavor: flavor.duplicate(), wall_ms, log_ms };
        if i < self.capture.seen.len() {
            self.capture.seen.set(i, event);
        } else {
            self.capture.seen.push(event);
        }
        proof {
            lemma_seen_at(self.capture.seen@, flavor@, i as int);
            assert forall|other: GameFlavorView| other != flavor@ implies #[trigger] last_seen(
                self.capture.seen@,
                other,
            ) == last_seen(all, other) by {
                lemma_seen_elsewhere(all, self.capture.seen@, flavor@, other);
            }
        }
    }

    /// How long an automatic recording may go without log data.
    pub open spec fn data_timeout_ms(flavor: GameFlavor) -> i64 {
        if flavor is Retail {
            RETAIL_DATA_TIMEOUT_MS
        } else {
            CLASSIC_DATA_TIMEOUT_MS
        }
    }

    /// An automatic recording whose log has gone quiet for too long: retail
    /// 10 min, classic/era 2 min. It ends at the last time in the log.
    pub open spec fn gone_quiet(self, now_ms: i64) -> Option<(GameFlavor, i64)> {
        match self.capture.active {
            Some(active) if active.mode == RecordingMode::Automatic
                && active.stop_at_ms is None => match last_seen(
                self.capture.seen@,
                active.draft.flavor@,
            ) {
                Some((wall_ms, log_ms)) if now_ms - wall_ms >= Self::data_timeout_ms(
                    active.draft.flavor,
                ) => Some((active.draft.flavor, log_ms)),
                _ => None,
            },
            _ => None,
        }
    }

    pub fn check_data_timeout(&self, now_ms: i64) -> (end: Option<ForceEnd>)
        ensures
            self.gone_quiet(now_ms) == (match end {
                Some(end) => Some((end.flavor, end.at_ms)),
                None => None::<(GameFlavor, i64)>,
            }),
    {
        let active = match &self.capture.active {
            Some(active) => active,
            None => {
                return None;
            },
        };
        if active.mode != RecordingMode::Automatic || active.stop_at_ms.is_some() {
            return None;
        }
        let flavor = &active.draft.flavor;
        let limit: i64 = match flavor {
            GameFlavor::Retail => RETAIL_DATA_TIMEOUT_MS,
            _ => CLASSIC_DATA_TIMEOUT_MS,
        };
        let mut i: usize = 0;
        while i < self.capture.seen.len() && !self.capture.seen[i].flavor.same_as(flavor)
            invariant
                i <= self.capture.seen@.len(),
                forall|j: int|
                    0 <= j < i ==> (#[trigger] self.capture.seen@[j]).flavor@ != flavor@,
            decreases self.capture.seen@.len() - i,
        {
            i = i + 1;
        }
        if i == self.capture.seen.len() {
            proof {
                lemma_never_seen(self.capture.seen@, flavor@);
            }
            return None;
        }
        proof {
            lemma_seen_at(self.capture.seen@, flavor@, i as int);
        }
        let seen = &self.capture.seen[i];
        if now_ms as i128 - (seen.wall_ms as i128) < limit as i128 {
            return None;
        }
        Some(ForceEnd { flavor: flavor.duplicate(), at_ms: seen.log_ms })
    }

    /// A manual recording that was stopped: it ends now.
    pub open spec fn stopped_manual(active: ActiveRecording, now_ms: i64) -> ActiveRecording {
        ActiveRecording {
            draft: RecordingDraft {
                outcome: Some(Outcome::Unknown),
                ended_at_ms: Some(now_ms),
                duration_ms: Some(
                    if now_ms > active.draft.started_at_ms {
                        (now_ms - active.draft.started_at_ms) as u64
                    } else {
                        0
                    },
                ),
                ..active.draft
            },
            stop_at_ms: Some(now_ms),
            ..active
        }
    }

    /// A manual recording stops; any other is left alone.
    pub open spec fn stops_manual(self, now_ms: i64, after: Coordinator) -> bool {
        after == (Coordinator {
            capture: CaptureState {
                active: match self.capture.active {
                    Some(active) if active.mode == RecordingMode::Manual => Some(
                        Self::stopped_manual(active, now_ms),
                    ),
                    other => other,
                },
                ..self.capture
            },
            ..self
        })
    }

    /// Stop a manual recording; any other is left alone.
    pub fn stop_manual(&mut self, now_ms: i64)
        ensures
            old(self).wf() ==> final(self).wf(),
            old(self).stops_manual(now_ms, *final(self)),
    {
        match self.capture.active.take() {
            Some(active) => {
                if active.mode != RecordingMode::Manual {
                    self.capture.active = Some(active);
                    return;
                }
                let ghost before = active;
                let mut active = active;
                let length: i128 = now_ms as i128 - active.draft.started_at_ms as i128;
                active.draft.outcome = Some(Outcome::Unknown);
                active.draft.ended_at_ms = Some(now_ms);
                active.draft.duration_ms = Some(
                    if length > 0 {
                        length as u64
                    } else {
                        0
                    },
                );
                active.stop_at_ms = Some(now_ms);
                assert(active == Self::stopped_manual(before, now_ms));
                self.capture.active = Some(active);
            },
            None => {},
        }
    }

    /// What is being recorded ends: a manual recording is stopped, another's
    /// activity is to be ended in the activity engine.
    pub open spec fn ends_by_force(
        self,
        now_ms: i64,
        after: Coordinator,
        end: Option<ForceEnd>,
    ) -> bool {
        match self.capture.active {
            None => end is None && after == self,
            Some(active) => if active.mode == RecordingMode::Manual {
                end is None && self.stops_manual(now_ms, after)
            } else {
                &&& end matches Some(e) && e.flavor == active.draft.flavor && e.at_ms == now_ms
                &&& after == (Coordinator {
                    capture: CaptureState { pending_test_end: None, ..self.capture },
                    ..self
                })
            },
        }
    }

    /// End what is being recorded.
    pub fn force_end(&mut self, now_ms: i64) -> (end: Option<ForceEnd>)
        ensures
            old(self).wf() ==> final(self).wf(),
            old(self).ends_by_force(now_ms, *final(self), end),
    {
        let flavor = match &self.capture.active {
            None => {
                return None;
            },
            Some(active) => {
                if active.mode == RecordingMode::Manual {
                    None
                } else {
                    Some(active.draft.flavor.duplicate())
                }
            },
        };
        match flavor {
            None => {
                self.stop_manual(now_ms);
                None
            },
            Some(flavor) => {
                self.capture.pending_test_end = None;
                Some(ForceEnd { flavor, at_ms: now_ms })
            },
        }
    }
}

/// A test recording that starts: its events, and the one that ends it.
pub struct TestStart {
    pub events: Vec<ParsedEvent>,
    pub end_ms: i64,
    pub end_event: ParsedEvent,
}

/// What the caller does after an event of the activity engine.
pub enum ActivityEffect {
    Nothing,
    /// Forget the activity in the activity engine.
    Drop { flavor: GameFlavor },
    Start(StartCapture),
    /// Stop the capture without keeping it.
    Cancel { id: RecordingId },
}

/// How long a test recording of a category takes.
pub open spec fn test_duration(category: Category, test_duration_ms: u64) -> int {
    if category == Category::Raids {
        test_duration_ms * 4
    } else {
        test_duration_ms as int
    }
}

impl Coordinator {
    /// A manual recording starts if nothing stands in its way.
    pub open spec fn starts_manual(
        self,
        id: RecordingId,
        now_ms: i64,
        after: Coordinator,
        start: Option<StartCapture>,
    ) -> bool {
        if self.in_flight() || !self.armed || !self.config.manual.enabled {
            &&& start is None
            &&& self.complains(
                after,
                "A manual recording could not be started."@,
                None,
                Some(RecoveryAction::Retry),
                now_ms,
            )
        } else {
            &&& after == self
            &&& start matches Some(start) && {
                &&& start.wf()
                &&& start.request == (StartRequest {
                    id,
                    requested_replay_ms: 0,
                    mode: RecordingMode::Manual,
                })
                &&& start.stop_at_ms is None
                &&& is_manual_draft(start.draft, now_ms)
            }
        }
    }

    /// Start a manual recording, if nothing stands in its way.
    pub fn start_manual(&mut self, id: RecordingId, now_ms: i64) -> (start: Option<StartCapture>)
        requires
            old(self).wf(),
        ensures
            final(self).wf(),
            old(self).starts_manual(id, now_ms, *final(self), start),
    {
        if self.capture_in_flight() || !self.armed || !self.config.manual.enabled {
            self.push_problem(
                "A manual recording could not be started.",
                None,
                Some(RecoveryAction::Retry),
                now_ms,
            );
            return None;
        }
        let request = StartRequest {
            id: id.duplicate(),
            requested_replay_ms: 0,
            mode: RecordingMode::Manual,
        };
        let draft = RecordingDraft {
            id,
            category: Category::Manual,
            flavor: GameFlavor::Retail,
            started_at_ms: now_ms,
            overrun_ms: 0,
            details: ActivityDetails::Manual,
            player: None,
            combatants: Vec::new(),
            timeline: Vec::new(),
            outcome: None,
            ended_at_ms: None,
            duration_ms: None,
            title: Some("Manual recording".to_owned()),
            activity_hash: None,
            meter: MeterData::default(),
        };
        Some(StartCapture { draft, request, stop_at_ms: None })
    }

    /// A test recording starts if nothing stands in its way.
    pub open spec fn starts_test(
        self,
        category: Category,
        test_duration_ms: u64,
        now_ms: i64,
        after: Coordinator,
        start: Option<TestStart>,
    ) -> bool {
        let end_ms = now_ms + test_duration(category, test_duration_ms);
        let frame = test_recording::test_frame(category, now_ms as int, end_ms);
        if self.in_flight() || self.capture.pending_test_end is Some || !self.armed {
            &&& start is None
            &&& self.complains(
                after,
                "A test recording could not be started."@,
                None,
                Some(RecoveryAction::Retry),
                now_ms,
            )
        } else if frame is None {
            &&& start is None
            &&& self.complains(
                after,
                "That category has no test recording."@,
                None,
                Some(RecoveryAction::Retry),
                now_ms,
            )
        } else {
            &&& after == self
            &&& start matches Some(test) && {
                &&& test.end_ms == end_ms
                &&& crate::parser::event_views(test.events@) == test_recording::test_start_events(
                    (frame->0).0,
                    now_ms as int,
                    end_ms,
                )
                &&& test.end_event@ == test_recording::retail_event((frame->0).1, end_ms)
            }
        }
    }

    /// Start a test recording, if nothing stands in its way: the minimum
    /// events for the chosen category, and the event that ends it once the
    /// test duration has elapsed.
    pub fn run_test(&mut self, category: Category, test_duration_ms: u64, now_ms: i64) -> (start:
        Option<TestStart>)
        requires
            old(self).wf(),
            now_ms + test_duration(category, test_duration_ms) <= i64::MAX,
            test_recording::test_times_fit(
                now_ms,
                (now_ms + test_duration(category, test_duration_ms)) as i64,
            ),
        ensures
            final(self).wf(),
            old(self).starts_test(category, test_duration_ms, now_ms, *final(self), start),
    {
        if self.capture_in_flight() || self.capture.pending_test_end.is_some() || !self.armed {
            self.push_problem(
                "A test recording could not be started.",
                None,
                Some(RecoveryAction::Retry),
                now_ms,
            );
            return None;
        }
        let duration: i128 = if category == Category::Raids {
            test_duration_ms as i128 * 4
        } else {
            test_duration_ms as i128
        };
        let end_ms: i64 = (now_ms as i128 + duration) as i64;
        match test_events(category, now_ms, end_ms) {
            None => {
                self.push_problem(
                    "That category has no test recording.",
                    None,
                    Some(RecoveryAction::Retry),
                    now_ms,
                );
                None
            },
            Some((events, end_event)) => Some(TestStart { events, end_ms, end_event }),
        }
    }

    /// `after` waits for the end of a test, if the test has started.
    pub open spec fn awaits_test(
        self,
        end_ms: i64,
        end_event: ParsedEvent,
        after: Coordinator,
    ) -> bool {
        after == (Coordinator {
            capture: CaptureState {
                pending_test_end: if self.capture.active is Some {
                    Some((end_ms, end_event))
                } else {
                    self.capture.pending_test_end
                },
                ..self.capture
            },
            ..self
        })
    }

    /// The events of a test were fed: its end is due later, if a recording
    /// has started.
    pub fn test_fed(&mut self, end_ms: i64, end_event: ParsedEvent)
        ensures
            old(self).wf() ==> final(self).wf(),
            old(self).awaits_test(end_ms, end_event, *final(self)),
    {
        if self.capture.active.is_some() {
            self.capture.pending_test_end = Some((end_ms, end_event));
        }
    }

    /// The end of a test is taken once it is due.
    pub open spec fn ends_test(
        self,
        now_ms: i64,
        after: Coordinator,
        event: Option<ParsedEvent>,
    ) -> bool {
        match self.capture.pending_test_end {
            Some((due_ms, due)) if due_ms <= now_ms => {
                &&& event == Some(due)
                &&& after == (Coordinator {
                    capture: CaptureState { pending_test_end: None, ..self.capture },
                    ..self
                })
            },
            _ => event is None && after == self,
        }
    }

    /// The event that ends a test, once it is due.
    pub fn due_test_end(&mut self, now_ms: i64) -> (event: Option<ParsedEvent>)
        ensures
            old(self).wf() ==> final(self).wf(),
            old(self).ends_test(now_ms, *final(self), event),
    {
        match self.capture.pending_test_end.take() {
            Some((due_ms, event)) => {
                if due_ms <= now_ms {
                    Some(event)
                } else {
                    self.capture.pending_test_end = Some((due_ms, event));
                    None
                }
            },
            None => None,
        }
    }

    /// What is done about an event of the activity engine. `dirty` is set
    /// whatever it is.
    pub open spec fn applies(
        self,
        event: ActivityEvent,
        now_ms: i64,
        after: Coordinator,
        effect: ActivityEffect,
    ) -> bool {
        let shown = Coordinator { dirty: true, ..self };
        match event {
            ActivityEvent::Begin { draft, detected_at_ms } => {
                if self.capture.active is Some || (self.capture.ending is Some
                    && self.capture.deferred is Some) {
                    &&& effect matches ActivityEffect::Drop { flavor } && flavor == draft.flavor
                    &&& after == shown
                } else if self.capture.ending is Some {
                    &&& effect is Nothing
                    &&& after == (Coordinator {
                        capture: CaptureState {
                            deferred: Some(DeferredBegin { draft, finished: false }),
                            ..self.capture
                        },
                        ..shown
                    })
                } else {
                    &&& effect matches ActivityEffect::Start(start) && self.starts_automatic(
                        start,
                        *draft,
                        detected_at_ms,
                    )
                    &&& after == shown
                }
            },
            ActivityEvent::Update { id, item } => {
                &&& effect is Nothing
                &&& match self.capture.active {
                    Some(active) if active.draft.id@ == id@ => {
                        &&& after.capture.active matches Some(a) && {
                            &&& a == (ActiveRecording {
                                draft: RecordingDraft {
                                    timeline: a.draft.timeline,
                                    ..active.draft
                                },
                                ..active
                            })
                            &&& a.draft.timeline@ == active.draft.timeline@.push(item)
                        }
                        &&& after == (Coordinator {
                            capture: CaptureState { active: after.capture.active, ..self.capture },
                            ..shown
                        })
                    },
                    _ => after == shown,
                }
            },
            ActivityEvent::Finished { id, known: draft } => {
                &&& effect is Nothing
                &&& match draft {
                    None => after == shown,
                    Some(draft) => match (self.capture.deferred, self.capture.active) {
                        (Some(deferred), _) if deferred.draft.id@ == id@ => after == (
                        Coordinator {
                            capture: CaptureState {
                                deferred: Some(DeferredBegin { draft, finished: true }),
                                ..self.capture
                            },
                            ..shown
                        }),
                        (_, Some(active)) if active.draft.id@ == id@ => after == (Coordinator {
                            capture: CaptureState {
                                active: Some(
                                    ActiveRecording {
                                        draft: *draft,
                                        stop_at_ms: Some(
                                            (now_ms + (draft.overrun_ms as i64)) as i64,
                                        ),
                                        ..active
                                    },
                                ),
                                ..self.capture
                            },
                            ..shown
                        }),
                        _ => after == shown,
                    },
                }
            },
            ActivityEvent::Discard { id } => match (self.capture.deferred, self.capture.active) {
                (Some(deferred), _) if deferred.draft.id@ == id@ => {
                    &&& effect is Nothing
                    &&& after == (Coordinator {
                        capture: CaptureState { deferred: None, ..self.capture },
                        ..shown
                    })
                },
                (_, Some(active)) if active.draft.id@ == id@ => {
                    &&& effect == (ActivityEffect::Cancel { id })
                    &&& after == (Coordinator {
                        capture: CaptureState { active: None, ..self.capture },
                        ..shown
                    })
                },
                _ => effect is Nothing && after == shown,
            },
        }
    }

    /// The end of an activity leaves room for its overrun on the clock.
    pub open spec fn overrun_fits(event: ActivityEvent, now_ms: i64) -> bool {
        event matches ActivityEvent::Finished { known: Some(draft), .. } ==> i64::MIN <= now_ms + (
        draft.overrun_ms as i64) <= i64::MAX
    }

    /// Take in an event of the activity engine.
    pub fn apply(&mut self, event: ActivityEvent, now_ms: i64) -> (effect: ActivityEffect)
        requires
            old(self).wf(),
            Self::overrun_fits(event, now_ms),
        ensures
            final(self).wf(),
            old(self).applies(event, now_ms, *final(self), effect),
    {
        self.dirty = true;
        match event {
            ActivityEvent::Begin { draft, detected_at_ms } => match self.begin(
                *draft,
                detected_at_ms,
            ) {
                BeginDecision::Drop { flavor } => ActivityEffect::Drop { flavor },
                BeginDecision::Deferred => ActivityEffect::Nothing,
                BeginDecision::Start(start) => ActivityEffect::Start(start),
            },
            ActivityEvent::Update { id, item } => {
                match self.capture.active.take() {
                    Some(active) => {
                        let mut active = active;
                        if active.draft.id.same_as(&id) {
                            active.draft.timeline.push(item);
                        }
                        self.capture.active = Some(active);
                    },
                    None => {},
                }
                ActivityEffect::Nothing
            },
            ActivityEvent::Finished { id, known: draft } => {
                let draft = match draft {
                    Some(draft) => draft,
                    None => {
                        return ActivityEffect::Nothing;
                    },
                };
                let held_back = match &self.capture.deferred {
                    Some(deferred) => deferred.draft.id.same_as(&id),
                    None => false,
                };
                if held_back {
                    self.capture.deferred = Some(DeferredBegin { draft, finished: true });
                    return ActivityEffect::Nothing;
                }
                match self.capture.active.take() {
                    Some(active) => {
                        if active.draft.id.same_as(&id) {
                            let stop_at_ms: i64 = now_ms + draft.overrun_ms as i64;
                            self.capture.active = Some(
                                ActiveRecording {
                                    draft: *draft,
                                    mode: active.mode,
                                    started_unix_ms: active.started_unix_ms,
                                    requested_replay_ms: active.requested_replay_ms,
                                    stop_at_ms: Some(stop_at_ms),
                                },
                            );
                        } else {
                            self.capture.active = Some(active);
                        }
                    },
                    None => {},
                }
                ActivityEffect::Nothing
            },
            ActivityEvent::Discard { id } => {
                let held_back = match &self.capture.deferred {
                    Some(deferred) => deferred.draft.id.same_as(&id),
                    None => false,
                };
                if held_back {
                    self.capture.deferred = None;
                    return ActivityEffect::Nothing;
                }
                let recording = match &self.capture.active {
                    Some(active) => active.draft.id.same_as(&id),
                    None => false,
                };
                if recording {
                    self.capture.active = None;
                    ActivityEffect::Cancel { id }
                } else {
                    ActivityEffect::Nothing
                }
            },
        }
    }
}

/// A manual recording that starts now.
pub open spec fn is_manual_draft(draft: RecordingDraft, now_ms: i64) -> bool {
    &&& draft.category == Category::Manual
    &&& draft.flavor is Retail
    &&& draft.started_at_ms == now_ms
    &&& draft.overrun_ms == 0
    &&& draft.details is Manual
    &&& draft.player is None
    &&& draft.combatants@.len() == 0
    &&& draft.timeline@.len() == 0
    &&& draft.outcome is None
    &&& draft.ended_at_ms is None
    &&& draft.duration_ms is None
    &&& domain::text_view(draft.title) == Some("Manual recording"@)
    &&& draft.activity_hash is None
    &&& draft.meter.fights@.len() == 0
}

impl Coordinator {
    /// The capture whose time is up, if there is one.
    pub open spec fn falls_due(
        self,
        now_ms: i64,
        after: Coordinator,
        draft: Option<RecordingDraft>,
    ) -> bool {
        match self.capture.active {
            Some(active) if active.stop_at_ms matches Some(stop) && stop <= now_ms => {
                &&& draft == Some(active.draft)
                &&& after == (Coordinator {
                    capture: CaptureState { active: None, ..self.capture },
                    dirty: true,
                    ..self
                })
            },
            _ => draft is None && after == self,
        }
    }

    /// The capture whose time is up, if there is one: the recorder is to be
    /// asked to end it.
    pub fn due_end(&mut self, now_ms: i64) -> (draft: Option<RecordingDraft>)
        ensures
            old(self).wf() ==> final(self).wf(),
            old(self).falls_due(now_ms, *final(self), draft),
    {
        let due = match &self.capture.active {
            Some(active) => match active.stop_at_ms {
                Some(stop_at_ms) => stop_at_ms <= now_ms,
                None => false,
            },
            None => false,
        };
        if !due {
            return None;
        }
        self.dirty = true;
        match self.capture.active.take() {
            Some(active) => Some(active.draft),
            None => None,
        }
    }

    /// The recorder was asked to end a capture that is to be kept. Where it
    /// refuses, the user is told and what was written is to be swept.
    pub open spec fn ends(
        self,
        draft: RecordingDraft,
        outcome: Result<(), RecorderError>,
        now_ms: i64,
        after: Coordinator,
        sweep: bool,
    ) -> bool {
        match outcome {
            Ok(_) => {
                &&& !sweep
                &&& after == (Coordinator {
                    capture: CaptureState {
                        ending: Some(EndingCapture::Finalize(Box::new(draft))),
                        ..self.capture
                    },
                    ..self
                })
            },
            Err(error) => sweep && self.complains_of(after, error, now_ms),
        }
    }

    /// The recorder was asked to end a capture that is to be kept; whether
    /// what was written is to be swept.
    pub fn end_requested(
        &mut self,
        draft: RecordingDraft,
        outcome: Result<(), RecorderError>,
        now_ms: i64,
    ) -> (sweep: bool)
        requires
            old(self).wf(),
            !old(self).in_flight(),
        ensures
            final(self).wf(),
            old(self).ends(draft, outcome, now_ms, *final(self), sweep),
    {
        match outcome {
            Ok(_) => {
                self.capture.ending = Some(EndingCapture::Finalize(Box::new(draft)));
                false
            },
            Err(error) => {
                self.push_recorder_problem(&error, now_ms);
                true
            },
        }
    }

    /// The recorder was asked to end a capture that is not kept.
    pub open spec fn cancels(
        self,
        outcome: Result<(), RecorderError>,
        now_ms: i64,
        after: Coordinator,
    ) -> bool {
        match outcome {
            Ok(_) => after == (Coordinator {
                capture: CaptureState { ending: Some(EndingCapture::Discard), ..self.capture },
                dirty: true,
                ..self
            }),
            Err(error) => self.complains_of(after, error, now_ms),
        }
    }

    /// The recorder was asked to end a capture that is not kept.
    pub fn cancel_requested(&mut self, outcome: Result<(), RecorderError>, now_ms: i64)
        requires
            old(self).wf(),
            !old(self).in_flight(),
        ensures
            final(self).wf(),
            old(self).cancels(outcome, now_ms, *final(self)),
    {
        self.dirty = true;
        match outcome {
            Ok(_) => {
                self.capture.ending = Some(EndingCapture::Discard);
            },
            Err(error) => self.push_recorder_problem(&error, now_ms),
        }
    }

    /// What is known of a capture's media before it is looked at.
    pub open spec fn facts(self) -> MediaFacts {
        MediaFacts {
            fps: Some(self.config.capture.fps),
            width: None,
            height: None,
            codec: Some(self.config.capture.codec),
            has_content: true,
        }
    }

    pub fn media_facts(&self) -> (facts: MediaFacts)
        ensures
            facts == self.facts(),
    {
        MediaFacts {
            fps: Some(self.config.capture.fps),
            width: None,
            height: None,
            codec: Some(self.config.capture.codec),
            has_content: true,
        }
    }

    /// A finished capture was queued for saving, or there was no room.
    pub open spec fn queues_finalization(
        self,
        after: Coordinator,
        draft: Box<RecordingDraft>,
        artifacts: CaptureArtifacts,
        sweep: bool,
        now_ms: i64,
    ) -> bool {
        if self.media.finalizations@.len() >= MAX_MEDIA_QUEUE {
            &&& sweep
            &&& self.complains(
                after,
                "The recording could not be queued for saving."@,
                None,
                Some(RecoveryAction::Retry),
                now_ms,
            )
        } else {
            &&& !sweep
            &&& after == (Coordinator {
                media: MediaState { finalizations: after.media.finalizations, ..self.media },
                ..self
            })
            &&& after.media.finalizations@ == self.media.finalizations@.push(
                MediaJob::FinalizeRecording { draft, artifacts, facts: self.facts() },
            )
        }
    }

    fn queue_finalization(
        &mut self,
        draft: Box<RecordingDraft>,
        artifacts: CaptureArtifacts,
        now_ms: i64,
    ) -> (sweep: bool)
        requires
            old(self).wf(),
        ensures
            final(self).wf(),
            old(self).queues_finalization(*final(self), draft, artifacts, sweep, now_ms),
    {
        if self.media.finalizations.len() >= MAX_MEDIA_QUEUE {
            self.push_problem(
                "The recording could not be queued for saving.",
                None,
                Some(RecoveryAction::Retry),
                now_ms,
            );
            return true;
        }
        let facts = self.media_facts();
        self.media.finalizations.push_back(
            MediaJob::FinalizeRecording { draft, artifacts, facts },
        );
        false
    }

    /// What the arrival of a capture's artifacts does, before the activity
    /// that was held back gets its turn. No artifacts mean that the recorder
    /// never wrote the regular recording within its bounded wait.
    pub open spec fn resolves(
        self,
        artifacts: Option<CaptureArtifacts>,
        mid: Coordinator,
        sweep: bool,
        now_ms: i64,
    ) -> bool {
        let open = Coordinator {
            capture: CaptureState { ending: None, ..self.capture },
            dirty: true,
            ..self
        };
        match (self.capture.ending, artifacts) {
            (Some(EndingCapture::Finalize(draft)), Some(artifacts)) => open.queues_finalization(
                mid,
                draft,
                artifacts,
                sweep,
                now_ms,
            ),
            (Some(EndingCapture::Finalize(_)), None) => sweep && open.complains_of(
                mid,
                RecorderError::MissingRegularArtifact,
                now_ms,
            ),
            (Some(EndingCapture::Discard), _) => sweep && mid == open,
            (None, _) => !sweep && mid == open,
        }
    }

    /// Whether an activity that was held back is dropped or started once the
    /// recorder is free: not while stopping, since nothing would ever end the
    /// capture, and not while disarmed, since nothing could start it.
    pub open spec fn releases(
        self,
        after: Coordinator,
        start: Option<StartCapture>,
        now_ms: i64,
    ) -> bool {
        match self.capture.deferred {
            Some(deferred) if !self.stopping => {
                &&& after == (Coordinator {
                    capture: CaptureState { deferred: None, ..self.capture },
                    ..self
                })
                &&& if self.armed {
                    start matches Some(start) && self.starts_automatic(
                        StartCapture { stop_at_ms: None, ..start },
                        *deferred.draft,
                        now_ms,
                    ) && start.stop_at_ms == (if deferred.finished {
                        Some(
                            ((match deferred.draft.ended_at_ms {
                                Some(ended) => ended,
                                None => now_ms,
                            }) + (deferred.draft.overrun_ms as i64)) as i64,
                        )
                    } else {
                        None
                    })
                } else {
                    start is None
                }
            },
            _ => start is None && after == self,
        }
    }

    /// The end of an activity that was held back leaves room for its overrun
    /// on the clock.
    pub open spec fn held_back_fits(self, now_ms: i64) -> bool {
        match self.capture.deferred {
            Some(deferred) if deferred.finished => {
                let anchor = match deferred.draft.ended_at_ms {
                    Some(ended) => ended,
                    None => now_ms,
                };
                i64::MIN <= anchor + (deferred.draft.overrun_ms as i64) <= i64::MAX
            },
            _ => true,
        }
    }

    /// The recorder resolved a requested end: first the recording, then the
    /// activity that was held back for it.
    pub open spec fn wraps_up(
        self,
        artifacts: Option<CaptureArtifacts>,
        now_ms: i64,
        after: Coordinator,
        resolved: CaptureResolved,
    ) -> bool {
        let mid = Coordinator {
            capture: CaptureState { deferred: self.capture.deferred, ..after.capture },
            ..after
        };
        &&& self.resolves(artifacts, mid, resolved.sweep, now_ms)
        &&& mid.releases(after, resolved.start, now_ms)
        &&& resolved.start matches Some(start) ==> start.wf() && !after.in_flight()
    }

    /// The recorder resolved a requested end: the recording is queued for
    /// saving, or given up. An activity that was held back starts now; the
    /// requested pre-roll still reaches back to its real start, and one that
    /// is over already stops on the overrun it would have had.
    pub fn capture_ended(&mut self, artifacts: Option<CaptureArtifacts>, now_ms: i64) -> (resolved:
        CaptureResolved)
        requires
            old(self).wf(),
            old(self).held_back_fits(now_ms),
        ensures
            final(self).wf(),
            old(self).wraps_up(artifacts, now_ms, *final(self), resolved),
    {
        self.dirty = true;
        let ending = self.capture.ending.take();
        let deferred = self.capture.deferred.take();
        let sweep = match (ending, artifacts) {
            (Some(EndingCapture::Finalize(draft)), Some(artifacts)) => self.queue_finalization(
                draft,
                artifacts,
                now_ms,
            ),
            (Some(EndingCapture::Finalize(_)), None) => {
                self.push_recorder_problem(&RecorderError::MissingRegularArtifact, now_ms);
                true
            },
            (Some(EndingCapture::Discard), _) => true,
            (None, _) => false,
        };
        if self.stopping {
            self.capture.deferred = deferred;
            return CaptureResolved { sweep, start: None };
        }
        let deferred = match deferred {
            Some(deferred) => deferred,
            None => {
                return CaptureResolved { sweep, start: None };
            },
        };
        if !self.armed {
            return CaptureResolved { sweep, start: None };
        }
        let DeferredBegin { draft, finished } = deferred;
        let draft = *draft;
        let stop_at_ms = if finished {
            let anchor: i64 = match draft.ended_at_ms {
                Some(ended) => ended,
                None => now_ms,
            };
            Some(anchor + draft.overrun_ms as i64)
        } else {
            None
        };
        let start = self.automatic_start(draft, now_ms);
        let start = StartCapture { draft: start.draft, request: start.request, stop_at_ms };
        CaptureResolved { sweep, start: Some(start) }
    }
}

impl Coordinator {
    /// `after` and `reaction` are what an event of the recorder calls for.
    pub open spec fn reacts(
        self,
        event: RecorderEvent,
        now_ms: i64,
        after: Coordinator,
        reaction: RecorderReaction,
    ) -> bool {
        match event {
            RecorderEvent::TargetTokenAvailable(token) => if domain::text_view(
                self.config.capture.capture_target_token,
            ) != Some(token@) {
                reaction is SaveToken && self.remembers(after, token)
            } else {
                reaction is Nothing && after == self
            },
            RecorderEvent::CaptureEnded { artifacts } => {
                reaction matches RecorderReaction::CaptureEnded(resolved) && self.wraps_up(
                    artifacts,
                    now_ms,
                    after,
                    resolved,
                )
            },
            RecorderEvent::RestartFailed { message } => {
                &&& reaction is Nothing
                &&& self.capture_lost(after, CAPTURE_RESTART_FAILED_PROBLEM@, message@, now_ms)
                &&& after.capture == self.capture
            },
            RecorderEvent::ChildExited { code } => {
                &&& self.capture_lost(after, CAPTURE_STOPPED_PROBLEM@, exit_text(code), now_ms)
                &&& match self.capture.active {
                    Some(active) => {
                        &&& reaction == (RecorderReaction::DropActivity {
                            flavor: active.draft.flavor,
                        })
                        &&& after.capture == (CaptureState {
                            active: None,
                            pending_test_end: None,
                            ..self.capture
                        })
                    },
                    None => reaction is Nothing && after.capture == self.capture,
                }
            },
            RecorderEvent::Restarted => {
                &&& reaction is Nothing
                &&& after.armed
                &&& after.dirty
                &&& after.problems@ == coordinator::without_capture_problems(self.problems@)
                &&& after.capture == self.capture
            },
            RecorderEvent::RestartScheduled { .. } | RecorderEvent::Diagnostic(_) => {
                reaction is Nothing && after == self
            },
        }
    }

    /// Take in an event of the recorder.
    pub fn recorder_event(&mut self, event: RecorderEvent, now_ms: i64) -> (reaction:
        RecorderReaction)
        requires
            old(self).wf(),
            event is CaptureEnded ==> old(self).held_back_fits(now_ms),
        ensures
            final(self).wf(),
            old(self).reacts(event, now_ms, *final(self), reaction),
            event !is CaptureEnded && event !is TargetTokenAvailable ==> *final(self) == (
            Coordinator {
                armed: final(self).armed,
                capture: final(self).capture,
                problems: final(self).problems,
                dirty: final(self).dirty,
                ..*old(self)
            }),
    {
        match event {
            RecorderEvent::TargetTokenAvailable(token) => if self.store_token(token) {
                RecorderReaction::SaveToken
            } else {
                RecorderReaction::Nothing
            },
            RecorderEvent::CaptureEnded { artifacts } => RecorderReaction::CaptureEnded(
                self.capture_ended(artifacts, now_ms),
            ),
            RecorderEvent::RestartFailed { message } => {
                self.restart_failed(message, now_ms);
                RecorderReaction::Nothing
            },
            RecorderEvent::ChildExited { code } => match self.child_exited(code, now_ms) {
                Some(flavor) => RecorderReaction::DropActivity { flavor },
                None => RecorderReaction::Nothing,
            },
            RecorderEvent::Restarted => {
                self.restarted();
                RecorderReaction::Nothing
            },
            RecorderEvent::RestartScheduled { .. } => RecorderReaction::Nothing,
            RecorderEvent::Diagnostic(_) => RecorderReaction::Nothing,
        }
    }
}

} // verus!
