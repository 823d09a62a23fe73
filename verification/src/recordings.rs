//! What becomes of recordings, media jobs and uploads over several steps.
use vstd::prelude::*;

use crate::activity::{ActivityEvent, RecordingDraft};
use crate::capture;
use crate::capture::{
    ActivityEffect, BeginDecision, CaptureResolved, ForceEnd, StartCapture, TestStart,
};
use crate::commands::CommandEffect;
use crate::config;
use crate::config::Config;
use crate::configure::PendingConfig;
use crate::coordinator;
use crate::coordinator::{
    ActiveRecording, Command, Coordinator, EndingCapture, UploadProgressView, MAX_MEDIA_QUEUE,
    MAX_UPLOAD_QUEUE,
};
use crate::domain::{
    Category, GameFlavor, ProblemView, RecordingId, RecoveryAction, TimelineItem, WorkKind,
};
use crate::media_jobs::MediaJob;
use crate::queues;
use crate::queues::Handover;
use crate::recorder::{CaptureArtifacts, RecorderError, RecordingMode};
use crate::upload::{UploadAction, UploadEvent, UploadJob};

verus! {

// --- recordings ---

/// A recording reaches back before the activity's start by the lead-in that
/// the user asked for, as long as the replay buffer holds that much.
pub proof fn the_lead_in_comes_before_the_start(
    idle: Coordinator,
    draft: RecordingDraft,
    detected_at_ms: i64,
    after: Coordinator,
    decision: BeginDecision,
)
    requires
        idle.begins(draft, detected_at_ms, after, decision),
        idle.capture.active is None,
        idle.capture.ending is None,
        draft.started_at_ms <= detected_at_ms,
        detected_at_ms - draft.started_at_ms + 1_000 * idle.config.capture.extra_lead_in_seconds
            <= 1_000 * idle.config.capture.replay_buffer_seconds,
    ensures
        decision matches BeginDecision::Start(start) && start.request.requested_replay_ms - (
        detected_at_ms - draft.started_at_ms) == 1_000 * idle.config.capture.extra_lead_in_seconds,
{
}

/// One more second of lead-in in the settings is one more second of replay in
/// the recording, while the buffer has it.
pub proof fn more_lead_in_gives_more_replay(
    idle: Coordinator,
    eager: Coordinator,
    draft: RecordingDraft,
    detected_at_ms: i64,
    after: Coordinator,
    eager_after: Coordinator,
    start: StartCapture,
    eager_start: StartCapture,
)
    requires
        idle.begins(draft, detected_at_ms, after, BeginDecision::Start(start)),
        eager.begins(draft, detected_at_ms, eager_after, BeginDecision::Start(eager_start)),
        eager.config.capture.extra_lead_in_seconds == idle.config.capture.extra_lead_in_seconds + 1,
        eager.config.capture.replay_buffer_seconds == idle.config.capture.replay_buffer_seconds,
        0 <= detected_at_ms - draft.started_at_ms + 1_000
            * idle.config.capture.extra_lead_in_seconds,
        detected_at_ms - draft.started_at_ms + 1_000 * eager.config.capture.extra_lead_in_seconds
            <= 1_000 * eager.config.capture.replay_buffer_seconds,
    ensures
        eager_start.request.requested_replay_ms == start.request.requested_replay_ms + 1_000,
{
}

/// An activity that is noticed later gets as much more replay, so that the
/// recording starts at the same moment; where the buffer does not reach that
/// far back, all of it is taken.
pub proof fn late_detection_moves_no_start(
    idle: Coordinator,
    draft: RecordingDraft,
    early_ms: i64,
    late_ms: i64,
    after: Coordinator,
    late_after: Coordinator,
    start: StartCapture,
    late_start: StartCapture,
)
    requires
        idle.begins(draft, early_ms, after, BeginDecision::Start(start)),
        idle.begins(draft, late_ms, late_after, BeginDecision::Start(late_start)),
        draft.started_at_ms <= early_ms <= late_ms,
    ensures
        start.request.requested_replay_ms <= late_start.request.requested_replay_ms <= 1_000
            * idle.config.capture.replay_buffer_seconds,
        late_start.request.requested_replay_ms == 1_000 * idle.config.capture.replay_buffer_seconds
            || early_ms - start.request.requested_replay_ms == late_ms
            - late_start.request.requested_replay_ms,
        late_start.request.requested_replay_ms < 1_000
            * idle.config.capture.replay_buffer_seconds ==> late_start.request.requested_replay_ms
            >= late_ms - draft.started_at_ms,
{
}

/// With nothing being recorded or written, an activity that begins is
/// recorded, and as itself; while one is being recorded, another changes
/// nothing and is forgotten.
pub proof fn one_activity_is_recorded_at_a_time(
    before: Coordinator,
    draft: Box<RecordingDraft>,
    detected_at_ms: i64,
    now_ms: i64,
    after: Coordinator,
    effect: ActivityEffect,
)
    requires
        before.applies(ActivityEvent::Begin { draft, detected_at_ms }, now_ms, after, effect),
    ensures
        before.capture.active is None && before.capture.ending is None ==> {
            &&& effect matches ActivityEffect::Start(start) && start.draft == *draft
                && start.request.id == draft.id && start.request.mode == RecordingMode::Automatic
                && start.stop_at_ms is None
            &&& after.capture == before.capture
        },
        before.capture.active is Some ==> {
            &&& effect == (ActivityEffect::Drop { flavor: draft.flavor })
            &&& after.capture == before.capture
        },
{
}

/// What the recorder was asked for is what is recorded, with the replay in
/// front that was asked for; a refused start records nothing and drops the
/// activity.
pub proof fn what_was_started_is_recorded(
    before: Coordinator,
    start: StartCapture,
    outcome: Result<i64, RecorderError>,
    now_ms: i64,
    after: Coordinator,
    dropped: Option<GameFlavor>,
)
    requires
        before.captures(start, outcome, now_ms, after, dropped),
        before.capture.active is None,
    ensures
        match outcome {
            Ok(started_at_ms) => dropped is None && (after.capture.active matches Some(active) && {
                &&& active.draft == start.draft
                &&& active.mode == start.request.mode
                &&& active.requested_replay_ms == start.request.requested_replay_ms
                &&& active.started_unix_ms == started_at_ms
                &&& active.stop_at_ms == start.stop_at_ms
            }),
            Err(_) => dropped == Some(start.draft.flavor) && after.capture.active is None,
        },
{
}

/// A recording whose activity has ended runs on for the activity's overrun,
/// and no longer: it falls due exactly once that time has passed, with all
/// that is known of the activity by then.
pub proof fn recordings_end_after_their_overrun(
    running: Coordinator,
    id: RecordingId,
    done: Box<RecordingDraft>,
    now_ms: i64,
    finished: Coordinator,
    effect: ActivityEffect,
    later_ms: i64,
    after: Coordinator,
    due: Option<RecordingDraft>,
)
    requires
        running.applies(
            ActivityEvent::Finished { id, known: Some(done) },
            now_ms,
            finished,
            effect,
        ),
        running.capture.active matches Some(active) && active.draft.id@ == id@,
        running.capture.deferred is None,
        done.overrun_ms <= i64::MAX,
        now_ms + done.overrun_ms <= i64::MAX,
        finished.falls_due(later_ms, after, due),
    ensures
        due == (if later_ms - now_ms >= done.overrun_ms {
            Some(*done)
        } else {
            None
        }),
        due is Some <==> after.capture.active is None,
        effect is Nothing,
{
}

/// A recording whose activity goes on does not fall due by itself.
pub proof fn running_recordings_do_not_fall_due(
    running: Coordinator,
    later_ms: i64,
    after: Coordinator,
    due: Option<RecordingDraft>,
)
    requires
        running.falls_due(later_ms, after, due),
        running.capture.active matches Some(active) ==> active.stop_at_ms is None,
    ensures
        due is None,
        after == running,
{
}

/// What happens in an activity is kept on the timeline of its recording, in
/// order; what happens in another is not.
pub proof fn moments_are_kept_in_order(
    running: Coordinator,
    id: RecordingId,
    item: TimelineItem,
    now_ms: i64,
    after: Coordinator,
    effect: ActivityEffect,
    active: ActiveRecording,
)
    requires
        running.applies(ActivityEvent::Update { id, item }, now_ms, after, effect),
        running.capture.active == Some(active),
    ensures
        after.capture.active matches Some(kept) && {
            &&& kept.draft.id == active.draft.id
            &&& active.draft.id@ == id@ ==> {
                &&& kept.draft.timeline@.len() == active.draft.timeline@.len() + 1
                &&& kept.draft.timeline@.last() == item
                &&& kept.draft.timeline@.drop_last() =~= active.draft.timeline@
            }
            &&& active.draft.id@ != id@ ==> kept == active
            &&& kept.requested_replay_ms == active.requested_replay_ms
            &&& kept.stop_at_ms == active.stop_at_ms
        },
{
}

/// A discarded activity is no longer recorded, and the recorder is told to
/// stop its capture; another's recording goes on.
pub proof fn discarding_stops_the_capture(
    running: Coordinator,
    id: RecordingId,
    now_ms: i64,
    after: Coordinator,
    effect: ActivityEffect,
    active: ActiveRecording,
)
    requires
        running.applies(ActivityEvent::Discard { id }, now_ms, after, effect),
        running.capture.active == Some(active),
        running.capture.deferred is None,
    ensures
        active.draft.id@ == id@ ==> after.capture.active is None && effect == (
        ActivityEffect::Cancel { id }),
        active.draft.id@ != id@ ==> after.capture.active == Some(active) && effect is Nothing,
{
}

/// An automatic recording is ended once its log has been quiet for ten
/// minutes, or for two outside retail, and not before; it then ends at the
/// last moment that the log tells of. Manual recordings and those that are
/// ending already are left alone.
pub proof fn quiet_logs_end_recordings(
    running: Coordinator,
    active: ActiveRecording,
    wall_ms: i64,
    log_ms: i64,
    now_ms: i64,
)
    requires
        running.capture.active == Some(active),
        capture::last_seen(running.capture.seen@, active.draft.flavor@) == Some((wall_ms, log_ms)),
    ensures
        running.gone_quiet(now_ms) == (if active.mode == RecordingMode::Automatic
            && active.stop_at_ms is None && now_ms - wall_ms >= (if active.draft.flavor is Retail {
            10int * 60 * 1_000
        } else {
            2int * 60 * 1_000
        }) {
            Some((active.draft.flavor, log_ms))
        } else {
            None
        }),
{
}

/// A manual recording starts with no replay in front, and only if capture is
/// armed and free and manual recordings are turned on.
pub proof fn manual_recordings_start_when_free(
    before: Coordinator,
    id: RecordingId,
    now_ms: i64,
    after: Coordinator,
    start: Option<StartCapture>,
)
    requires
        before.starts_manual(id, now_ms, after, start),
    ensures
        start is Some <==> before.armed && before.config.manual.enabled && before.capture.active
            is None && before.capture.ending is None,
        start matches Some(start) ==> {
            &&& start.request.requested_replay_ms == 0
            &&& start.request.mode == RecordingMode::Manual
            &&& start.request.id == id
            &&& start.draft.id == id
            &&& start.draft.started_at_ms == now_ms
            &&& start.draft.category == Category::Manual
            &&& start.draft.overrun_ms == 0
        },
{
}

/// A manual recording that is stopped ends at that moment and lasts from its
/// start until then.
pub proof fn stopped_manual_recordings_end_now(
    running: Coordinator,
    active: ActiveRecording,
    now_ms: i64,
    stopped: Coordinator,
    after: Coordinator,
    due: Option<RecordingDraft>,
)
    requires
        running.capture.active == Some(active),
        active.mode == RecordingMode::Manual,
        active.draft.started_at_ms <= now_ms,
        running.stops_manual(now_ms, stopped),
        stopped.falls_due(now_ms, after, due),
    ensures
        due matches Some(draft) && {
            &&& draft.id == active.draft.id
            &&& draft.ended_at_ms == Some(now_ms)
            &&& draft.duration_ms matches Some(length) && draft.started_at_ms + length == now_ms
            &&& draft.timeline == active.draft.timeline
        },
        after.capture.active is None,
{
}

/// A test recording ends after the time it was given, or four times that for
/// a raid; none starts while something is recorded or written, while another
/// test waits for its end, or while capture is not armed.
pub proof fn tests_last_as_long_as_they_are_given(
    before: Coordinator,
    category: Category,
    test_duration_ms: u64,
    now_ms: i64,
    after: Coordinator,
    test: TestStart,
)
    requires
        before.starts_test(category, test_duration_ms, now_ms, after, Some(test)),
    ensures
        test.end_ms - now_ms == (if category == Category::Raids {
            4 * test_duration_ms
        } else {
            test_duration_ms as int
        }),
        before.armed,
        before.capture.active is None,
        before.capture.ending is None,
        before.capture.pending_test_end is None,
{
}

/// A recording is saved with what the settings say of its media.
pub proof fn recordings_are_saved_with_their_settings(before: Coordinator)
    ensures
        before.facts().fps == Some(before.config.capture.fps),
        before.facts().codec == Some(before.config.capture.codec),
        before.facts().width is None,
        before.facts().height is None,
        before.facts().has_content,
{
}

/// A capture that left no recording is reported, with a way to the logs, and
/// nothing is queued for it.
pub proof fn captures_without_a_file_are_reported(
    ending: Coordinator,
    draft: Box<RecordingDraft>,
    now_ms: i64,
    after: Coordinator,
    resolved: CaptureResolved,
)
    requires
        ending.wf(),
        ending.capture.ending == Some(EndingCapture::Finalize(draft)),
        ending.wraps_up(None, now_ms, after, resolved),
    ensures
        resolved.sweep,
        after.media.finalizations@ == ending.media.finalizations@,
        coordinator::problem_views(after.problems@).len() > 0,
        coordinator::problem_views(after.problems@).last() == (ProblemView {
            summary: "The recording produced no video file."@,
            safe_detail: None,
            occurred_unix_ms: now_ms,
            recovery_action: Some(RecoveryAction::OpenLogs),
        }),
{
}

/// A refusal tells the user what to do about it: choose the capture target
/// again where it was denied, look at the settings where they are at fault, try
/// again where the recorder was not ready, and read the logs otherwise.
pub proof fn refusals_offer_a_way_on(error: RecorderError, now_ms: i64)
    ensures
        capture::recorder_problem(error, now_ms).recovery_action == Some(
            if error is SelectionDenied {
                RecoveryAction::ReselectCaptureTarget
            } else if error is InvalidSettings {
                RecoveryAction::OpenSettings
            } else if error is Busy || error is NotArmed || error is WrongId {
                RecoveryAction::Retry
            } else {
                RecoveryAction::OpenLogs
            },
        ),
        capture::recorder_problem(error, now_ms).occurred_unix_ms == now_ms,
{
}

/// A recording whose time is up, and whose artifacts arrive, waits to be
/// saved behind those that waited already.
pub proof fn ended_recordings_are_queued_for_saving(
    running: Coordinator,
    stopped: Coordinator,
    ending: Coordinator,
    after: Coordinator,
    draft: RecordingDraft,
    sweep: bool,
    artifacts: CaptureArtifacts,
    resolved: CaptureResolved,
    now_ms: i64,
    later_ms: i64,
)
    requires
        running.media.finalizations@.len() < MAX_MEDIA_QUEUE,
        running.falls_due(now_ms, stopped, Some(draft)),
        stopped.ends(draft, Ok(()), now_ms, ending, sweep),
        ending.wraps_up(Some(artifacts), later_ms, after, resolved),
    ensures
        !sweep,
        !resolved.sweep,
        after.media.finalizations@ == running.media.finalizations@.push(
            MediaJob::FinalizeRecording {
                draft: Box::new(draft),
                artifacts,
                facts: running.facts(),
            },
        ),
{
}

/// A recording that was discarded is never saved: whatever its capture wrote
/// is swept, and no job is queued for it.
pub proof fn discarded_recordings_are_not_saved(
    before: Coordinator,
    ending: Coordinator,
    after: Coordinator,
    artifacts: Option<CaptureArtifacts>,
    resolved: CaptureResolved,
    now_ms: i64,
    later_ms: i64,
)
    requires
        before.cancels(Ok(()), now_ms, ending),
        ending.wraps_up(artifacts, later_ms, after, resolved),
    ensures
        resolved.sweep,
        after.media == before.media,
        after.problems == before.problems,
{
}

/// An activity that begins while the previous capture is still being written
/// is not lost: it starts once that is done, with a replay that reaches back
/// to its real start.
pub proof fn activities_held_back_are_recorded(
    busy: Coordinator,
    waiting: Coordinator,
    after: Coordinator,
    draft: RecordingDraft,
    detected_at_ms: i64,
    decision: BeginDecision,
    artifacts: Option<CaptureArtifacts>,
    resolved: CaptureResolved,
    now_ms: i64,
)
    requires
        busy.wf(),
        busy.capture.ending is Some,
        busy.capture.deferred is None,
        busy.armed,
        !busy.stopping,
        busy.begins(draft, detected_at_ms, waiting, decision),
        waiting.wraps_up(artifacts, now_ms, after, resolved),
    ensures
        decision is Deferred,
        resolved.start matches Some(start) && {
            &&& start.draft == draft
            &&& start.request.id == draft.id
            &&& start.request.mode == RecordingMode::Automatic
            &&& start.request.requested_replay_ms == capture::wanted_replay_ms(
                busy.config,
                draft.started_at_ms as int,
                now_ms as int,
            )
            &&& start.stop_at_ms is None
        },
        after.capture.deferred is None,
{
}

/// An activity that began and ended while the previous capture was being
/// written is recorded all the same, and its capture does not run on: it
/// stops on the overrun after the activity's own end.
pub proof fn activities_that_ended_while_held_back_stop_again(
    waiting: Coordinator,
    finished: Coordinator,
    free: Coordinator,
    after: Coordinator,
    id: RecordingId,
    done: Box<RecordingDraft>,
    ended_at_ms: i64,
    effect: ActivityEffect,
    artifacts: Option<CaptureArtifacts>,
    resolved: CaptureResolved,
    started_at_ms: i64,
    dropped: Option<GameFlavor>,
    heard_ms: i64,
    now_ms: i64,
)
    requires
        waiting.armed,
        !waiting.stopping,
        waiting.capture.deferred matches Some(deferred) && deferred.draft.id@ == id@,
        done.ended_at_ms == Some(ended_at_ms),
        i64::MIN <= ended_at_ms + (done.overrun_ms as i64) <= i64::MAX,
        waiting.applies(
            ActivityEvent::Finished { id, known: Some(done) },
            heard_ms,
            finished,
            effect,
        ),
        finished.wraps_up(artifacts, now_ms, free, resolved),
        resolved.start matches Some(start) && free.captures(
            start,
            Ok(started_at_ms),
            now_ms,
            after,
            dropped,
        ),
    ensures
        after.capture.active matches Some(active) && {
            &&& active.draft == *done
            &&& active.stop_at_ms matches Some(stop) && stop == ended_at_ms + (done.overrun_ms as i64)
        },
{
}

/// A manual recording that is forced to end is over at once.
pub proof fn forced_manual_recordings_end_now(
    before: Coordinator,
    forced: Coordinator,
    after: Coordinator,
    end: Option<ForceEnd>,
    draft: Option<RecordingDraft>,
    now_ms: i64,
)
    requires
        before.capture.active matches Some(active) && active.mode == RecordingMode::Manual,
        before.ends_by_force(now_ms, forced, end),
        forced.falls_due(now_ms, after, draft),
    ensures
        end is None,
        draft matches Some(draft) && draft.ended_at_ms == Some(now_ms),
        after.capture.active is None,
{
}

/// Once capture runs again, no problem is left on show that says it does not;
/// every other problem stays.
pub proof fn recovered_capture_leaves_no_stale_problems(
    before: Coordinator,
    after: Coordinator,
    i: int,
)
    requires
        before.runs_again(after),
        0 <= i < after.problems@.len(),
    ensures
        !coordinator::is_capture_problem(after.problems@[i]),
        before.problems@.contains(after.problems@[i]),
{
    coordinator::clearing_keeps_other_problems(before.problems@, i);
}

/// Anything that stops, replaces or reconfigures the recorder waits while a
/// recording is being captured or saved: it changes nothing but the problems
/// that are shown.
pub proof fn commands_leave_recordings_in_flight_alone(
    before: Coordinator,
    command: Command,
    fresh_id: RecordingId,
    test_duration_ms: u64,
    now_ms: i64,
    after: Coordinator,
    effect: CommandEffect,
)
    requires
        before.in_flight(),
        command is Arm || command is Disarm || command is ReselectCaptureTarget || command
            is SaveConfig || command is StartManual || command is RunTest,
        before.handles(command, fresh_id, test_duration_ms, now_ms, after, effect),
    ensures
        effect is Nothing,
        after.capture == before.capture,
        after.armed == before.armed,
        after.config == before.config,
        after.media == before.media,
        after.uploads == before.uploads,
{
}

/// New settings are only written while nothing is being captured or saved,
/// and only if they can be used; the release notes that were acknowledged
/// stay acknowledged.
pub proof fn only_usable_settings_are_written(
    before: Coordinator,
    draft: Config,
    now_ms: i64,
    after: Coordinator,
    pending: PendingConfig,
)
    requires
        before.saves_config(draft, now_ms, after, Some(pending)),
    ensures
        before.settled(),
        config::usable_problems(pending.draft).len() == 0,
        pending.draft.last_seen_version == before.config.last_seen_version,
        after == before,
{
}

/// Quitting does not lose the recording that is being captured: it is ended
/// and handed to the media worker, behind those that waited already.
pub proof fn quitting_saves_the_recording_in_flight(
    quitting: Coordinator,
    stopped: Coordinator,
    ending: Coordinator,
    ended: Coordinator,
    after: Coordinator,
    draft: Option<RecordingDraft>,
    sweep: bool,
    artifacts: CaptureArtifacts,
    resolved: CaptureResolved,
    pending: Seq<MediaJob>,
    now_ms: i64,
    later_ms: i64,
)
    requires
        quitting.stopping,
        quitting.capture.active is Some,
        quitting.media.finalizations@.len() < MAX_MEDIA_QUEUE,
        quitting.stopped_now(now_ms).falls_due(now_ms, stopped, draft),
        draft matches Some(draft) ==> stopped.ends(draft, Ok(()), now_ms, ending, sweep),
        ending.wraps_up(Some(artifacts), later_ms, ended, resolved),
        ended.lets_go(after, pending),
    ensures
        draft == Some(quitting.capture.active->0.draft),
        resolved.start is None,
        pending == quitting.media.finalizations@.push(
            MediaJob::FinalizeRecording {
                draft: Box::new(quitting.capture.active->0.draft),
                artifacts,
                facts: quitting.facts(),
            },
        ),
{
}

// --- media jobs ---

/// A clip is only cut while no recording waits to be saved, and none is about
/// to.
pub proof fn recordings_are_saved_before_clips_are_cut(
    before: Coordinator,
    after: Coordinator,
    job: MediaJob,
)
    requires
        before.wf(),
        before.dispatches_media(after, Some(job)),
        job.work() == WorkKind::Clip,
    ensures
        before.media.finalizations@.len() == 0,
        !before.finalization_pending(),
{
}

/// At most one media job is in flight.
pub proof fn media_jobs_go_out_one_at_a_time(
    before: Coordinator,
    sent: Coordinator,
    after: Coordinator,
    kind: WorkKind,
    job: Option<MediaJob>,
    now_ms: i64,
)
    requires
        before.hands_over_media(kind, Handover::Sent, now_ms, sent),
        sent.dispatches_media(after, job),
    ensures
        job is None,
        after.media == sent.media,
{
}

/// A media job that the worker could not take is back where it was.
pub proof fn refused_media_jobs_keep_their_place(
    before: Coordinator,
    open: Coordinator,
    after: Coordinator,
    job: MediaJob,
    now_ms: i64,
)
    requires
        before.wf(),
        before.dispatches_media(open, Some(job)),
        open.hands_over_media(job.work(), Handover::Full(job), now_ms, after),
    ensures
        after.media.finalizations@ == before.media.finalizations@,
        after.media.user_jobs@ == before.media.user_jobs@,
        after.media.busy == before.media.busy,
        after.problems == before.problems,
{
    if before.media.finalizations@.len() > 0 {
        assert(seq![before.media.finalizations@[0]] + before.media.finalizations@.skip(1)
            =~= before.media.finalizations@);
    } else {
        assert(seq![before.media.user_jobs@[0]] + before.media.user_jobs@.skip(1)
            =~= before.media.user_jobs@);
    }
}

// --- uploads ---

/// At most one upload is worked on.
pub proof fn uploads_go_out_one_at_a_time(
    before: Coordinator,
    sent: Coordinator,
    after: Coordinator,
    view: UploadProgressView,
    job: Option<UploadJob>,
    now_ms: i64,
)
    requires
        before.hands_over_upload(view, Handover::Sent, now_ms, sent),
        sent.dispatches_upload(after, job),
    ensures
        job is None,
        after.uploads.queue@ == sent.uploads.queue@,
{
}

/// An upload that the upload thread could not take is back in front.
pub proof fn refused_uploads_keep_their_place(
    before: Coordinator,
    open: Coordinator,
    after: Coordinator,
    view: UploadProgressView,
    job: UploadJob,
    now_ms: i64,
)
    requires
        before.dispatches_upload(open, Some(job)),
        open.hands_over_upload(view, Handover::Full(job), now_ms, after),
    ensures
        after.uploads.queue@ == before.uploads.queue@,
        after.uploads.current == before.uploads.current,
        after.problems == before.problems,
{
    assert(seq![before.uploads.queue@[0]] + before.uploads.queue@.skip(1)
        =~= before.uploads.queue@);
}

/// Asking for the same upload again changes nothing while it waits.
pub proof fn uploads_are_queued_once(
    first: Coordinator,
    second: Coordinator,
    third: Coordinator,
    id: Seq<char>,
    action: UploadAction,
    requested: bool,
    again: bool,
    now_ms: i64,
    later_ms: i64,
)
    requires
        first.config.cloud.configured(),
        queues::find_entry(first.library.entries@, id) is Some,
        first.uploads.queue@.len() < MAX_UPLOAD_QUEUE,
        first.queues_upload(id, action, requested, now_ms, second),
        second.queues_upload(id, action, again, later_ms, third),
    ensures
        third == second,
        second.upload_known(id, action),
{
    queues::lemma_found_entry(first.library.entries@, id);
    if !first.upload_known(id, action) {
        let at = second.uploads.queue@.len() - 1;
        assert(coordinator::is_upload(second.uploads.queue@[at], id, action));
    }
}

/// Nothing is sent anywhere unless cloud upload is turned on: an upload is
/// only ever queued for an account that was set up, and the coordinator queues
/// none by itself unless it was told to.
pub proof fn nothing_is_uploaded_unless_turned_on(
    before: Coordinator,
    after: Coordinator,
    id: Seq<char>,
    action: UploadAction,
    requested: bool,
    kind: WorkKind,
    now_ms: i64,
)
    requires
        before.queues_upload(id, action, requested, now_ms, after),
    ensures
        !before.config.cloud.enabled ==> after.uploads.queue@ == before.uploads.queue@,
        before.uploads_by_itself(kind) ==> before.config.cloud.enabled
            && before.config.cloud.auto_upload,
{
}

/// An upload never delays saving a recording: whatever happens to uploads, the
/// capture in flight, the media jobs and the library stay as they are.
pub proof fn uploads_leave_saving_alone(
    before: Coordinator,
    after: Coordinator,
    id: Seq<char>,
    action: UploadAction,
    requested: bool,
    job: Option<UploadJob>,
    view: UploadProgressView,
    outcome: Handover<UploadJob>,
    event: UploadEvent,
    now_ms: i64,
)
    requires
        before.queues_upload(id, action, requested, now_ms, after) || before.dispatches_upload(
            after,
            job,
        ) || before.hands_over_upload(view, outcome, now_ms, after) || before.follows_upload(
            event,
            now_ms,
            after,
        ),
    ensures
        after.capture == before.capture,
        after.media == before.media,
        after.library == before.library,
        after.config == before.config,
{
}

} // verus!
