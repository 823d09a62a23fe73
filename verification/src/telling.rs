//! What the coordinator makes of what it is told, and what it tells the user
//! of it.
use std::sync::Arc;

use vstd::prelude::*;

use crate::activity::RecordingDraft;
use crate::capture::{RecorderReaction, StartCapture, TestStart};
use crate::capture;
use crate::cloud::{CloudClient, CloudCredentials, CloudError};
use crate::config::{AuthorizedPath, CloudSettings, Config, ConfigError, WritePlan};
use crate::configure::{ConfigChanges, InterfaceChange, PendingConfig};
use crate::coordinator::{AppSnapshot, Coordinator, EndingCapture};
use crate::coordinator;
use crate::domain::{
    Category, GameFlavor, GameFlavorView, LibraryEntry, Problem, ProblemView, RecorderStatus,
    RecordingId, RecoveryAction, WorkKind, WorkProgress,
};
use crate::domain;
use crate::index;
use crate::media_jobs::{ChildWatch, MediaEvent, MediaJob};
use crate::parser::ParsedEvent;
use crate::paths;
use crate::queues;
use crate::recorder::{RecorderError, RecorderEvent};
use crate::text;
use crate::transfer::SentBytes;
use crate::ui::library::Library;

verus! {

// --- problems ---

/// The newest problem has this summary, and offers this way out.
pub open spec fn newest(after: Coordinator, summary: Seq<char>, action: RecoveryAction) -> bool {
    &&& after.problems@.len() > 0
    &&& after.problems@.last().summary@ == summary
    &&& after.problems@.last().recovery_action == Some(action)
}

/// A complaint is the newest problem, with its detail and its time, and
/// nothing but the list of problems changes.
pub proof fn complaints_are_shown(
    before: Coordinator,
    after: Coordinator,
    summary: Seq<char>,
    detail: Option<Seq<char>>,
    action: RecoveryAction,
    now_ms: i64,
)
    requires
        before.complains(after, summary, detail, Some(action), now_ms),
    ensures
        newest(after, summary, action),
        domain::text_view(after.problems@.last().safe_detail) == detail,
        after.problems@.last().occurred_unix_ms == now_ms,
        after.dirty,
        after.config == before.config,
        after.capture == before.capture,
        after.media == before.media,
        after.uploads == before.uploads,
        after.library == before.library,
        after.armed == before.armed,
        before.problems@.len() < 8 ==> after.problems@.len() == before.problems@.len() + 1,
{
    lemma_newest(
        coordinator::problem_views(before.problems@),
        after.problems@,
        ProblemView {
            summary,
            safe_detail: detail,
            occurred_unix_ms: now_ms,
            recovery_action: Some(action),
        },
    );
}

proof fn lemma_newest(problems: Seq<ProblemView>, after: Seq<Problem>, problem: ProblemView)
    requires
        coordinator::problem_views(after) == coordinator::with_problem(problems, problem),
    ensures
        after.len() > 0,
        after.last()@ == problem,
        problems.len() < 8 ==> after.len() == problems.len() + 1,
{
    let views = coordinator::problem_views(after);
    assert(views.len() == after.len());
    assert(views.last() == problem);
    assert(views.last() == after.last()@);
}

// --- the recorder ---

/// A capture that ended by itself is given up: capture is off, the user is
/// told with the recorder's words, and the activity is dropped.
pub proof fn lost_captures_are_given_up(
    before: Coordinator,
    code: Option<i32>,
    now_ms: i64,
    after: Coordinator,
    reaction: RecorderReaction,
)
    requires
        before.reacts(RecorderEvent::ChildExited { code }, now_ms, after, reaction),
    ensures
        !after.armed,
        after.dirty,
        after.capture.active is None,
        newest(
            after,
            "Screen capture stopped unexpectedly."@,
            RecoveryAction::ReselectCaptureTarget,
        ),
        before.capture.active matches Some(active) ==> reaction == (
        RecorderReaction::DropActivity { flavor: active.draft.flavor })
            && after.capture.pending_test_end is None,
        before.capture.active is None ==> reaction is Nothing && after.capture == before.capture,
        after.capture.ending == before.capture.ending,
        after.capture.deferred == before.capture.deferred,
        code matches Some(number) ==> domain::text_view(after.problems@.last().safe_detail) == Some(
            "gpu-screen-recorder exited with code "@ + ("Some("@ + text::signed_decimal(
                number as int,
            ) + ")"@),
        ),
{
    lemma_lost(
        before,
        after,
        coordinator::CAPTURE_STOPPED_PROBLEM@,
        capture::exit_text(code),
        now_ms,
    );
}

proof fn lemma_lost(
    before: Coordinator,
    after: Coordinator,
    summary: Seq<char>,
    detail: Seq<char>,
    now_ms: i64,
)
    requires
        before.capture_lost(after, summary, detail, now_ms),
    ensures
        newest(after, summary, RecoveryAction::ReselectCaptureTarget),
        domain::text_view(after.problems@.last().safe_detail) == Some(detail),
        after.problems@.last().occurred_unix_ms == now_ms,
{
    lemma_newest(
        coordinator::problem_views(capture::without_summary(before.problems@, summary)),
        after.problems@,
        ProblemView {
            summary,
            safe_detail: Some(detail),
            occurred_unix_ms: now_ms,
            recovery_action: Some(RecoveryAction::ReselectCaptureTarget),
        },
    );
}

/// A capture that could not be restarted is off, and the user is told; what
/// is in flight stays as it is.
pub proof fn failed_restarts_are_told(
    before: Coordinator,
    message: String,
    now_ms: i64,
    after: Coordinator,
    reaction: RecorderReaction,
)
    requires
        before.reacts(RecorderEvent::RestartFailed { message }, now_ms, after, reaction),
    ensures
        reaction is Nothing,
        !after.armed,
        after.dirty,
        after.capture == before.capture,
        newest(
            after,
            "Screen capture could not be restarted."@,
            RecoveryAction::ReselectCaptureTarget,
        ),
        domain::text_view(after.problems@.last().safe_detail) == Some(message@),
{
    lemma_lost(before, after, coordinator::CAPTURE_RESTART_FAILED_PROBLEM@, message@, now_ms);
}

/// A capture that runs again is armed, and other events of the recorder
/// change nothing.
pub proof fn restarted_captures_are_armed(
    before: Coordinator,
    event: RecorderEvent,
    now_ms: i64,
    after: Coordinator,
    reaction: RecorderReaction,
)
    requires
        before.reacts(event, now_ms, after, reaction),
    ensures
        event is Restarted ==> after.armed && after.dirty && after.capture == before.capture
            && reaction is Nothing,
        event is RestartScheduled || event is Diagnostic ==> after == before && reaction is Nothing,
        event matches RecorderEvent::TargetTokenAvailable(token) ==> {
            &&& domain::text_view(after.config.capture.capture_target_token) == Some(token@)
            &&& reaction is SaveToken <==> domain::text_view(
                before.config.capture.capture_target_token,
            ) != Some(token@)
            &&& reaction is Nothing <==> after == before
        },
        event is CaptureEnded <==> reaction is CaptureEnded,
{
}

/// Of the problems of a lost capture only the newest is shown: those with its
/// summary go, and every other stays.
pub proof fn repeated_problems_are_shown_once(problems: Seq<Problem>, summary: Seq<char>)
    ensures
        forall|i: int|
            0 <= i < capture::without_summary(problems, summary).len() ==> (
            #[trigger] capture::without_summary(problems, summary)[i]).summary@ != summary,
        forall|i: int|
            0 <= i < problems.len() && (#[trigger] problems[i]).summary@ != summary
                ==> capture::without_summary(problems, summary).contains(problems[i]),
    decreases problems.len(),
{
    if problems.len() > 0 {
        let front = problems.drop_last();
        let before = capture::without_summary(front, summary);
        let all = capture::without_summary(problems, summary);
        repeated_problems_are_shown_once(front, summary);
        assert forall|i: int| 0 <= i < all.len() implies (#[trigger] all[i]).summary@ != summary by {
            if i < before.len() {
                assert(before[i].summary@ != summary);
            }
        }
        assert forall|i: int|
            0 <= i < problems.len() && (#[trigger] problems[i]).summary@
                != summary implies all.contains(problems[i]) by {
            if i < front.len() {
                assert(front[i] == problems[i]);
                let k = choose|k: int| 0 <= k < before.len() && before[k] == problems[i];
                assert(all[k] == problems[i]);
            } else {
                assert(all[all.len() - 1] == problems[i]);
            }
        }
    }
}

/// Capture is rearmed, disarmed or pointed elsewhere exactly while none is in
/// flight, and the user is told otherwise.
pub proof fn captures_in_flight_are_left_alone(
    before: Coordinator,
    now_ms: i64,
    after: Coordinator,
    proceed: bool,
)
    ensures
        before.rearms(now_ms, after, proceed) ==> (proceed <==> !before.in_flight()) && (proceed
            ==> after == before) && (!proceed ==> newest(
            after,
            "Screen capture cannot be rearmed while a recording is being captured or saved."@,
            RecoveryAction::Retry,
        )),
        before.disarms(now_ms, after, proceed) ==> (proceed <==> !before.in_flight()) && (proceed
            ==> !after.armed && after.problems == before.problems) && (!proceed ==> after.armed
            == before.armed && newest(
            after,
            "Screen capture cannot be disarmed while a recording is being captured or saved."@,
            RecoveryAction::Retry,
        )),
        before.retargets(now_ms, after, proceed) ==> (proceed <==> !before.in_flight()) && (proceed
            ==> after == before) && (!proceed ==> newest(
            after,
            "The capture target cannot change while a recording is being captured or saved."@,
            RecoveryAction::Retry,
        )),
{
    let retry = RecoveryAction::Retry;
    let rearm = "Screen capture cannot be rearmed while a recording is being captured or saved."@;
    let disarm =
        "Screen capture cannot be disarmed while a recording is being captured or saved."@;
    let target =
        "The capture target cannot change while a recording is being captured or saved."@;
    if before.complains(after, rearm, None, Some(retry), now_ms) {
        complaints_are_shown(before, after, rearm, None, retry, now_ms);
    }
    if before.complains(after, disarm, None, Some(retry), now_ms) {
        complaints_are_shown(before, after, disarm, None, retry, now_ms);
    }
    if before.complains(after, target, None, Some(retry), now_ms) {
        complaints_are_shown(before, after, target, None, retry, now_ms);
    }
}

/// Another capture target that was chosen is remembered, and saved where it is
/// new; without one capture goes on; a refusal is told, and capture is off
/// unless it runs all the same.
pub proof fn chosen_targets_are_remembered(
    before: Coordinator,
    outcome: Result<Option<String>, RecorderError>,
    running: bool,
    now_ms: i64,
    after: Coordinator,
    save: bool,
)
    requires
        before.takes_target(outcome, running, now_ms, after, save),
    ensures
        outcome matches Ok(Some(token)) ==> {
            &&& domain::text_view(after.config.capture.capture_target_token) == Some(token@)
            &&& save <==> domain::text_view(before.config.capture.capture_target_token) != Some(
                token@,
            )
            &&& after.armed
        },
        outcome matches Ok(None) ==> after.armed && !save && after.config == before.config,
        outcome is Err ==> !save && after.config == before.config && after.dirty && (after.armed
            <==> running),
        outcome matches Err(error) ==> after.problems@.len() > 0 && (error is SelectionDenied
            ==> newest(
            after,
            "Screen capture was not allowed."@,
            RecoveryAction::ReselectCaptureTarget,
        )) && (error is SpawnFailed ==> newest(
            after,
            "Screen capture could not start."@,
            RecoveryAction::OpenLogs,
        )),
{
    if let Err(error) = outcome {
        let kept = if running {
            coordinator::without_capture_problems(before.problems@)
        } else {
            before.problems@
        };
        lemma_newest(
            coordinator::problem_views(kept),
            after.problems@,
            capture::recorder_problem(error, now_ms),
        );
    }
}

/// A capture that the recorder refuses is given up, and the user is told why
/// and what to do about it.
pub proof fn refused_captures_are_told(
    before: Coordinator,
    start: StartCapture,
    error: RecorderError,
    now_ms: i64,
    after: Coordinator,
    dropped: Option<GameFlavor>,
)
    requires
        before.captures(start, Err(error), now_ms, after, dropped),
    ensures
        dropped == Some(start.draft.flavor),
        after.capture == before.capture,
        error is SelectionDenied ==> newest(
            after,
            "Screen capture was not allowed."@,
            RecoveryAction::ReselectCaptureTarget,
        ),
        error is SpawnFailed ==> newest(
            after,
            "Screen capture could not start."@,
            RecoveryAction::OpenLogs,
        ),
        error is MissingRegularArtifact ==> newest(
            after,
            "The recording produced no video file."@,
            RecoveryAction::OpenLogs,
        ),
        error is InvalidSettings ==> newest(
            after,
            "The capture settings are not usable."@,
            RecoveryAction::OpenSettings,
        ),
        error is Busy || error is NotArmed || error is WrongId ==> newest(
            after,
            "The recorder was not ready for that."@,
            RecoveryAction::Retry,
        ),
        error is Io ==> newest(after, "Screen capture failed."@, RecoveryAction::OpenLogs),
        error matches RecorderError::InvalidSettings(message) ==> domain::text_view(
            after.problems@.last().safe_detail,
        ) == Some(message@),
        error matches RecorderError::SelectionDenied { log_tail } ==> domain::text_view(
            after.problems@.last().safe_detail,
        ) == Some(log_tail@),
        error matches RecorderError::SpawnFailed { message, log_tail } ==> domain::text_view(
            after.problems@.last().safe_detail,
        ) == Some(message@ + "\n"@ + log_tail@),
{
    complaints_are_shown(
        before,
        after,
        capture::recorder_summary(error),
        capture::recorder_detail(error),
        capture::recorder_recovery(error),
        now_ms,
    );
}

/// A manual recording holds nothing but its own start, and one that cannot be
/// started is told of.
pub proof fn manual_recordings_start_empty(
    before: Coordinator,
    id: RecordingId,
    now_ms: i64,
    after: Coordinator,
    start: Option<StartCapture>,
)
    requires
        before.starts_manual(id, now_ms, after, start),
    ensures
        start matches Some(begun) ==> {
            &&& begun.request.id == id
            &&& begun.stop_at_ms is None
            &&& begun.draft.category == Category::Manual
            &&& begun.draft.flavor is Retail
            &&& begun.draft.started_at_ms == now_ms
            &&& begun.draft.overrun_ms == 0
            &&& begun.draft.details is Manual
            &&& begun.draft.player is None
            &&& begun.draft.combatants@.len() == 0
            &&& begun.draft.timeline@.len() == 0
            &&& begun.draft.outcome is None
            &&& begun.draft.ended_at_ms is None
            &&& begun.draft.duration_ms is None
            &&& begun.draft.activity_hash is None
            &&& begun.draft.meter.fights@.len() == 0
            &&& domain::text_view(begun.draft.title) == Some("Manual recording"@)
        },
        start is Some ==> after == before,
        start is None ==> newest(
            after,
            "A manual recording could not be started."@,
            RecoveryAction::Retry,
        ),
{
    if start is None {
        complaints_are_shown(
            before,
            after,
            "A manual recording could not be started."@,
            None,
            RecoveryAction::Retry,
            now_ms,
        );
    }
}

/// A test recording starts exactly where nothing is in flight, no test is
/// under way, capture is armed and the category has a test; it begins with the
/// activity of its category, now.
pub proof fn tests_start_when_free(
    before: Coordinator,
    category: Category,
    test_duration_ms: u64,
    now_ms: i64,
    after: Coordinator,
    start: Option<TestStart>,
)
    requires
        before.starts_test(category, test_duration_ms, now_ms, after, start),
    ensures
        start is Some ==> !before.in_flight() && before.capture.pending_test_end is None
            && before.armed && after == before,
        !before.in_flight() && before.capture.pending_test_end is None && before.armed && (category
            == Category::Raids || category == Category::MythicPlus || category
            == Category::TwoVTwo || category == Category::ThreeVThree || category
            == Category::SoloShuffle || category == Category::Battlegrounds) ==> start is Some,
        start matches Some(test) ==> {
            &&& test.events@.len() == 17
            &&& test.events@[0].occurred_at_ms == now_ms
            &&& test.end_event.occurred_at_ms == test.end_ms
            &&& category == Category::Raids ==> test.events@[0].event@ is EncounterStarted
                && test.end_event.event@ is EncounterEnded
            &&& category == Category::MythicPlus ==> test.events@[0].event@ is ChallengeStarted
                && test.end_event.event@ is ChallengeEnded
        },
        start is None ==> after.problems@.len() > 0 && after.problems@.last().recovery_action
            == Some(RecoveryAction::Retry),
{
    if let Some(test) = start {
        let views = crate::parser::event_views(test.events@);
        assert(views.len() == test.events@.len());
        assert(views[0] == test.events@[0]@);
    } else if before.in_flight() || before.capture.pending_test_end is Some || !before.armed {
        complaints_are_shown(
            before,
            after,
            "A test recording could not be started."@,
            None,
            RecoveryAction::Retry,
            now_ms,
        );
    } else {
        complaints_are_shown(
            before,
            after,
            "That category has no test recording."@,
            None,
            RecoveryAction::Retry,
            now_ms,
        );
    }
}

/// The end of a test waits until it is due and is then taken once.
pub proof fn tests_end_once(
    fed: Coordinator,
    end_ms: i64,
    end_event: ParsedEvent,
    waiting: Coordinator,
    now_ms: i64,
    after: Coordinator,
    event: Option<ParsedEvent>,
)
    requires
        fed.capture.active is Some,
        fed.awaits_test(end_ms, end_event, waiting),
        waiting.ends_test(now_ms, after, event),
    ensures
        now_ms < end_ms ==> event is None && after == waiting,
        now_ms >= end_ms ==> event == Some(end_event) && after.capture.pending_test_end is None,
        after.capture.active == fed.capture.active,
{
}

/// A test whose recording never started is not waited for.
pub proof fn tests_that_did_not_start_are_forgotten(
    fed: Coordinator,
    end_ms: i64,
    end_event: ParsedEvent,
    waiting: Coordinator,
)
    requires
        fed.capture.active is None,
        fed.awaits_test(end_ms, end_event, waiting),
    ensures
        waiting == fed,
{
}

/// The newest event of each flavour is remembered on its own.
pub proof fn newest_events_are_remembered(
    before: Coordinator,
    flavor: GameFlavorView,
    other: GameFlavorView,
    wall_ms: i64,
    log_ms: i64,
    after: Coordinator,
)
    requires
        before.notes(flavor, wall_ms, log_ms, after),
        other != flavor,
    ensures
        capture::last_seen(after.capture.seen@, flavor) == Some((wall_ms, log_ms)),
        capture::last_seen(after.capture.seen@, other) == capture::last_seen(
            before.capture.seen@,
            other,
        ),
        after.capture.active == before.capture.active,
        after.dirty == before.dirty,
{
}

// --- settings ---

/// Settings that cannot be used are told of with their problems, and settings
/// wait for a recording that is in flight.
pub proof fn unusable_settings_are_told(
    before: Coordinator,
    draft: Config,
    now_ms: i64,
    after: Coordinator,
    pending: Option<PendingConfig>,
)
    requires
        before.saves_config(draft, now_ms, after, pending),
    ensures
        !before.settled() ==> pending is None && newest(
            after,
            "Settings cannot change while a recording is being captured or saved."@,
            RecoveryAction::Retry,
        ) && after.setup_problems == before.setup_problems,
        before.settled() && pending is None ==> newest(
            after,
            "Those settings are not usable yet."@,
            RecoveryAction::OpenSettings,
        ) && after.setup_problems@.len() > 0,
        pending is Some ==> after == before,
        after.config == before.config,
{
    if !before.settled() {
        complaints_are_shown(
            before,
            after,
            "Settings cannot change while a recording is being captured or saved."@,
            None,
            RecoveryAction::Retry,
            now_ms,
        );
    } else if pending is None {
        complaints_are_shown(
            Coordinator { setup_problems: after.setup_problems, ..before },
            after,
            "Those settings are not usable yet."@,
            None,
            RecoveryAction::OpenSettings,
            now_ms,
        );
        assert(crate::config::problem_texts(after.setup_problems@).len()
            == after.setup_problems@.len());
    }
}

/// Settings that reached the disk are in force without problems; a failed
/// write is told, and changes nothing where the file was not replaced.
pub proof fn written_settings_are_in_force(
    before: Coordinator,
    pending: PendingConfig,
    outcome: Result<(), ConfigError>,
    now_ms: i64,
    after: Coordinator,
    changes: Option<ConfigChanges>,
)
    requires
        before.takes_over(pending, outcome, now_ms, after, changes),
    ensures
        outcome is Ok ==> after.config == pending.draft && after.setup_problems@.len() == 0
            && changes == Some(pending.changes) && after.problems == before.problems,
        outcome matches Err(error) ==> {
            &&& newest(after, "Settings could not be saved."@, RecoveryAction::Retry)
            &&& error.committed() ==> after.config == pending.draft && changes == Some(
                pending.changes,
            )
            &&& !error.committed() ==> after.config == before.config && changes is None
        },
{
    if let Err(error) = outcome {
        complaints_are_shown(
            Coordinator { problems: before.problems, dirty: before.dirty, ..after },
            after,
            "Settings could not be saved."@,
            Some(error.words()),
            RecoveryAction::Retry,
            now_ms,
        );
    }
}

/// A preference that changes is in force at once and can be taken back; one
/// that does not leaves the settings alone.
pub proof fn preferences_are_in_force_at_once(
    before: Coordinator,
    change: InterfaceChange,
    after: Coordinator,
    previous: Option<Config>,
)
    requires
        before.changes_interface(change, after, previous),
    ensures
        previous is None ==> after.config == before.config,
        previous matches Some(kept) ==> kept == before.config,
        previous is Some ==> (change matches InterfaceChange::SelectedCategory(category) ==>
            after.config.interface.selected_category == category),
        previous is Some && change is ReleaseNotesSeen ==> after.config.last_seen_version@
            == crate::VERSION@,
        after.dirty,
        after.capture == before.capture,
        after.armed == before.armed,
{
}

/// Preferences that could not be saved are taken back, unless the new file is
/// in place already, and the user is told.
pub proof fn unsaved_preferences_are_taken_back(
    before: Coordinator,
    previous: Config,
    outcome: Result<(), ConfigError>,
    now_ms: i64,
    after: Coordinator,
)
    requires
        before.keeps_interface(previous, outcome, now_ms, after),
    ensures
        outcome is Ok ==> after == before,
        outcome matches Err(error) ==> {
            &&& error.committed() ==> after.config == before.config
            &&& !error.committed() ==> after.config == previous
            &&& newest(after, "Settings could not be saved."@, RecoveryAction::Retry)
            &&& domain::text_view(after.problems@.last().safe_detail) == Some(error.words())
        },
{
    if let Err(error) = outcome {
        complaints_are_shown(
            Coordinator {
                config: if error.committed() {
                    before.config
                } else {
                    previous
                },
                ..before
            },
            after,
            "Settings could not be saved."@,
            Some(error.words()),
            RecoveryAction::Retry,
            now_ms,
        );
    }
}

/// Capture that is off after its settings changed is told of, and nothing
/// else is.
pub proof fn captures_that_stay_off_are_told(
    before: Coordinator,
    changes: ConfigChanges,
    now_ms: i64,
    after: Coordinator,
)
    requires
        before.settles_changes(changes, now_ms, after),
    ensures
        before.armed || !(changes.capture || changes.storage) ==> after == before,
        !before.armed && (changes.capture || changes.storage) ==> newest(
            after,
            "Screen capture did not restart with the new settings."@,
            RecoveryAction::Retry,
        ),
{
    if (changes.capture || changes.storage) && !before.armed {
        complaints_are_shown(
            before,
            after,
            "Screen capture did not restart with the new settings."@,
            None,
            RecoveryAction::Retry,
            now_ms,
        );
    }
}

/// What is known of a log folder is kept, and one that cannot be watched is
/// told of by name.
pub proof fn log_folders_are_noted(
    before: Coordinator,
    field: &'static str,
    advanced: Option<bool>,
    outcome: Result<(), String>,
    now_ms: i64,
    after: Coordinator,
)
    requires
        before.opens_log(field, advanced, outcome, now_ms, after),
    ensures
        after.advanced_logging@.len() == before.advanced_logging@.len() + 1,
        after.advanced_logging@.last() == (field, advanced),
        outcome is Ok ==> after.problems == before.problems,
        outcome matches Err(error) ==> newest(
            after,
            "The "@ + field@ + " log folder could not be watched."@,
            RecoveryAction::OpenSettings,
        ) && domain::text_view(after.problems@.last().safe_detail) == Some(error@),
{
    if let Err(error) = outcome {
        complaints_are_shown(
            Coordinator { advanced_logging: after.advanced_logging, ..before },
            after,
            "The "@ + field@ + " log folder could not be watched."@,
            Some(error@),
            RecoveryAction::OpenSettings,
            now_ms,
        );
    }
}

/// Files that could not be moved out of the way are told of; without any the
/// user is told nothing.
pub proof fn files_left_behind_are_told(
    before: Coordinator,
    failures: Seq<String>,
    now_ms: i64,
    after: Coordinator,
)
    requires
        before.sweeps(failures, now_ms, after),
    ensures
        failures.len() == 0 ==> after == before,
        failures.len() > 0 ==> newest(
            after,
            "Some interrupted recordings could not be moved to Recovery."@,
            RecoveryAction::OpenLogs,
        ),
        failures.len() == 1 ==> domain::text_view(after.problems@.last().safe_detail) == Some(
            failures[0]@,
        ),
        failures.len() == 2 ==> domain::text_view(after.problems@.last().safe_detail) == Some(
            failures[0]@ + "; "@ + failures[1]@,
        ),
{
    if failures.len() > 0 {
        complaints_are_shown(
            before,
            after,
            "Some interrupted recordings could not be moved to Recovery."@,
            Some(crate::lifecycle::semicolons(failures)),
            RecoveryAction::OpenLogs,
            now_ms,
        );
    }
    if failures.len() == 2 {
        reveal_with_fuel(crate::lifecycle::semicolons, 3);
        assert(failures.drop_last()[0] == failures[0]);
    }
}

/// Settings agree exactly where each of them says the same: paths by where
/// they lead, everything else by its value.
pub proof fn agreeing_settings_say_the_same(a: Config, b: Config)
    ensures
        a.agrees(b) <==> {
            &&& a.version == b.version
            &&& a.activities == b.activities
            &&& a.manual == b.manual
            &&& a.capture@ == b.capture@
            &&& a.validate_log_paths == b.validate_log_paths
            &&& a.last_seen_version@ == b.last_seen_version@
            &&& a.interface.layout@ == b.interface.layout@
            &&& a.interface.same(b.interface)
            &&& a.storage.limit == b.storage.limit
            &&& a.storage.separate_buffer_dir == b.storage.separate_buffer_dir
            &&& leads_alike(a.storage.recording_dir, b.storage.recording_dir)
            &&& leads_alike(a.storage.buffer_dir, b.storage.buffer_dir)
            &&& a.flavors.retail.enabled == b.flavors.retail.enabled
            &&& a.flavors.retail_ptr.enabled == b.flavors.retail_ptr.enabled
            &&& a.flavors.classic.enabled == b.flavors.classic.enabled
            &&& a.flavors.classic_ptr.enabled == b.flavors.classic_ptr.enabled
            &&& a.flavors.era.enabled == b.flavors.era.enabled
            &&& leads_alike(a.flavors.retail.log_dir, b.flavors.retail.log_dir)
            &&& leads_alike(a.flavors.retail_ptr.log_dir, b.flavors.retail_ptr.log_dir)
            &&& leads_alike(a.flavors.classic.log_dir, b.flavors.classic.log_dir)
            &&& leads_alike(a.flavors.classic_ptr.log_dir, b.flavors.classic_ptr.log_dir)
            &&& leads_alike(a.flavors.era.log_dir, b.flavors.era.log_dir)
            &&& a.cloud.enabled == b.cloud.enabled
            &&& a.cloud.account@ == b.cloud.account@
            &&& a.cloud.password@ == b.cloud.password@
            &&& a.cloud.guild@ == b.cloud.guild@
            &&& a.cloud.auto_upload == b.cloud.auto_upload
        },
        a.agrees(a),
        a.same(b) ==> a.agrees(b),
{
}

/// Two paths lead to the same place, with the same permission.
pub open spec fn leads_alike(a: AuthorizedPath, b: AuthorizedPath) -> bool {
    paths::same_path(a.path@, b.path@) && a.authorization == b.authorization
}

/// The account signs in exactly while it is complete, with its own name and
/// guild without white space round them and its password as it is.
pub proof fn accounts_sign_in_as_entered(
    account: CloudSettings,
    credentials: Option<CloudCredentials>,
)
    requires
        account.signs_in_with(credentials),
    ensures
        credentials is Some <==> account.configured(),
        credentials matches Some(c) ==> c.password@ == account.password@ && c.user@ == text::trim(
            account.account@,
        ) && c.guild@ == text::trim(account.guild@),
{
}

/// The new configuration is written beside the old one, under another name.
pub proof fn configurations_are_written_beside_the_old(
    plan: WritePlan,
    name: Seq<char>,
    temporary: Result<String, ConfigError>,
)
    requires
        plan.path@ == text::joined(plan.directory@, name),
        name.len() > 0,
        !name.contains('/'),
        name != seq!['.'],
        name != seq!['.', '.'],
        plan.writes_first(temporary),
    ensures
        temporary matches Ok(t) && t@ == text::joined(plan.directory@, name + ".tmp"@) && t@
            != plan.path@,
{
    crate::spelling::files_lie_in_their_directory(plan.directory@, name);
    reveal_strlit(".tmp");
    if let Ok(t) = temporary {
        assert(t@.len() == plan.path@.len() + 4);
    }
}

// --- the library ---

/// A recording that is asked for is the one with that identity, and one that
/// is gone is told of.
pub proof fn selected_recordings_are_found(
    before: Coordinator,
    id: Seq<char>,
    now_ms: i64,
    after: Coordinator,
    entry: Option<Arc<LibraryEntry>>,
)
    requires
        before.selects_one(id, now_ms, after, entry),
    ensures
        entry is Some ==> after == before,
        entry == queues::find_entry(before.library.entries@, id),
        entry is None ==> newest(
            after,
            "A selected recording is no longer in the library."@,
            RecoveryAction::Retry,
        ) && domain::text_view(after.problems@.last().safe_detail) == Some(id),
{
    if entry is None {
        complaints_are_shown(
            before,
            after,
            "A selected recording is no longer in the library."@,
            Some(id),
            RecoveryAction::Retry,
            now_ms,
        );
    }
}

/// Of several recordings that are asked for each that is there comes back, in
/// order; the user is told exactly if some are gone.
pub proof fn all_selected_recordings_are_found(
    entries: Seq<Arc<LibraryEntry>>,
    ids: Seq<RecordingId>,
    problems: Seq<ProblemView>,
    now_ms: i64,
)
    ensures
        index::found_entries(entries, ids).len() <= ids.len(),
        (forall|i: int|
            0 <= i < ids.len() ==> queues::find_entry(entries, (#[trigger] ids[i])@) is Some) ==> {
            &&& index::found_entries(entries, ids).len() == ids.len()
            &&& index::with_gone(problems, entries, ids, now_ms) == problems
            &&& forall|i: int|
                0 <= i < ids.len() ==> Some(#[trigger] index::found_entries(entries, ids)[i])
                    == queues::find_entry(entries, ids[i]@)
        },
        ids.len() > 0 && queues::find_entry(entries, ids.last()@) is None ==> index::with_gone(
            problems,
            entries,
            ids,
            now_ms,
        ).last().summary == "A selected recording is no longer in the library."@
            && index::with_gone(problems, entries, ids, now_ms).last().safe_detail == Some(
            ids.last()@,
        ),
    decreases ids.len(),
{
    if ids.len() > 0 {
        let front = ids.drop_last();
        all_selected_recordings_are_found(entries, front, problems, now_ms);
        if forall|i: int|
            0 <= i < ids.len() ==> queues::find_entry(entries, (#[trigger] ids[i])@) is Some {
            assert forall|i: int| 0 <= i < front.len() implies queues::find_entry(
                entries,
                (#[trigger] front[i])@,
            ) is Some by {
                assert(front[i] == ids[i]);
            }
            assert(queues::find_entry(entries, ids[ids.len() - 1]@) is Some);
            let before = index::found_entries(entries, front);
            let all = index::found_entries(entries, ids);
            assert forall|i: int| 0 <= i < ids.len() implies Some(#[trigger] all[i])
                == queues::find_entry(entries, ids[i]@) by {
                if i < front.len() {
                    assert(front[i] == ids[i]);
                    assert(all[i] == before[i]);
                }
            }
        }
    }
}

/// A snapshot goes out whenever something changed; one that could not be sent
/// is sent again.
pub proof fn changes_reach_the_shell(shown: Coordinator, unsent: bool)
    ensures
        shown.dirty ==> shown.sends(unsent) is SendNew,
        !shown.dirty && unsent ==> shown.sends(unsent) is SendUnsent,
        !shown.dirty && !unsent ==> shown.sends(unsent) is Nothing,
{
}

/// The shell is shown every part of the state: what is recorded, the settings
/// in force, the library with its counts, and what the cloud is doing.
pub proof fn the_shell_sees_all_of_it(shown: Coordinator, snapshot: AppSnapshot)
    requires
        shown.shown_by(snapshot),
    ensures
        snapshot.correlations == shown.library.correlations,
        snapshot.config.agrees(shown.config),
        snapshot.config.capture.capture_target_token == shown.config.capture.capture_target_token,
        snapshot.advanced_logging@ == shown.advanced_logging@,
        snapshot.protected_over_limit == shown.library.protected_over_limit,
        snapshot.cloud.configured == shown.config.cloud.configured(),
        shown.uploads.queue@.len() <= usize::MAX ==> snapshot.cloud.queued
            == shown.uploads.queue@.len(),
        shown.is_status(snapshot.status),
        forall|i: int|
            0 <= i < snapshot.category_counts@.len() ==> (
            #[trigger] snapshot.category_counts@[i]).1 == index::count_of(
                shown.library.entries@,
                snapshot.category_counts@[i].0,
            ),
        snapshot.active matches Some(view) ==> (shown.capture.active matches Some(active)
            && view.category == active.draft.category && view.mode == active.mode && (
        active.draft.title matches Some(title) ==> view.title@ == title@)),
{
    agreeing_settings_say_the_same(snapshot.config, shown.config);
}

/// What is captured or saved is shown under its own title.
pub proof fn recordings_are_shown_by_title(shown: Coordinator, status: RecorderStatus)
    requires
        shown.is_status(status),
        shown.setup_problems@.len() == 0,
    ensures
        shown.capture.active matches Some(active) ==> (active.draft.title matches Some(given) ==> {
            &&& status matches RecorderStatus::Recording { title, .. } ==> title@ == given@
            &&& status matches RecorderStatus::Overrunning { title, .. } ==> title@ == given@
        }),
        shown.capture.active is None ==> (status matches RecorderStatus::Finalizing { title } ==> {
            &&& shown.capture.ending matches Some(ending) ==> (ending is Discard ==> title@
                == "Discarding recording"@) && (ending is Finalize ==> title@
                == "Saving recording"@)
            &&& shown.capture.ending is None ==> title@ == "Saving recording"@
        }),
        status is Finalizing <==> shown.capture.active is None && (shown.capture.ending is Some
            || shown.media.busy == Some(WorkKind::Finalize)),
{
}

// --- media and cloud ---

/// A failed job is told of in the words of its kind, with its message.
pub proof fn failed_jobs_are_told(
    before: Coordinator,
    kind: WorkKind,
    message: String,
    now_ms: i64,
    after: Coordinator,
    reaction: queues::MediaReaction,
)
    requires
        before.follows_media(MediaEvent::Failed { kind, message }, now_ms, after, reaction),
    ensures
        reaction is Nothing,
        kind == WorkKind::Finalize ==> newest(
            after,
            "A recording could not be saved."@,
            RecoveryAction::OpenLogs,
        ),
        kind == WorkKind::Clip ==> newest(
            after,
            "The clip could not be created."@,
            RecoveryAction::OpenLogs,
        ),
        domain::text_view(after.problems@.last().safe_detail) == Some(message@),
{
    complaints_are_shown(
        before.free(),
        after,
        match kind {
            WorkKind::Finalize => "A recording could not be saved."@,
            WorkKind::Clip => "The clip could not be created."@,
        },
        Some(message@),
        RecoveryAction::OpenLogs,
        now_ms,
    );
}

/// The work of a child is reported as it is, at once and then at most every
/// quarter of a second.
pub proof fn work_is_reported_as_it_is(
    watch: ChildWatch,
    latest: Option<u64>,
    now_ms: u64,
    after: ChildWatch,
    report: Option<WorkProgress>,
)
    requires
        watch.takes_in(latest, now_ms, after, report),
    ensures
        report matches Some(progress) ==> Some(progress.completed) == latest && progress.total
            == watch.total_ms && progress.kind == watch.kind && after.last_emit_ms == Some(now_ms),
        latest is Some && watch.last_emit_ms is None ==> report is Some,
        latest is Some ==> (watch.last_emit_ms matches Some(last) ==> (report is Some <==> now_ms
            - last >= 250)),
        latest is None ==> report is None && after == watch,
        latest matches Some(ms) ==> after.out_time_ms == ms,
        after.interrupt_at_ms == watch.interrupt_at_ms,
{
}

/// Quitting hands every recording that waits over, in order, and drops what
/// the user can ask for again.
pub proof fn waiting_recordings_are_handed_over(
    before: Coordinator,
    after: Coordinator,
    pending: Seq<MediaJob>,
)
    requires
        before.lets_go(after, pending),
    ensures
        pending == before.media.finalizations@,
        after.media.finalizations@.len() == 0,
        after.media.user_jobs@.len() == 0,
        after.uploads.queue@.len() == 0,
        !after.uploads.open,
        !after.armed,
        after.config == before.config,
        after.library == before.library,
        after.capture == before.capture,
{
}

/// Progress of a send is reported every mebibyte and at the end, with all that
/// was sent.
pub proof fn sent_bytes_are_reported(
    before: SentBytes,
    read: u64,
    after: SentBytes,
    report: Option<u64>,
)
    requires
        before.advances(read, after, report),
    ensures
        after.sent == before.sent + read,
        read == 0 ==> report == Some(after.sent),
        after.sent - before.reported >= 1_048_576 ==> report == Some(after.sent),
        report is None ==> after.reported == before.reported && read > 0,
        report is Some ==> after.reported == after.sent,
{
}

/// A client signs in as its account and calls the addresses it was given,
/// without the slashes at their end.
pub proof fn clients_serve_their_account(
    client: CloudClient,
    credentials: CloudCredentials,
    api: Seq<char>,
    website: Seq<char>,
)
    requires
        client.serves(credentials, api, website),
    ensures
        client.guild == credentials.guild,
        client.auth@ == crate::encoding::basic_auth_text(credentials.user@, credentials.password@),
        api.len() > 0 && api.last() != '/' ==> client.api@ == api,
        website.len() > 0 && website.last() != '/' ==> client.website@ == website,
        client.api@ == text::trim_end_char(api, '/'),
        client.website@ == text::trim_end_char(website, '/'),
        client.part_bytes == 104_857_600,
{
}

/// The user is told what went wrong with the cloud, in words of its own for
/// each kind of failure, with the guild or the answer.
pub proof fn cloud_failures_are_told(error: CloudError, guild: Seq<char>)
    ensures
        error is Unauthorized ==> error.words(guild)
            == "the cloud account name or password was rejected"@,
        error is NotAffiliated ==> error.words(guild)
            == "the cloud account is not a member of guild "@ + guild,
        error is NoWritePermission ==> error.words(guild)
            == "the cloud account may not upload to guild "@ + guild,
        error is Migrated ==> error.words(guild) == "guild "@ + guild
            + " has been migrated and no longer accepts uploads from this API"@,
        error matches CloudError::Http { status, body } ==> {
            &&& body@.len() == 0 ==> error.words(guild) == "the cloud API answered HTTP "@
                + text::decimal(status as nat)
            &&& body@.len() > 0 ==> error.words(guild) == "the cloud API answered HTTP "@
                + text::decimal(status as nat) + ": "@ + body@
        },
        error matches CloudError::Transport(said) ==> error.words(guild) == "network error: "@
            + said@,
        error matches CloudError::Io(said) ==> error.words(guild)
            == "could not read the recording: "@ + said@,
        error matches CloudError::InvalidResponse(said) ==> error.words(guild)
            == "unexpected cloud API response: "@ + said@,
        error matches CloudError::NotAffiliated(name) ==> error.guild() == name@,
        error matches CloudError::NoWritePermission(name) ==> error.guild() == name@,
        error matches CloudError::Migrated(name) ==> error.guild() == name@,
{
}

/// A chip that is chosen is there, once, behind the others.
pub proof fn chosen_chips_are_kept(before: Library, label: Seq<char>, after: Library, added: bool)
    requires
        before.chooses(label, after, added),
    ensures
        text::texts(after.chips@).contains(label),
        added <==> !text::texts(before.chips@).contains(label),
        added ==> text::texts(after.chips@).last() == label && text::texts(after.chips@).len()
            == text::texts(before.chips@).len() + 1,
        forall|other: Seq<char>|
            text::texts(before.chips@).contains(other) ==> #[trigger] text::texts(
                after.chips@,
            ).contains(other),
        after.date_range == before.date_range,
{
    let chips = text::texts(before.chips@);
    let all = text::texts(after.chips@);
    if added {
        assert(all[chips.len() as int] == label);
        assert forall|other: Seq<char>| chips.contains(other) implies #[trigger] all.contains(
            other,
        ) by {
            let k = choose|k: int| 0 <= k < chips.len() && chips[k] == other;
            assert(all[k] == other);
        }
    }
}

/// The dates of a recording can all be written if it neither starts nor ends
/// at the far ends of time.
pub proof fn ordinary_dates_can_be_written(entry: LibraryEntry)
    requires
        0 <= entry.start_unix_ms <= 4_102_444_800_000,
        forall|i: int|
            0 <= i < entry.timeline@.len() ==> (#[trigger] entry.timeline@[i]).start_ms
                <= 1_000_000_000_000 && entry.timeline@[i].finish() <= 1_000_000_000_000,
    ensures
        crate::cloud::dates_fit(entry),
{
}

/// The next upload goes out when none is under way and the thread is there;
/// without the thread none does.
pub proof fn the_next_upload_goes_out(
    before: Coordinator,
    after: Coordinator,
    job: Option<crate::upload::UploadJob>,
)
    requires
        before.dispatches_upload(after, job),
    ensures
        before.uploads.open && before.uploads.current is None && before.uploads.queue@.len() > 0
            ==> job == Some(before.uploads.queue@[0]) && after.uploads.queue@.len()
            == before.uploads.queue@.len() - 1,
        !before.uploads.open ==> job is None,
        before.uploads.current is Some ==> job is None && after.uploads.queue@
            == before.uploads.queue@,
        after.uploads.current == before.uploads.current,
        after.media == before.media,
{
}

/// Capture that runs again is armed, and the user sees it where a problem is
/// gone with that.
pub proof fn running_captures_are_shown(before: Coordinator, after: Coordinator)
    requires
        before.runs_again(after),
    ensures
        after.armed,
        before.dirty ==> after.dirty,
        after.problems@.len() != before.problems@.len() ==> after.dirty,
        after.problems@.len() == before.problems@.len() ==> after.dirty == before.dirty,
        after.config == before.config,
        after.capture == before.capture,
{
}

/// A preference that changes is to be saved, with the settings to return to;
/// one that does not needs no saving.
pub proof fn changed_preferences_are_saved(
    before: Coordinator,
    change: InterfaceChange,
    after: Coordinator,
    effect: crate::commands::CommandEffect,
)
    requires
        before.takes_up(change, after, effect),
    ensures
        change.matters(before.config) ==> effect == crate::commands::CommandEffect::SaveInterface(
            before.config,
        ),
        !change.matters(before.config) ==> effect is Nothing && after.config == before.config,
        change matches InterfaceChange::SelectedCategory(category) ==> (change.matters(
            before.config,
        ) ==> after.config.interface.selected_category == category),
        change matches InterfaceChange::SelectedCategory(category) ==> (
        before.config.interface.selected_category != category ==> change.matters(before.config)),
        change matches InterfaceChange::Markers { deaths, encounters, rounds } ==> (change.matters(
            before.config,
        ) ==> after.config.interface.death_markers == deaths
            && after.config.interface.encounter_markers == encounters
            && after.config.interface.round_markers == rounds),
        after.config.capture == before.config.capture,
        after.config.storage == before.config.storage,
        after.config.flavors == before.config.flavors,
        after.config.activities == before.config.activities,
        after.config.cloud == before.config.cloud,
        after.capture == before.capture,
        after.media == before.media,
        after.uploads == before.uploads,
        after.library == before.library,
        after.armed == before.armed,
{
}

/// A date can be written exactly where the moment's time is one that a
/// timestamp holds: that of every death, and for a dungeon that of every
/// segment's start and end.
pub proof fn dates_are_written_where_they_fit(entry: LibraryEntry, i: int)
    requires
        0 <= i < entry.timeline@.len(),
        crate::cloud::dates_fit(entry),
    ensures
        entry.timeline@[i].kind == domain::TimelineKind::Death && entry.timeline@[i].start_ms
            <= i64::MAX ==> entry.start_unix_ms + entry.timeline@[i].start_ms <= i64::MAX,
        entry.details is Dungeon && (entry.timeline@[i].kind == domain::TimelineKind::Encounter
            || entry.timeline@[i].kind == domain::TimelineKind::Trash) ==> (
        entry.timeline@[i].end_ms matches Some(end_ms) ==> (end_ms <= i64::MAX ==>
            entry.start_unix_ms + end_ms <= i64::MAX)),
{
}

/// A recording that is ended is kept until it is saved; where the recorder
/// refuses to end it, the user is told and what was written is swept.
pub proof fn ended_captures_are_kept(
    before: Coordinator,
    draft: RecordingDraft,
    outcome: Result<(), RecorderError>,
    now_ms: i64,
    after: Coordinator,
    sweep: bool,
)
    requires
        before.ends(draft, outcome, now_ms, after, sweep),
    ensures
        sweep <==> outcome is Err,
        outcome is Ok ==> (after.capture.ending matches Some(ending) && ending
            == EndingCapture::Finalize(Box::new(draft))) && after.problems == before.problems,
        outcome is Err ==> after.capture == before.capture && after.problems@.len() > 0
            && after.dirty,
        outcome matches Err(error) ==> (error is Io ==> newest(
            after,
            "Screen capture failed."@,
            RecoveryAction::OpenLogs,
        )),
{
    if let Err(error) = outcome {
        complaints_are_shown(
            before,
            after,
            capture::recorder_summary(error),
            capture::recorder_detail(error),
            capture::recorder_recovery(error),
            now_ms,
        );
    }
}

/// Several recordings are queued for upload one by one, as each would be: one
/// alone just as if it had been asked for by itself.
pub proof fn several_uploads_are_queued_one_by_one(
    before: Coordinator,
    ids: Seq<RecordingId>,
    now_ms: i64,
    after: Coordinator,
)
    requires
        before.queues_uploads(ids, now_ms, after),
    ensures
        ids.len() == 0 ==> after == before,
        ids.len() == 1 ==> before.queues_upload(
            ids[0]@,
            crate::upload::UploadAction::Upload,
            true,
            now_ms,
            after,
        ),
        ids.len() > 0 ==> exists|mid: Coordinator| #[trigger]
            before.queues_uploads(ids.drop_last(), now_ms, mid) && mid.queues_upload(
                ids.last()@,
                crate::upload::UploadAction::Upload,
                true,
                now_ms,
                after,
            ),
{
    let steps = choose|steps: Seq<Coordinator>|
        {
            &&& steps.len() == ids.len() + 1
            &&& steps[0] == before
            &&& steps.last() == after
            &&& forall|i: int|
                0 <= i < ids.len() ==> (#[trigger] steps[i]).queues_upload(
                    ids[i]@,
                    crate::upload::UploadAction::Upload,
                    true,
                    now_ms,
                    steps[i + 1],
                )
        };
    if ids.len() > 0 {
        let last = ids.len() - 1;
        let mid = steps[last];
        let front = steps.drop_last();
        assert(mid.queues_upload(
            ids[last]@,
            crate::upload::UploadAction::Upload,
            true,
            now_ms,
            steps[last + 1],
        ));
        assert(front.len() == ids.drop_last().len() + 1);
        assert(front[0] == before);
        assert(front.last() == mid);
        assert forall|i: int| 0 <= i < ids.drop_last().len() implies (
        #[trigger] front[i]).queues_upload(
            ids.drop_last()[i]@,
            crate::upload::UploadAction::Upload,
            true,
            now_ms,
            front[i + 1],
        ) by {
            assert(front[i] == steps[i] && front[i + 1] == steps[i + 1]);
            assert(steps[i].queues_upload(
                ids[i]@,
                crate::upload::UploadAction::Upload,
                true,
                now_ms,
                steps[i + 1],
            ));
        }
        assert(before.queues_uploads(ids.drop_last(), now_ms, mid));
    }
}

/// When a flavour was seen last is what was noted of it: its own entry, and
/// none where there is no entry of it.
pub proof fn flavours_are_seen_on_their_own(
    seen: Seq<crate::coordinator::SeenEvent>,
    flavor: GameFlavorView,
)
    ensures
        capture::last_seen(seen, flavor) is None <==> forall|i: int|
            0 <= i < seen.len() ==> (#[trigger] seen[i]).flavor@ != flavor,
        seen.len() > 0 && seen[0].flavor@ == flavor ==> capture::last_seen(seen, flavor) == Some(
            (seen[0].wall_ms, seen[0].log_ms),
        ),
        seen.len() > 0 && seen[0].flavor@ != flavor ==> capture::last_seen(seen, flavor)
            == capture::last_seen(seen.skip(1), flavor),
    decreases seen.len(),
{
    if seen.len() > 0 && seen[0].flavor@ != flavor {
        let rest = seen.skip(1);
        flavours_are_seen_on_their_own(rest, flavor);
        if forall|i: int| 0 <= i < rest.len() ==> (#[trigger] rest[i]).flavor@ != flavor {
            assert forall|i: int| 0 <= i < seen.len() implies (#[trigger] seen[i]).flavor@
                != flavor by {
                if i > 0 {
                    assert(rest[i - 1] == seen[i]);
                }
            }
        }
        if forall|i: int| 0 <= i < seen.len() ==> (#[trigger] seen[i]).flavor@ != flavor {
            assert forall|i: int| 0 <= i < rest.len() implies (#[trigger] rest[i]).flavor@
                != flavor by {
                assert(rest[i] == seen[i + 1]);
            }
        }
    }
}

/// A forced end of an activity is one of its own flavour, now; without a
/// recording there is nothing to end.
pub proof fn forced_activities_end_now(
    before: Coordinator,
    now_ms: i64,
    after: Coordinator,
    end: Option<capture::ForceEnd>,
)
    requires
        before.ends_by_force(now_ms, after, end),
    ensures
        before.capture.active is None ==> end is None && after == before,
        before.capture.active matches Some(active) ==> (active.mode
            != crate::recorder::RecordingMode::Manual ==> (end matches Some(forced)
            && forced.flavor == active.draft.flavor && forced.at_ms == now_ms)
            && after.capture.pending_test_end is None && after.capture.active
            == before.capture.active),
{
}

/// The next job of the media worker goes out alone: the one that waits longest,
/// recordings before clips, and everything else goes on waiting.
pub proof fn the_next_media_job_goes_out(
    before: Coordinator,
    after: Coordinator,
    job: Option<MediaJob>,
)
    requires
        before.dispatches_media(after, job),
    ensures
        before.media.busy is Some ==> job is None && after.media == before.media,
        before.media.busy is None && before.media.finalizations@.len() > 0 ==> job == Some(
            before.media.finalizations@[0],
        ) && after.media.finalizations@ == before.media.finalizations@.skip(1)
            && after.media.user_jobs@ == before.media.user_jobs@,
        before.media.busy is None && before.media.finalizations@.len() == 0 ==> (job matches Some(
            next,
        ) ==> before.media.user_jobs@.len() > 0 && next == before.media.user_jobs@[0]
            && after.media.user_jobs@ == before.media.user_jobs@.skip(1)),
        job is None ==> after.media.finalizations@ == before.media.finalizations@
            && after.media.user_jobs@ == before.media.user_jobs@,
        after.uploads == before.uploads,
        after.capture == before.capture,
{
}

/// Arming checks the settings first: every problem of theirs is shown, and
/// capture is armed exactly where there is none and none is in flight.
pub proof fn settings_are_checked_before_arming(
    before: Coordinator,
    now_ms: i64,
    after: Coordinator,
    effect: crate::commands::CommandEffect,
)
    requires
        before.takes_up_arm(now_ms, after, effect),
    ensures
        after.setup_problems@.len() == crate::config::usable_problems(before.config).len(),
        effect is Arm ==> after.setup_problems@.len() == 0,
        crate::config::usable_problems(before.config).len() == 0 && !before.in_flight()
            ==> effect is Arm,
        !(effect is Arm) ==> effect is Nothing,
        after.config == before.config,
        after.capture == before.capture,
{
    assert(crate::config::problem_texts(after.setup_problems@).len()
        == after.setup_problems@.len());
}

} // verus!
