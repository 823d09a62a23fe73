//! What becomes of the library, of clips and uploads that were asked for, and
//! what the user is told of it all.
use std::sync::Arc;

use vstd::prelude::*;

use crate::commands::{CommandEffect, EntryUpdate};
use crate::config::Config;
use crate::configure;
use crate::configure::{InterfaceChange, PendingConfig};
use crate::coordinator;
use crate::coordinator::{
    ActiveRecording, AppSnapshot, ClipRange, Command, Coordinator, MAX_MEDIA_QUEUE, MAX_UPLOAD_QUEUE,
};
use crate::domain::{
    LibraryEntry, Problem, ProblemView, RecorderStatus, RecordingId, RecoveryAction, StorageLimit,
    WorkKind, 
};
use crate::index;
use crate::index::{
    DeleteFailure, DeleteOutcome, DeleteReaction, LimitOutcome, LimitReaction,
};
use crate::media_jobs::{MediaEvent, MediaJob};
use crate::queues;
use crate::queues::MediaReaction;
use crate::recorder::RecordingMode;
use crate::text;
use crate::upload::{UploadAction, UploadEvent};

verus! {

// --- looking recordings up ---

/// What is looked up has the identity that was asked for, and whatever the
/// library holds is found.
pub proof fn recordings_are_found(entries: Seq<Arc<LibraryEntry>>, id: Seq<char>)
    ensures
        queues::find_entry(entries, id) matches Some(entry) ==> entry.id@ == id
            && entries.contains(entry),
        queues::find_entry(entries, id) is None <==> forall|i: int|
            0 <= i < entries.len() ==> (#[trigger] entries[i]).id@ != id,
    decreases entries.len(),
{
    if entries.len() > 0 {
        let rest = entries.skip(1);
        recordings_are_found(rest, id);
        assert(entries[0] == entries.first());
        if entries[0].id@ != id {
            if queues::find_entry(rest, id) is Some {
                let entry = queues::find_entry(rest, id)->0;
                let i = choose|i: int| 0 <= i < rest.len() && rest[i] == entry;
                assert(entries[i + 1] == entry);
            } else {
                assert forall|i: int| 0 <= i < entries.len() implies (#[trigger] entries[i]).id@
                    != id by {
                    if i > 0 {
                        assert(rest[i - 1] == entries[i]);
                    }
                }
            }
        }
    }
}

/// An entry that was changed on disk takes its own place in the library and
/// no other changes.
pub proof fn updates_touch_one_recording(
    before: Coordinator,
    entry: LibraryEntry,
    updated: LibraryEntry,
    now_ms: i64,
    after: Coordinator,
)
    requires
        before.takes_update(entry, Ok(updated), now_ms, after),
    ensures
        after.library.entries@.len() == before.library.entries@.len(),
        forall|i: int|
            0 <= i < before.library.entries@.len() && (
            #[trigger] before.library.entries@[i]).id@ != entry.id@ ==> after.library.entries@[i]
                == before.library.entries@[i],
        (exists|i: int|
            0 <= i < before.library.entries@.len() && (
            #[trigger] before.library.entries@[i]).id@ == entry.id@)
            ==> after.library.entries@.contains(Arc::new(updated)),
        after.problems == before.problems,
{
    lemma_updated(before.library.entries@, entry.id@, updated);
}

proof fn lemma_updated(entries: Seq<Arc<LibraryEntry>>, id: Seq<char>, updated: LibraryEntry)
    ensures
        index::with_entry(entries, id, updated).len() == entries.len(),
        forall|i: int|
            0 <= i < entries.len() && (#[trigger] entries[i]).id@ != id ==> index::with_entry(
                entries,
                id,
                updated,
            )[i] == entries[i],
        (exists|i: int| 0 <= i < entries.len() && (#[trigger] entries[i]).id@ == id)
            ==> index::with_entry(entries, id, updated).contains(Arc::new(updated)),
    decreases entries.len(),
{
    if entries.len() > 0 {
        let all = index::with_entry(entries, id, updated);
        if entries[0].id@ == id {
            assert(all[0] == Arc::new(updated));
        } else {
            let rest = entries.skip(1);
            lemma_updated(rest, id, updated);
            let changed = index::with_entry(rest, id, updated);
            assert forall|i: int| 0 <= i < entries.len() && (#[trigger] entries[i]).id@
                != id implies all[i] == entries[i] by {
                if i > 0 {
                    assert(rest[i - 1] == entries[i]);
                    assert(all[i] == changed[i - 1]);
                }
            }
            if exists|i: int| 0 <= i < entries.len() && (#[trigger] entries[i]).id@ == id {
                let i = choose|i: int| 0 <= i < entries.len() && (#[trigger] entries[i]).id@ == id;
                assert(rest[i - 1].id@ == id);
                let k = choose|k: int| 0 <= k < changed.len() && changed[k] == Arc::new(updated);
                assert(all[k + 1] == Arc::new(updated));
            }
        }
    }
}

/// What the library takes is counted in full, media and sidecars alike.
pub proof fn sizes_add_up(sizes: Seq<(u64, u64)>, media: u64, sidecar: u64)
    requires
        index::saturating_total(sizes) + media + sidecar <= u64::MAX,
    ensures
        index::saturating_total(sizes.push((media, sidecar))) == index::saturating_total(sizes)
            + media + sidecar,
        index::saturating_total(Seq::<(u64, u64)>::empty()) == 0,
{
    lemma_total_positive(sizes);
    assert(sizes.push((media, sidecar)).drop_last() =~= sizes);
}

proof fn lemma_total_positive(sizes: Seq<(u64, u64)>)
    ensures
        0 <= index::saturating_total(sizes) <= u64::MAX,
    decreases sizes.len(),
{
    if sizes.len() > 0 {
        lemma_total_positive(sizes.drop_last());
    }
}

/// Without a limit nothing is ever cleaned up, nor said to be over it; with
/// one, that limit is enforced.
pub proof fn only_limited_libraries_are_cleaned_up(
    before: Coordinator,
    after: Coordinator,
    limit: Option<StorageLimit>,
)
    requires
        before.limits(after, limit),
    ensures
        limit is None <==> before.config.storage.limit is Unlimited,
        limit matches Some(gib) ==> gib == before.config.storage.limit,
        limit is None ==> !after.library.protected_over_limit,
        after.library.entries == before.library.entries,
{
}

/// Recordings that were cleaned up leave the library; where something was
/// left behind the directory is read again, and where nothing was cleaned up
/// nothing changes.
pub proof fn cleaned_up_recordings_leave_the_library(
    before: Coordinator,
    outcome: LimitOutcome,
    after: Coordinator,
    reaction: LimitReaction,
)
    requires
        before.enforces(outcome, after, reaction),
    ensures
        reaction is Rescan <==> outcome.partially_deleted,
        reaction is Remove <==> !outcome.partially_deleted && outcome.evicted@.len() > 0,
        reaction matches LimitReaction::Remove(ids) ==> ids == outcome.evicted
            && after.library.used_bytes == outcome.remaining_bytes,
        !(reaction is Remove) ==> after.library.used_bytes == before.library.used_bytes,
        after.library.protected_over_limit == outcome.protected_over_limit,
{
}

/// Deleted recordings leave the library, and each that could not be deleted is
/// told to the user.
pub proof fn deleted_recordings_leave_the_library(
    before: Coordinator,
    outcome: DeleteOutcome,
    now_ms: i64,
    after: Coordinator,
    reaction: DeleteReaction,
)
    requires
        before.deletes(outcome, now_ms, after, reaction),
    ensures
        reaction is Rescan <==> outcome.partially_deleted,
        reaction matches DeleteReaction::Remove(ids) ==> ids == outcome.deleted,
        outcome.failures@.len() > 0 ==> after.dirty,
        after.library == before.library,
        after.capture == before.capture,
        after.media == before.media,
        after.uploads == before.uploads,
        after.config == before.config,
        outcome.failures@.len() == 0 ==> coordinator::problem_views(after.problems@)
            == coordinator::problem_views(before.problems@),
        outcome.failures@.len() > 0 ==> {
            let told = coordinator::problem_views(after.problems@);
            &&& told.len() > 0
            &&& told.last().safe_detail == Some(outcome.failures@.last().error@)
            &&& told.last().recovery_action == Some(RecoveryAction::Retry)
            &&& told.last().occurred_unix_ms == now_ms
        },
{
    if outcome.failures@.len() > 0 {
        let front = index::with_failures(
            coordinator::problem_views(before.problems@),
            before.library.entries@,
            outcome.failures@.drop_last(),
            now_ms,
        );
        assert(front.push(
            index::undeleted_problem(before.library.entries@, outcome.failures@.last(), now_ms),
        ).len() > 0);
    }
}

/// A recording that could not be deleted is called by its title while the
/// library knows it.
pub proof fn undeleted_recordings_are_named(
    entries: Seq<Arc<LibraryEntry>>,
    failure: DeleteFailure,
    now_ms: i64,
)
    ensures
        ({
            let summary = index::undeleted_problem(entries, failure, now_ms).summary;
            match queues::find_entry(entries, failure.id@) {
                Some(entry) => summary == "\""@ + entry.title@ + "\" could not be deleted."@,
                None => summary == "\""@ + failure.id@ + "\" could not be deleted."@,
            }
        }),
{
}

/// Every recording counts for its own category.
pub proof fn recordings_are_counted_by_category(
    entries: Seq<Arc<LibraryEntry>>,
    entry: Arc<LibraryEntry>,
)
    ensures
        index::count_of(entries.push(entry), entry.category) == index::count_of(
            entries,
            entry.category,
        ) + 1,
        forall|other: crate::domain::Category|
            other != entry.category ==> #[trigger] index::count_of(entries.push(entry), other)
                == index::count_of(entries, other),
        forall|category: crate::domain::Category| #[trigger]
            index::count_of(Seq::<Arc<LibraryEntry>>::empty(), category) == 0,
{
    assert(entries.push(entry).drop_last() =~= entries);
}

// --- clips and uploads ---

/// A clip that is asked for waits behind those that were, with the recording
/// and the range that were chosen; nothing waits of a recording that is gone,
/// or where too much waits already, and the user is told.
pub proof fn clips_are_queued_as_asked_for(
    before: Coordinator,
    range: ClipRange,
    now_ms: i64,
    after: Coordinator,
)
    requires
        before.queues_clip(range, now_ms, after),
    ensures
        after.media.user_jobs@.len() > before.media.user_jobs@.len() <==> {
            &&& queues::find_entry(before.library.entries@, range.source@) is Some
            &&& before.media.user_jobs@.len() < MAX_MEDIA_QUEUE
        },
        after.media.user_jobs@.len() > before.media.user_jobs@.len() ==> {
            &&& after.media.user_jobs@.drop_last() =~= before.media.user_jobs@
            &&& after.media.user_jobs@.last() matches MediaJob::CreateClip {
                source,
                start_ms,
                end_ms,
            } && source.id@ == range.source@ && start_ms == range.start_ms && end_ms
                == range.end_ms
            &&& after.problems == before.problems
        },
        after.media.finalizations@ == before.media.finalizations@,
{
    recordings_are_found(before.library.entries@, range.source@);
}

/// A recording that was saved is uploaded by itself exactly if the user turned
/// that on and the account is complete; a clip never is. The worker is free for
/// the next job.
pub proof fn saved_recordings_are_folded_in(
    before: Coordinator,
    kind: WorkKind,
    entry: Arc<LibraryEntry>,
    now_ms: i64,
    after: Coordinator,
    reaction: MediaReaction,
)
    requires
        before.follows_media(MediaEvent::Completed { kind, entry }, now_ms, after, reaction),
    ensures
        reaction matches MediaReaction::Fold { entry: folded, upload } && folded == entry && (upload
            <==> {
            &&& kind == WorkKind::Finalize
            &&& before.config.cloud.auto_upload
            &&& before.config.cloud.enabled
            &&& text::trim(before.config.cloud.account@).len() > 0
            &&& before.config.cloud.password@.len() > 0
            &&& text::trim(before.config.cloud.guild@).len() > 0
        }),
        after.media.busy is None,
        after.media.work is None,
        after.problems == before.problems,
{
}

/// A job that failed is told to the user, as what it was, with the reason; the
/// worker is free for the next one. One that was cancelled is not.
pub proof fn failed_media_jobs_are_reported(
    before: Coordinator,
    kind: WorkKind,
    message: String,
    now_ms: i64,
    after: Coordinator,
    reaction: MediaReaction,
)
    requires
        before.follows_media(MediaEvent::Failed { kind, message }, now_ms, after, reaction),
    ensures
        reaction is Nothing,
        after.media.busy is None,
        coordinator::problem_views(after.problems@).len() > 0,
        ({
            let told = coordinator::problem_views(after.problems@).last();
            &&& kind == WorkKind::Finalize ==> told.summary == "A recording could not be saved."@
            &&& kind == WorkKind::Clip ==> told.summary == "The clip could not be created."@
            &&& told.safe_detail == Some(message@)
            &&& told.occurred_unix_ms == now_ms
        }),
{
}

/// A cancelled job frees the worker without a word, and progress is shown as
/// it was reported.
pub proof fn progress_is_shown_as_reported(
    before: Coordinator,
    event: MediaEvent,
    now_ms: i64,
    after: Coordinator,
    reaction: MediaReaction,
)
    requires
        before.follows_media(event, now_ms, after, reaction),
    ensures
        event matches MediaEvent::Progress(progress) ==> after.media.work == Some(progress)
            && after.media.busy == before.media.busy,
        event is Cancelled ==> after.media.busy is None && after.media.work is None
            && after.problems == before.problems && reaction is Nothing,
{
}

/// An upload that is asked for waits behind those that were, with the
/// recording it is of and the account it goes up with; none waits of a
/// recording that is gone, is waiting already or is being uploaded.
pub proof fn uploads_are_queued_as_asked_for(
    before: Coordinator,
    id: Seq<char>,
    action: UploadAction,
    requested: bool,
    now_ms: i64,
    after: Coordinator,
)
    requires
        before.queues_upload(id, action, requested, now_ms, after),
    ensures
        after.uploads.queue@.len() > before.uploads.queue@.len() <==> {
            &&& before.config.cloud.configured()
            &&& queues::find_entry(before.library.entries@, id) is Some
            &&& !before.upload_known(id, action)
            &&& before.uploads.queue@.len() < MAX_UPLOAD_QUEUE
        },
        after.uploads.queue@.len() > before.uploads.queue@.len() ==> {
            let job = after.uploads.queue@.last();
            &&& after.uploads.queue@.drop_last() =~= before.uploads.queue@
            &&& job.entry.id@ == id
            &&& job.action == action
            &&& job.requested == requested
            &&& job.credentials.user@ == text::trim(before.config.cloud.account@)
            &&& job.credentials.password@ == before.config.cloud.password@
            &&& job.credentials.guild@ == text::trim(before.config.cloud.guild@)
        },
        after.uploads.current == before.uploads.current,
{
    queues::lemma_found_entry(before.library.entries@, id);
    if !before.config.cloud.configured() {
        assert(after.uploads == before.uploads);
    }
}

/// Progress counts for the upload it is about, and only for that.
pub proof fn upload_progress_is_shown(
    before: Coordinator,
    id: RecordingId,
    sent: u64,
    total: u64,
    now_ms: i64,
    after: Coordinator,
)
    requires
        before.follows_upload(UploadEvent::Progress { id, sent, total }, now_ms, after),
        before.uploads.current is Some,
    ensures
        after.uploads.current matches Some(shown) && before.uploads.current matches Some(current) && {
            &&& shown.id == current.id
            &&& shown.title == current.title
            &&& shown.action == current.action
            &&& current.id@ == id@ ==> shown.sent == sent && shown.total == total
            &&& current.id@ != id@ ==> shown == current
        },
        after.uploads.queue == before.uploads.queue,
{
}

/// An upload that is over makes room for the next: its link is shown, and a
/// failure is told to the user with its reason.
pub proof fn finished_uploads_are_reported(
    before: Coordinator,
    event: UploadEvent,
    now_ms: i64,
    after: Coordinator,
)
    requires
        before.follows_upload(event, now_ms, after),
        !(event is Progress),
    ensures
        after.uploads.current is None,
        event matches UploadEvent::Finished { id, title, link: Some(url), requested, .. } ==> {
            &&& after.uploads.link matches Some(shown) && shown.id == id && shown.title == title
                && shown.url == url && shown.copy == requested
            &&& after.problems == before.problems
        },
        event matches UploadEvent::Failed { title, action, message, .. } ==> {
            let told = coordinator::problem_views(after.problems@);
            &&& told.len() > 0
            &&& action == UploadAction::Upload ==> told.last().summary == title@
                + " could not be uploaded."@
            &&& action == UploadAction::ShareLink ==> told.last().summary == "No share link for "@
                + title@ + "; has it been uploaded?"@
            &&& told.last().safe_detail == Some(message@)
            &&& after.uploads.link == before.uploads.link
        },
{
}

// --- commands ---

/// Protecting, tagging and deleting are done to the recordings that were
/// chosen, as they were chosen, and change nothing else.
pub proof fn chosen_recordings_are_changed(
    before: Coordinator,
    command: Command,
    fresh_id: RecordingId,
    test_duration_ms: u64,
    now_ms: i64,
    after: Coordinator,
    effect: CommandEffect,
)
    requires
        before.handles(command, fresh_id, test_duration_ms, now_ms, after, effect),
    ensures
        command matches Command::SetProtected { ids, value } ==> effect == (CommandEffect::Update {
            ids,
            change: EntryUpdate::Protected(value),
        }) && after == before,
        command matches Command::SetTag { id, tag } ==> after == before && (
        effect matches CommandEffect::Update { ids, change } && ids@.len() == 1 && ids@[0] == id
            && change == EntryUpdate::Tag(tag)),
        command matches Command::Delete { ids } ==> effect == (CommandEffect::Delete { ids })
            && after == before,
        command matches Command::ShareLink { id } ==> before.queues_upload(
            id@,
            UploadAction::ShareLink,
            true,
            now_ms,
            after,
        ),
        command matches Command::CreateClip(range) ==> before.queues_clip(range, now_ms, after),
{
}

/// Capture is armed exactly if the settings are usable and nothing is being
/// captured or written.
pub proof fn capture_is_armed_when_usable(
    before: Coordinator,
    now_ms: i64,
    after: Coordinator,
    effect: CommandEffect,
)
    requires
        before.takes_up_arm(now_ms, after, effect),
    ensures
        effect is Arm <==> crate::config::usable_problems(before.config).len() == 0
            && before.capture.active is None && before.capture.ending is None,
{
}

/// A preference is changed to what was chosen, and the rest of the settings
/// stays as it was.
pub proof fn preferences_change_as_chosen(
    before: Config,
    after: Config,
    category: crate::domain::Category,
)
    requires
        InterfaceChange::SelectedCategory(category).makes(before, after),
    ensures
        after.interface.selected_category == category,
        after.capture@ == before.capture@,
        after.storage.limit == before.storage.limit,
{
}

/// New settings are saved only while nothing is captured, written or waiting
/// to be saved, and what is saved is what the user entered.
pub proof fn settings_are_saved_as_entered(
    before: Coordinator,
    draft: Config,
    now_ms: i64,
    after: Coordinator,
    pending: PendingConfig,
)
    requires
        before.saves_config(draft, now_ms, after, Some(pending)),
    ensures
        before.capture.active is None,
        before.capture.ending is None,
        before.media.busy is None,
        before.media.finalizations@.len() == 0,
        before.media.user_jobs@.len() == 0,
        pending.draft == (Config {
            last_seen_version: before.config.last_seen_version,
            ..draft
        }),
        after == before,
{
}

/// A part of the recorder is set up anew exactly if its settings changed.
pub proof fn only_changed_parts_are_set_up_anew(before: Config, after: Config)
    ensures
        configure::changes_between(before, after).limit <==> after.storage.limit
            != before.storage.limit,
        configure::changes_between(before, after).capture <==> after.capture@ != before.capture@,
        after.validate_log_paths != before.validate_log_paths ==> configure::changes_between(
            before,
            after,
        ).logs,
        after.flavors == before.flavors && after.validate_log_paths == before.validate_log_paths
            ==> !configure::changes_between(before, after).logs,
        !after.flavors.same(before.flavors) ==> configure::changes_between(before, after).logs,
        after.storage.separate_buffer_dir != before.storage.separate_buffer_dir
            ==> configure::changes_between(before, after).storage,
        !after.storage.buffer_dir.same(before.storage.buffer_dir) ==> configure::changes_between(
            before,
            after,
        ).storage,
        !after.storage.recording_dir.same(before.storage.recording_dir)
            ==> configure::changes_between(before, after).storage,
        after.storage.recording_dir == before.storage.recording_dir && after.storage.buffer_dir
            == before.storage.buffer_dir && after.storage.separate_buffer_dir
            == before.storage.separate_buffer_dir ==> !configure::changes_between(
            before,
            after,
        ).storage,
{
}

// --- what the user is told ---

/// The newest problem is always shown, behind the ones before it; only when
/// there are too many does the oldest go.
pub proof fn the_newest_problem_is_shown(
    problems: Seq<ProblemView>,
    problem: ProblemView,
    i: int,
)
    requires
        problems.len() <= 8,
        0 <= i < problems.len(),
    ensures
        coordinator::with_problem(problems, problem).last() == problem,
        problems.len() < 8 ==> coordinator::with_problem(problems, problem).len() == problems.len()
            + 1 && coordinator::with_problem(problems, problem)[i] == problems[i],
        problems.len() == 8 && i > 0 ==> coordinator::with_problem(problems, problem).len() == 8
            && coordinator::with_problem(problems, problem)[i - 1] == problems[i],
{
}

/// When capture runs again, every problem that is not about it stays.
pub proof fn other_problems_stay(problems: Seq<Problem>, problem: Problem)
    requires
        problems.contains(problem),
        problem.summary@ != "Screen capture stopped unexpectedly."@,
        problem.summary@ != "Screen capture could not be restarted."@,
    ensures
        coordinator::without_capture_problems(problems).contains(problem),
    decreases problems.len(),
{
    let front = problems.drop_last();
    let before = coordinator::without_capture_problems(front);
    let all = coordinator::without_capture_problems(problems);
    let at = choose|at: int| 0 <= at < problems.len() && problems[at] == problem;
    if at < front.len() {
        assert(front[at] == problem);
        other_problems_stay(front, problem);
        let k = choose|k: int| 0 <= k < before.len() && before[k] == problem;
        assert(all[k] == problem);
    } else {
        assert(all[before.len() as int] == problem);
    }
}

/// While something is being recorded the user sees that, and whether it is
/// manual or a test; once its activity has ended they see the overrun.
pub proof fn recordings_are_shown_as_such(
    shown: Coordinator,
    status: RecorderStatus,
    active: ActiveRecording,
)
    requires
        shown.is_status(status),
        shown.setup_problems@.len() == 0,
        shown.capture.active == Some(active),
    ensures
        active.stop_at_ms is None ==> (status matches RecorderStatus::Recording {
            category,
            started_unix_ms,
            manual,
            test,
            ..
        } && category == active.draft.category && started_unix_ms == active.started_unix_ms && (
        manual <==> active.mode == RecordingMode::Manual) && (test <==> active.mode is Test)),
        active.stop_at_ms is Some ==> (status matches RecorderStatus::Overrunning {
            started_unix_ms,
            ..
        } && started_unix_ms == active.started_unix_ms),
{
}

/// The user sees that the recorder is ready exactly if it is: set up and
/// armed, with nothing captured, written or being saved.
pub proof fn ready_means_ready(shown: Coordinator, status: RecorderStatus)
    requires
        shown.is_status(status),
    ensures
        status is Ready <==> {
            &&& shown.setup_problems@.len() == 0
            &&& shown.armed
            &&& shown.capture.active is None
            &&& shown.capture.ending is None
            &&& shown.media.busy != Some(WorkKind::Finalize)
        },
        status is SetupRequired <==> shown.setup_problems@.len() > 0,
        status is WaitingForWow <==> {
            &&& shown.setup_problems@.len() == 0
            &&& !shown.armed
            &&& shown.capture.active is None
            &&& shown.capture.ending is None
            &&& shown.media.busy != Some(WorkKind::Finalize)
        },
{
}

/// The shell is shown the state as it is.
pub proof fn the_shell_sees_the_state(shown: Coordinator, snapshot: AppSnapshot)
    requires
        shown.shown_by(snapshot),
    ensures
        snapshot.entries@ == shown.library.entries@,
        snapshot.problems@ == shown.problems@,
        snapshot.setup_problems@ == shown.setup_problems@,
        snapshot.work == shown.media.work,
        snapshot.queued_jobs == shown.media.finalizations@.len() + shown.media.user_jobs@.len(),
        snapshot.storage_used_bytes == shown.library.used_bytes,
        snapshot.cloud.current == shown.uploads.current,
        snapshot.cloud.link == shown.uploads.link,
        snapshot.active is Some <==> shown.capture.active is Some,
        snapshot.active matches Some(view) ==> (shown.capture.active matches Some(active) && view.id
            == active.draft.id && view.requested_replay_ms == active.requested_replay_ms
            && view.started_unix_ms == active.started_unix_ms),
{
}

} // verus!
