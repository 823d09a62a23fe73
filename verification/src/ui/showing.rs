//! What the status card, the menus and the settings dialog tell the user: each
//! thing in its own words, and numbers that read back.
use vstd::arithmetic::div_mod::lemma_fundamental_div_mod;
use vstd::prelude::*;

use crate::config;
use crate::config::{AuthorizedPath, Config, ValidationProblem};
use crate::coordinator::{AppSnapshot, Command};
use crate::domain::{Problem, RecorderStatus, RecordingId, RecoveryAction};
use crate::text;
use crate::ui::amount;
use crate::ui::card::{CardUpdate, ProblemList, StatusCard};
use crate::ui::card;
use crate::ui::columns;
use crate::ui::columns::Column;
use crate::ui::library;
use crate::ui::library::{RowAction, RowModel, Selection};
use crate::ui::rows::PathSetting;
use crate::ui::settings;
use crate::ui::settings::{ApplyOutcome, Feedback, FeedbackTone, Settings, SettingsUpdate};
use crate::ui::status;
use crate::ui::status::{ShellAction, Tone};
use crate::ui::suggestions;
use crate::upload::UploadAction;

verus! {

// --- the status card ---

/// While something is captured the card says what, since when, and how it can
/// be ended: a manual recording is ended as it was started, any other by
/// force.
pub proof fn the_card_tells_what_is_captured(snapshot: AppSnapshot)
    ensures
        snapshot.status matches RecorderStatus::Recording {
            title,
            started_unix_ms,
            manual,
            test,
            ..
        } ==> {
            let shown = status::card(snapshot);
            &&& shown.detail == title@
            &&& shown.elapsed_anchor_ms == Some(started_unix_ms)
            &&& shown.tone == Tone::Recording
            &&& shown.show_force_end <==> !manual
            &&& manual ==> shown.title == "Manual recording"@
            &&& !manual && test ==> shown.title == "Test recording"@
            &&& !manual && !test ==> shown.title == "Recording"@
        },
        snapshot.status matches RecorderStatus::Overrunning { title, started_unix_ms } ==> {
            let shown = status::card(snapshot);
            &&& shown.title == "Overrunning"@
            &&& shown.detail.take(title@.len() as int) == title@
            &&& shown.elapsed_anchor_ms == Some(started_unix_ms)
            &&& shown.tone == Tone::Overrunning
            &&& !shown.show_force_end
        },
{
    if let RecorderStatus::Overrunning { title, .. } = snapshot.status {
        let detail = title@ + ": recording a few seconds of aftermath."@;
        assert(detail.take(title@.len() as int) =~= title@);
    }
}

/// While nothing is captured the card says what is waited for, and no clock
/// runs.
pub proof fn the_card_tells_what_is_waited_for(snapshot: AppSnapshot)
    ensures
        snapshot.status is SetupRequired ==> {
            let shown = status::card(snapshot);
            &&& shown.title == "Setup required"@
            &&& shown.tone == Tone::Invalid
            &&& snapshot.setup_problems@.len() > 0 ==> shown.detail
                == snapshot.setup_problems@[0].message@
            &&& snapshot.setup_problems@.len() == 0 ==> shown.detail == "Finish setup in Settings."@
        },
        snapshot.status is WaitingForWow ==> status::card(snapshot).title == "Waiting"@
            && status::card(snapshot).tone == Tone::Waiting && !status::card(snapshot).show_spinner,
        snapshot.status is Reconfiguring ==> status::card(snapshot).title == "Reconfiguring"@
            && status::card(snapshot).tone == Tone::Waiting && status::card(snapshot).show_spinner,
        snapshot.status is Buffering ==> status::card(snapshot).title == "Arming capture"@
            && status::card(snapshot).tone == Tone::Waiting && status::card(snapshot).show_spinner,
        snapshot.status is Ready ==> status::card(snapshot).title == "Ready"@ && status::card(
            snapshot,
        ).tone == Tone::Ready && !status::card(snapshot).show_spinner,
        snapshot.status is Finalizing ==> status::card(snapshot).title == "Saving"@
            && status::card(snapshot).tone == Tone::Finalizing && status::card(
            snapshot,
        ).show_spinner,
        snapshot.status matches RecorderStatus::Fatal { problem } ==> {
            let shown = status::card(snapshot);
            &&& shown.title == "Error"@
            &&& shown.tone == Tone::Error
            &&& shown.detail == problem.summary@
        },
        !(snapshot.status is Recording) && !(snapshot.status is Overrunning) ==> status::card(
            snapshot,
        ).elapsed_anchor_ms is None && !status::card(snapshot).show_force_end,
{
}

/// Every enabled flavour is named as watched, and no other.
pub proof fn watched_flavours_are_named(config: Config)
    ensures
        status::flavor_words(config).contains("Retail"@) <==> config.flavors.retail.enabled,
        status::flavor_words(config).contains("Retail PTR"@) <==> config.flavors.retail_ptr.enabled,
        status::flavor_words(config).contains("Classic"@) <==> config.flavors.classic.enabled,
        status::flavor_words(config).contains(
            "Classic PTR"@,
        ) <==> config.flavors.classic_ptr.enabled,
        status::flavor_words(config).contains("Era"@) <==> config.flavors.era.enabled,
{
    reveal_strlit("Retail");
    reveal_strlit("Retail PTR");
    reveal_strlit("Classic");
    reveal_strlit("Classic PTR");
    reveal_strlit("Era");
    assert("Retail"@.len() == 6 && "Retail"@[0] == 'R');
    assert("Retail PTR"@.len() == 10 && "Retail PTR"@[0] == 'R');
    assert("Classic"@.len() == 7 && "Classic"@[0] == 'C');
    assert("Classic PTR"@.len() == 11 && "Classic PTR"@[0] == 'C');
    assert("Era"@.len() == 3 && "Era"@[0] == 'E');
    let words = status::flavor_words(config);
    let a = status::shown_if(config.flavors.retail.enabled, "Retail"@);
    let b = a + status::shown_if(config.flavors.retail_ptr.enabled, "Retail PTR"@);
    let c = b + status::shown_if(config.flavors.classic.enabled, "Classic"@);
    let d = c + status::shown_if(config.flavors.classic_ptr.enabled, "Classic PTR"@);
    assert(words == d + status::shown_if(config.flavors.era.enabled, "Era"@));
    if config.flavors.retail.enabled {
        assert(words[0] == "Retail"@);
    }
    if config.flavors.retail_ptr.enabled {
        assert(words[a.len() as int] == "Retail PTR"@);
    }
    if config.flavors.classic.enabled {
        assert(words[b.len() as int] == "Classic"@);
    }
    if config.flavors.classic_ptr.enabled {
        assert(words[c.len() as int] == "Classic PTR"@);
    }
    if config.flavors.era.enabled {
        assert(words[d.len() as int] == "Era"@);
    }
}

/// A percentage is the whole part of a hundred times the share.
pub proof fn percentages_are_shares(done: u64, total: u64)
    requires
        0 < total,
        done * 100 <= u64::MAX,
    ensures
        status::percentage(done, total) * total <= done * 100,
        done * 100 < (status::percentage(done, total) + 1) * total,
{
    lemma_fundamental_div_mod(done * 100, total as int);
    let share = (done * 100) / total as int;
    assert(share * total <= done * 100 < (share + 1) * total) by (nonlinear_arith)
        requires
            done * 100 == total * share + (done * 100) % total as int,
            0 <= (done * 100) % (total as int),
            (done * 100) % (total as int) < total,
    ;
    assert(share >= 0) by (nonlinear_arith)
        requires
            done * 100 < (share + 1) * total,
            0 < total,
            0 <= done,
    ;
}

/// The cloud line names what is uploaded and how far, or else the newest link;
/// a link that went to the clipboard is said to be copied.
pub proof fn the_cloud_line_tells_what_goes_on(snapshot: AppSnapshot)
    ensures
        snapshot.cloud.current matches Some(current) ==> {
            let line = status::cloud_words(snapshot.cloud);
            let queued = if snapshot.cloud.queued == 0 {
                Seq::<char>::empty()
            } else {
                " ("@ + text::decimal(snapshot.cloud.queued as nat) + " more queued)"@
            };
            &&& current.action == UploadAction::ShareLink ==> line == "Getting a share link for "@
                + current.title@ + queued
            &&& current.action == UploadAction::Upload && current.total > 0 ==> line
                == "Uploading "@ + current.title@ + ": "@ + text::decimal(
                status::percentage(current.sent, current.total),
            ) + "%"@ + queued
            &&& current.action == UploadAction::Upload && current.total == 0 ==> line
                == "Uploading "@ + current.title@ + queued
        },
        snapshot.cloud.current is None ==> {
            let line = status::cloud_words(snapshot.cloud);
            &&& snapshot.cloud.link is None ==> line.len() == 0
            &&& snapshot.cloud.link matches Some(link) ==> {
                &&& link.copy ==> line == "Share link copied: "@ + link.url@
                &&& !link.copy ==> line == "Uploaded "@ + link.title@ + ": "@ + link.url@
            }
        },
{
}

/// The elapsed time is that since the anchor, in whole seconds, and never runs
/// backwards.
pub proof fn elapsed_time_runs_with_the_clock(anchor_ms: i64, now_ms: i64, later_ms: i64)
    requires
        now_ms <= later_ms,
    ensures
        0 <= now_ms - anchor_ms <= i64::MAX ==> 1_000 * status::elapsed_seconds(anchor_ms, now_ms)
            <= now_ms - anchor_ms < 1_000 * (status::elapsed_seconds(anchor_ms, now_ms) + 1),
        now_ms <= anchor_ms ==> status::elapsed_seconds(anchor_ms, now_ms) == 0,
        status::elapsed_seconds(anchor_ms, now_ms) <= status::elapsed_seconds(anchor_ms, later_ms),
        0 <= now_ms - anchor_ms && later_ms == now_ms + 1_000 && later_ms - anchor_ms <= i64::MAX
            ==> status::elapsed_seconds(anchor_ms, later_ms) == status::elapsed_seconds(
            anchor_ms,
            now_ms,
        ) + 1,
{
}

/// A tick shows the time since the anchor of the last snapshot; without one
/// the clock stops and nothing is shown.
pub proof fn the_clock_stops_with_the_capture(
    before: StatusCard,
    now_unix_ms: i64,
    after: StatusCard,
    label: Option<String>,
)
    requires
        before.ticks(now_unix_ms, after, label),
    ensures
        label is Some <==> before.elapsed_anchor_ms is Some,
        before.elapsed_anchor_ms is None ==> !after.clock_runs,
        after.elapsed_anchor_ms == before.elapsed_anchor_ms,
        after.tone == before.tone,
        after.warnings == before.warnings,
        after.problems == before.problems,
        before.elapsed_anchor_ms is Some ==> after.clock_runs == before.clock_runs,
{
}

/// The card lists every problem once, in order, each with the button of its
/// own way out.
pub proof fn problems_are_listed_with_their_way_out(list: ProblemList, problems: Seq<Problem>)
    requires
        card::lists(list, problems),
    ensures
        list.rows@.len() == problems.len(),
        list.shown <==> problems.len() > 0,
        list.label@ == "Problems ("@ + text::decimal(problems.len()) + ")"@,
        forall|i: int|
            0 <= i < problems.len() ==> {
                let row = #[trigger] list.rows@[i];
                &&& row.problem == problems[i]
                &&& row.offer is Some <==> problems[i].recovery_action is Some
            },
        forall|i: int|
            0 <= i < problems.len() ==> ((#[trigger] list.rows@[i]).offer matches Some(label) ==> {
                &&& problems[i].recovery_action == Some(RecoveryAction::OpenSettings) ==> label@
                    == "Open Settings"@
                &&& problems[i].recovery_action == Some(RecoveryAction::ReselectCaptureTarget)
                    ==> label@ == "Reselect capture target"@
                &&& problems[i].recovery_action == Some(RecoveryAction::Retry) ==> label@
                    == "Try again"@
                &&& problems[i].recovery_action == Some(RecoveryAction::OpenLogs) ==> label@
                    == "Open logs"@
                &&& problems[i].recovery_action == Some(RecoveryAction::Quit) ==> label@
                    == "Quit"@
            }),
{
}

/// What a button is called is what it does.
pub proof fn ways_out_are_taken(action: RecoveryAction, asked: ShellAction)
    requires
        status::asks_for(action, asked),
    ensures
        action == RecoveryAction::OpenSettings <==> asked is OpenSettings,
        action == RecoveryAction::ReselectCaptureTarget <==> asked == ShellAction::Command(
            Command::ReselectCaptureTarget,
        ),
        action == RecoveryAction::Retry <==> asked is Retry,
        action == RecoveryAction::OpenLogs <==> asked is OpenLogs,
        action == RecoveryAction::Quit <==> asked is Quit,
{
}

/// Every tone has a style of its own.
pub proof fn tones_look_different(a: Tone, b: Tone)
    ensures
        a.spec_css_class() == b.spec_css_class() <==> a == b,
        Tone::Ready.spec_css_class() == "tone-ready"@,
        Tone::Recording.spec_css_class() == "tone-recording"@,
        Tone::Waiting.spec_css_class() == "tone-waiting"@,
        Tone::Overrunning.spec_css_class() == "tone-overrunning"@,
        Tone::Finalizing.spec_css_class() == "tone-finalizing"@,
        Tone::Invalid.spec_css_class() == "tone-invalid"@,
        Tone::Error.spec_css_class() == "tone-error"@,
{
    reveal_strlit("tone-ready");
    reveal_strlit("tone-recording");
    reveal_strlit("tone-waiting");
    reveal_strlit("tone-overrunning");
    reveal_strlit("tone-finalizing");
    reveal_strlit("tone-invalid");
    reveal_strlit("tone-error");
    assert("tone-ready"@.len() == 10 && "tone-ready"@[5] == 'r');
    assert("tone-recording"@.len() == 14);
    assert("tone-waiting"@.len() == 12 && "tone-waiting"@[5] == 'w');
    assert("tone-overrunning"@.len() == 16);
    assert("tone-finalizing"@.len() == 15);
    assert("tone-invalid"@.len() == 12 && "tone-invalid"@[5] == 'i');
    assert("tone-error"@.len() == 10 && "tone-error"@[5] == 'e');
}

/// The card shows what the snapshot holds, and its clock counts from where
/// the snapshot says.
pub proof fn the_card_follows_the_snapshot(
    before: StatusCard,
    snapshot: AppSnapshot,
    now_unix_ms: i64,
    after: StatusCard,
    update: CardUpdate,
)
    requires
        before.changes(snapshot, now_unix_ms, after, update),
    ensures
        update.elapsed is Some <==> snapshot.status is Recording || snapshot.status is Overrunning,
        snapshot.status matches RecorderStatus::Recording { started_unix_ms, .. } ==>
            after.elapsed_anchor_ms == Some(started_unix_ms) && after.clock_runs,
        snapshot.status matches RecorderStatus::Overrunning { started_unix_ms, .. } ==>
            after.elapsed_anchor_ms == Some(started_unix_ms) && after.clock_runs,
        update.start_clock ==> !before.clock_runs && after.clock_runs,
        before.tone is None ==> update.tone_changed,
        update.tone_changed <==> before.tone != after.tone,
        update.problems matches Some(list) ==> list.rows@.len() == snapshot.problems@.len(),
        after.tray_note == before.tray_note,
{
}

// --- the table ---

/// Every column is headed by what it holds.
pub proof fn columns_are_headed_by_what_they_hold()
    ensures
        Column::Star.title_words() == "★"@,
        Column::Details.title_words() == "Details"@,
        Column::Encounter.title_words() == "Encounter"@,
        Column::Result.title_words() == "Result"@,
        Column::Pull.title_words() == "Pull"@,
        Column::Difficulty.title_words() == "Difficulty"@,
        Column::Dungeon.title_words() == "Dungeon"@,
        Column::Level.title_words() == "Level"@,
        Column::Affixes.title_words() == "Affixes"@,
        Column::ArenaMap.title_words() == "Map"@,
        Column::ClipType.title_words() == "Type"@,
        Column::SourceActivity.title_words() == "Source activity"@,
        Column::ManualType.title_words() == "Type"@,
        Column::Duration.title_words() == "Duration"@,
        Column::Date.title_words() == "Date"@,
{
}

/// A won row is styled as won and a lost one as lost.
pub proof fn results_are_styled_as_they_went(row: RowModel, class: Option<&'static str>)
    requires
        columns::styled(row, class),
    ensures
        class is None <==> row.outcome_order >= 2,
        class matches Some(style) ==> {
            &&& row.outcome_order == 0 ==> style@ == "wr-result-win"@
            &&& row.outcome_order == 1 ==> style@ == "wr-result-loss"@
        },
{
}

/// A keystone's level is shown with a plus before it, and none as nothing.
pub proof fn keystone_levels_are_shown(level: i64)
    ensures
        level <= 0 ==> columns::level_words(level).len() == 0,
        level > 0 ==> columns::level_words(level) == "+"@ + text::decimal(level as nat),
{
}

/// A row is named after its player, or else after its recording.
pub proof fn rows_are_named_after_their_player(entry: crate::domain::LibraryEntry)
    ensures
        entry.player matches Some(player) ==> (player.name@.len() > 0 ==> library::details_words(
            entry,
        ) == player.name@) && (player.name@.len() == 0 ==> library::details_words(entry)
            == entry.title@),
        entry.player is None ==> library::details_words(entry) == entry.title@,
{
}

/// The table is shown exactly while it shows a row; without any recording the
/// page says so, and otherwise that the filters left none.
pub proof fn empty_tables_say_why(rows: u32, shown: u32)
    ensures
        library::page_of(rows, shown) is Empty <==> rows == 0,
        library::page_of(rows, shown) is FilteredEmpty <==> rows > 0 && shown == 0,
        library::page_of(rows, shown) is Table <==> rows > 0 && shown > 0,
{
}

/// A sole selected row is loaded into the player with its viewpoints, and
/// several are not.
pub proof fn a_sole_selection_is_loaded(selected: Seq<&RowModel>, selection: Option<Selection>)
    requires
        library::loads(selected, selection),
    ensures
        selected.len() == 1 ==> (selection matches Some(loaded) && loaded.id@ == selected[0].id@
            && library::id_views(loaded.viewpoints@) == library::id_views(
            selected[0].correlated_ids@,
        )),
        selected.len() != 1 ==> selection is None,
{
}

/// What is uploaded is what was asked for.
pub proof fn chosen_recordings_are_uploaded(ids: Vec<RecordingId>)
    ensures
        ids@.len() > 0 ==> (library::asks_to_upload(ids) matches Some(Command::Upload { ids: sent })
            && sent == ids),
        ids@.len() == 0 ==> library::asks_to_upload(ids) is None,
{
}

/// Every menu offers protecting, tagging, revealing and deleting; uploading
/// and sharing are offered exactly while the cloud is set up.
pub proof fn the_cloud_is_offered_when_set_up(cloud_configured: bool)
    ensures
        library::menu_of(cloud_configured).contains(RowAction::Upload) <==> cloud_configured,
        library::menu_of(cloud_configured).contains(RowAction::ShareLink) <==> cloud_configured,
        library::menu_of(cloud_configured).contains(RowAction::ToggleProtect),
        library::menu_of(cloud_configured).contains(RowAction::EditTag),
        library::menu_of(cloud_configured).contains(RowAction::Reveal),
        library::menu_of(cloud_configured).contains(RowAction::Delete),
        library::menu_of(cloud_configured).no_duplicates(),
        library::menu_of(cloud_configured).last() == RowAction::Delete,
{
    let menu = library::menu_of(cloud_configured);
    assert(menu[0] == RowAction::ToggleProtect);
    assert(menu[1] == RowAction::EditTag);
    if cloud_configured {
        assert(menu[2] == RowAction::Upload);
        assert(menu[3] == RowAction::ShareLink);
        assert(menu[4] == RowAction::Reveal);
        assert(menu[5] == RowAction::Delete);
    } else {
        assert(menu[2] == RowAction::Reveal);
        assert(menu[3] == RowAction::Delete);
    }
}

/// Menu entries are called what they do.
pub proof fn menu_entries_are_called_what_they_do(all_protected: bool)
    ensures
        library::action_words(RowAction::ToggleProtect, true) == "Unprotect"@,
        library::action_words(RowAction::ToggleProtect, false) == "Protect"@,
        library::action_words(RowAction::EditTag, all_protected) == "Edit tag"@,
        library::action_words(RowAction::Upload, all_protected) == "Upload to cloud"@,
        library::action_words(RowAction::ShareLink, all_protected) == "Copy share link"@,
        library::action_words(RowAction::Reveal, all_protected) == "Reveal in folder"@,
        library::action_words(RowAction::Delete, all_protected) == "Delete"@,
        library::protect_word(true) == "Unprotect"@,
        library::protect_word(false) == "Protect"@,
{
}

/// The suggestions are open only where there are some and the entry has the
/// focus, and closed where there are none.
pub proof fn suggestions_are_shown_while_searching(active: bool, focused: bool, count: u32)
    ensures
        suggestions::list_state(active, focused, count) is Open <==> active && focused && count > 0,
        suggestions::list_state(active, focused, count) is Close <==> !active || count == 0,
{
}

// --- the settings ---

/// A row that depends on a switch can be used exactly while the switch is on.
pub proof fn rows_follow_their_switch(config: Config)
    ensures
        settings::row_active("activities.min_raid_difficulty"@, config)
            == config.activities.record_raids,
        settings::row_active("activities.min_raid_duration_seconds"@, config)
            == config.activities.record_raids,
        settings::row_active("activities.current_raid_only"@, config)
            == config.activities.record_raids,
        settings::row_active("activities.raid_overrun_seconds"@, config)
            == config.activities.record_raids,
        settings::row_active("activities.min_keystone_level"@, config)
            == config.activities.record_dungeons,
        settings::row_active("activities.dungeon_overrun_seconds"@, config)
            == config.activities.record_dungeons,
        settings::row_active("storage.buffer_dir"@, config) == config.storage.separate_buffer_dir,
        settings::row_active("manual.sound"@, config) == config.manual.enabled,
        settings::row_active("capture.audio_input"@, config) == config.capture.audio_input is Some,
        settings::row_active("cloud.account"@, config) == config.cloud.enabled,
        settings::row_active("cloud.password"@, config) == config.cloud.enabled,
        settings::row_active("cloud.guild"@, config) == config.cloud.enabled,
        settings::row_active("cloud.auto_upload"@, config) == config.cloud.enabled,
{
    reveal_strlit("activities.min_raid_difficulty");
    reveal_strlit("activities.min_raid_duration_seconds");
    reveal_strlit("activities.current_raid_only");
    reveal_strlit("activities.raid_overrun_seconds");
    reveal_strlit("activities.min_keystone_level");
    reveal_strlit("activities.dungeon_overrun_seconds");
    reveal_strlit("storage.buffer_dir");
    reveal_strlit("manual.sound");
    reveal_strlit("capture.audio_input");
    reveal_strlit("cloud.account");
    reveal_strlit("cloud.password");
    reveal_strlit("cloud.guild");
    reveal_strlit("cloud.auto_upload");
    assert("activities.min_raid_difficulty"@[0] == 'a');
    assert("activities.min_raid_duration_seconds"@[0] == 'a');
    assert("activities.current_raid_only"@[0] == 'a');
    assert("activities.raid_overrun_seconds"@[0] == 'a');
    assert("activities.min_keystone_level"@[11] == 'm');
    assert("activities.min_raid_difficulty"@[15] == 'r');
    assert("activities.min_raid_duration_seconds"@[15] == 'r');
    assert("activities.min_keystone_level"@[15] == 'k');
    assert("activities.current_raid_only"@[11] == 'c');
    assert("activities.raid_overrun_seconds"@[11] == 'r');
    assert("activities.dungeon_overrun_seconds"@[11] == 'd');
    assert("activities.min_keystone_level"@[0] == 'a');
    assert("activities.dungeon_overrun_seconds"@[0] == 'a');
    assert("storage.buffer_dir"@[0] == 's');
    assert("manual.sound"@[0] == 'm');
    assert("capture.audio_input"@[0] == 'c' && "capture.audio_input"@[1] == 'a');
    assert("cloud.account"@[0] == 'c' && "cloud.account"@[1] == 'l');
    assert("cloud.password"@[0] == 'c' && "cloud.password"@[1] == 'l');
    assert("cloud.guild"@[0] == 'c' && "cloud.guild"@[1] == 'l');
    assert("cloud.auto_upload"@[0] == 'c' && "cloud.auto_upload"@[1] == 'l');
}

/// Settings can be applied while nothing is captured, saved or queued, and the
/// dialog says what stands in the way otherwise.
pub proof fn what_stands_in_the_way_is_said(snapshot: AppSnapshot)
    ensures
        snapshot.status is Recording ==> settings::unsafe_words(snapshot) == Some(
            "while a recording is active"@,
        ),
        snapshot.status is Overrunning ==> settings::unsafe_words(snapshot) == Some(
            "while a recording finishes its overrun"@,
        ),
        snapshot.status is Finalizing ==> settings::unsafe_words(snapshot) == Some(
            "while a recording is being saved"@,
        ),
        !(snapshot.status is Recording) && !(snapshot.status is Overrunning) && !(
        snapshot.status is Finalizing) ==> {
            &&& snapshot.work is Some || snapshot.queued_jobs > 0 ==> settings::unsafe_words(
                snapshot,
            ) == Some("while media work is in progress"@)
            &&& snapshot.work is None && snapshot.queued_jobs == 0 ==> settings::unsafe_words(
                snapshot,
            ) is None
        },
{
}

/// A draft without problems is saved as it stands; with problems it is not,
/// and each of them is shown; and nothing is saved while applying is unsafe.
pub proof fn only_usable_drafts_are_saved(
    draft: Config,
    reason: Option<&'static str>,
    outcome: ApplyOutcome,
)
    requires
        settings::is_outcome(draft, reason, outcome),
    ensures
        outcome is Save <==> reason is None && config::usable_problems(draft).len() == 0,
        outcome matches ApplyOutcome::Save(saved) ==> saved.same(draft),
        outcome is Blocked <==> reason is Some,
        outcome matches ApplyOutcome::Invalid(problems) ==> problems@.len()
            == config::usable_problems(draft).len(),
{
    if let ApplyOutcome::Invalid(problems) = outcome {
        assert(config::problem_texts(problems@).len() == problems@.len());
    }
}

/// A probed folder is usable exactly where the file could be written and
/// removed; otherwise the message holds the first error.
pub proof fn unusable_folders_say_why(
    write_error: Option<String>,
    remove_error: Option<String>,
    result: Result<(), String>,
)
    requires
        settings::is_probed(write_error, remove_error, result),
    ensures
        result is Ok <==> write_error is None && remove_error is None,
        write_error matches Some(error) ==> (result matches Err(message) && text::has_suffix(
            message@,
            error@,
        )),
        write_error is None ==> (remove_error matches Some(error) ==> (result matches Err(message)
            && text::has_suffix(message@, error@))),
{
    if let Err(message) = result {
        if let Some(error) = write_error {
            assert(message@.skip(message@.len() - error@.len()) =~= error@);
        } else if let Some(error) = remove_error {
            assert(message@.skip(message@.len() - error@.len()) =~= error@);
        }
    }
}

/// A folder's row shows the folder where it can be used, and that it has to be
/// chosen again where it cannot; a row without one says so.
pub proof fn folder_rows_show_the_folder(path: AuthorizedPath)
    ensures
        path.path@.len() == 0 ==> settings::path_words(path) == ("Not selected"@, false),
        path.path@.len() > 0 && path.usable() ==> settings::path_words(path) == (path.path@, false),
        path.path@.len() > 0 && !path.usable() ==> settings::path_words(path).1 && text::has_suffix(
            settings::path_words(path).0,
            path.path@,
        ) && settings::path_words(path).0 != path.path@,
        settings::button_words(path) == "Select this folder…"@ <==> path.path@.len() > 0
            && !path.usable(),
{
    reveal_strlit("Permission required. Flatpak needs you to select this folder again: ");
    reveal_strlit("Select this folder…");
    reveal_strlit("Select folder…");
    assert("Select this folder…"@.len() == 19);
    assert("Select folder…"@.len() == 14);
    let words = "Permission required. Flatpak needs you to select this folder again: "@ + path.path@;
    assert(words.skip(words.len() - path.path@.len()) =~= path.path@);
    assert(words.len() > path.path@.len());
}

/// A folder that passed the probe is the draft's, and its use is allowed; one
/// that did not changes nothing.
pub proof fn only_probed_folders_are_taken(
    before: Settings,
    setting: PathSetting,
    path: Seq<char>,
    probed: Result<(), String>,
    after: Settings,
    shown: (String, bool),
)
    requires
        before.takes_folder(setting, path, probed, after, shown),
    ensures
        probed is Ok ==> setting.path(after.draft).path@ == path && !shown.1,
        probed is Ok ==> setting.path(after.draft).authorization
            == config::PathAuthorization::Authorized,
        probed matches Err(message) ==> after == before && shown.0 == message && shown.1,
        after.baseline == before.baseline,
        after.pending == before.pending,
        after.draft.cloud == before.draft.cloud,
        after.draft.capture == before.draft.capture,
        after.draft.activities == before.draft.activities,
{
}

/// Choosing a device changes that device and nothing else; choosing an input
/// does not turn input audio on.
pub proof fn chosen_devices_are_used(before: Settings, id: String)
    ensures
        before.with_output(id).draft.capture.audio_output == id,
        before.with_output(id).draft.capture.audio_input == before.draft.capture.audio_input,
        before.with_input(id).draft.capture.audio_output == before.draft.capture.audio_output,
        before.draft.capture.audio_input is Some ==> before.with_input(
            id,
        ).draft.capture.audio_input == Some(id),
        before.draft.capture.audio_input is None ==> before.with_input(
            id,
        ).draft.capture.audio_input is None,
        before.with_output(id).baseline == before.baseline,
        before.with_input(id).baseline == before.baseline,
        before.with_output(id).draft.storage == before.draft.storage,
        before.with_input(id).draft.storage == before.draft.storage,
{
}

/// Input audio that is turned on uses the device that the row showed, and that
/// the row goes on to show; turned off it uses none.
pub proof fn input_audio_uses_the_shown_device(
    before: Settings,
    on: bool,
    shown: Option<&String>,
    after: Settings,
)
    requires
        before.turns_input(on, shown, after),
    ensures
        after.draft.capture.audio_input is Some <==> on,
        on && before.draft.capture.audio_input is Some ==> after.input_shown()
            == before.input_shown(),
        on && before.draft.capture.audio_input is None ==> (shown matches Some(device) ==>
            after.input_shown() == device@),
        on && before.draft.capture.audio_input is None && shown is None ==> after.input_shown()
            == "default_input"@,
        !on ==> after.input_shown() == "default_input"@,
        after.draft.capture.audio_output == before.draft.capture.audio_output,
{
}

/// A draft that was taken is waited for and said to be applied; one that was
/// not leaves everything as it was, and the dialog says that it is busy.
pub proof fn taken_drafts_are_waited_for(
    before: Settings,
    config: Config,
    now_ms: i64,
    accepted: bool,
    after: Settings,
    feedback: Feedback,
)
    requires
        before.hands_over(config, now_ms, accepted, after, feedback),
    ensures
        accepted ==> (after.pending matches Some(pending) && pending.config == config
            && pending.sent_at_ms == now_ms),
        accepted ==> feedback@ == ("Applying…"@, FeedbackTone::Dim),
        !accepted ==> after == before && feedback.tone == FeedbackTone::Warning,
        after.draft == before.draft,
        after.baseline == before.baseline,
{
}

/// Apply can be pressed while nothing stands in its way and nothing is waited
/// for; a confirmed save is said to be saved, and a refused one is marked on
/// its rows.
pub proof fn apply_waits_for_its_answer(
    before: Settings,
    snapshot: AppSnapshot,
    update: SettingsUpdate,
)
    requires
        before.shows(snapshot, update),
    ensures
        update.apply_sensitive ==> !(snapshot.status is Recording) && !(
        snapshot.status is Overrunning) && !(snapshot.status is Finalizing) && snapshot.work is None
            && snapshot.queued_jobs == 0,
        before.pending is None && update.gated_sensitive ==> update.apply_sensitive,
        before.pending matches Some(pending) ==> (update.apply_sensitive ==> snapshot.config.agrees(
            pending.config,
        )),
        update.mark_problems ==> before.pending is Some && snapshot.setup_problems@.len() > 0,
        update.mark_problems ==> (update.feedback matches Some(feedback) && feedback.tone
            == FeedbackTone::Error),
        before.pending matches Some(pending) ==> (snapshot.config.agrees(pending.config)
            && snapshot.setup_problems@.len() == 0 ==> (update.feedback matches Some(feedback)
            && feedback.tone != FeedbackTone::Error)),
        before.pending matches Some(pending) ==> (snapshot.config.agrees(pending.config)
            && snapshot.setup_problems@.len() == 0 && settings::summaries_since(
            snapshot.problems@,
            pending.sent_at_ms,
        ).len() == 0 ==> (update.feedback matches Some(feedback) && feedback@ == (
            "Saved."@,
            FeedbackTone::Success,
        ))),
        snapshot.config.capture.capture_target_token is Some ==> update.target_subtitle@
            == "Selected: restored automatically from the saved portal token"@,
        snapshot.config.capture.capture_target_token is None ==> update.target_subtitle@
            == "Not selected yet: the desktop portal will ask on the next capture"@,
        update.protected_note == snapshot.protected_over_limit,
{
}

/// Problems that came up since a save are told of, and older ones are not.
pub proof fn only_new_problems_are_told(problems: Seq<Problem>, since_ms: i64)
    ensures
        forall|i: int|
            0 <= i < problems.len() && (#[trigger] problems[i]).occurred_unix_ms >= since_ms
                ==> settings::summaries_since(problems, since_ms).contains(problems[i].summary@),
        forall|k: int|
            0 <= k < settings::summaries_since(problems, since_ms).len() ==> tells(
                problems,
                since_ms,
                #[trigger] settings::summaries_since(problems, since_ms)[k],
            ),
        (forall|i: int| 0 <= i < problems.len() ==> (#[trigger] problems[i]).occurred_unix_ms
            < since_ms) ==> settings::summaries_since(problems, since_ms).len() == 0,
    decreases problems.len(),
{
    let all = settings::summaries_since(problems, since_ms);
    if problems.len() > 0 {
        let front = problems.drop_last();
        let before = settings::summaries_since(front, since_ms);
        only_new_problems_are_told(front, since_ms);
        assert forall|i: int|
            0 <= i < problems.len() && (#[trigger] problems[i]).occurred_unix_ms
                >= since_ms implies all.contains(problems[i].summary@) by {
            if i < front.len() {
                assert(front[i] == problems[i]);
                let k = choose|k: int| 0 <= k < before.len() && before[k] == problems[i].summary@;
                assert(all[k] == problems[i].summary@);
            } else {
                assert(all[all.len() - 1] == problems[i].summary@);
            }
        }
        assert forall|k: int| 0 <= k < all.len() implies tells(
            problems,
            since_ms,
            #[trigger] all[k],
        ) by {
            if k < before.len() {
                assert(tells(front, since_ms, before[k]));
                let i = choose|i: int|
                    0 <= i < front.len() && (#[trigger] front[i]).occurred_unix_ms >= since_ms
                        && front[i].summary@ == before[k];
                assert(problems[i].summary@ == all[k]);
            } else {
                assert(problems[problems.len() - 1].summary@ == all[k]);
            }
        }
        if forall|i: int| 0 <= i < problems.len() ==> (#[trigger] problems[i]).occurred_unix_ms
            < since_ms {
            assert(problems[problems.len() - 1].occurred_unix_ms < since_ms);
            assert forall|i: int| 0 <= i < front.len() implies (
            #[trigger] front[i]).occurred_unix_ms < since_ms by {
                assert(problems[i].occurred_unix_ms < since_ms);
            }
        }
    }
}

/// A problem since then has this summary.
pub open spec fn tells(problems: Seq<Problem>, since_ms: i64, summary: Seq<char>) -> bool {
    exists|i: int|
        0 <= i < problems.len() && (#[trigger] problems[i]).occurred_unix_ms >= since_ms
            && problems[i].summary@ == summary
}

/// The newest rejection of the capture settings is shown with what the
/// recorder said, and without one there is no warning.
pub proof fn the_newest_rejection_is_shown(problems: Seq<Problem>, at: int)
    requires
        0 <= at < problems.len(),
        problems[at].summary@ == "The capture settings are not usable."@,
        forall|i: int|
            at < i < problems.len() ==> (#[trigger] problems[i]).summary@
                != "The capture settings are not usable."@,
    ensures
        settings::capture_problem(problems) == Some(problems[at]),
        problems[at].safe_detail matches Some(detail) ==> settings::capture_words(problems) == Some(
            "The capture settings are not usable."@ + " "@ + detail@,
        ),
    decreases problems.len(),
{
    if at < problems.len() - 1 {
        let front = problems.drop_last();
        assert(problems.last() == problems[problems.len() - 1]);
        assert forall|i: int| at < i < front.len() implies (#[trigger] front[i]).summary@
            != "The capture settings are not usable."@ by {
            assert(front[i] == problems[i]);
        }
        the_newest_rejection_is_shown(front, at);
    }
}

/// A problem is marked on the row that edits its field, where there is one.
pub proof fn problems_are_marked_on_their_row(fields: Seq<&'static str>, field: Seq<char>)
    ensures
        settings::marked(fields, field) matches Some(row) ==> row < fields.len() && (
        fields.len() <= usize::MAX ==> fields[row as int]@ == field),
        settings::marked(fields, field) is None <==> forall|i: int|
            0 <= i < fields.len() ==> (#[trigger] fields[i])@ != field,
{
    lemma_row_place(fields, field);
    let place = settings::row_place(fields, field);
    if place < fields.len() {
        assert(fields[place]@ == field);
    }
}

proof fn lemma_row_place(fields: Seq<&'static str>, field: Seq<char>)
    ensures
        0 <= settings::row_place(fields, field) <= fields.len(),
        settings::row_place(fields, field) < fields.len() ==> fields[settings::row_place(
            fields,
            field,
        )]@ == field,
        forall|i: int|
            0 <= i < settings::row_place(fields, field) ==> (#[trigger] fields[i])@ != field,
    decreases fields.len(),
{
    if fields.len() > 0 && fields[0]@ != field {
        let rest = fields.skip(1);
        lemma_row_place(rest, field);
        assert forall|i: int| 0 <= i < settings::row_place(fields, field) implies (
        #[trigger] fields[i])@ != field by {
            if i > 0 {
                assert(fields[i] == rest[i - 1]);
            }
        }
    }
}

/// Of a list of problems every message is shown, one to a line.
pub proof fn every_problem_is_shown(problems: Seq<ValidationProblem>)
    ensures
        settings::messages(problems).len() == problems.len(),
        forall|i: int|
            0 <= i < problems.len() ==> (#[trigger] settings::messages(problems)[i])
                == problems[i].message@,
        problems.len() == 1 ==> settings::bulleted(settings::messages(problems)) == "• "@
            + problems[0].message@,
        problems.len() == 2 ==> settings::bulleted(settings::messages(problems)) == "• "@
            + problems[0].message@ + "\n"@ + ("• "@ + problems[1].message@),
{
    let lines = settings::messages(problems).map_values(|line: Seq<char>| "• "@ + line);
    reveal_with_fuel(text::interleaved, 3);
    if problems.len() == 1 {
        assert(settings::bulleted(settings::messages(problems)) =~= "• "@ + problems[0].message@);
    }
    if problems.len() == 2 {
        assert(lines.drop_last().last() == lines[0]);
        assert(settings::bulleted(settings::messages(problems)) =~= "• "@ + problems[0].message@
            + "\n"@ + ("• "@ + problems[1].message@));
    }
}

/// An amount below 53 significant bits is shown to the nearest tenth of a GiB.
pub proof fn amounts_are_shown_to_the_nearest_tenth(amount: nat)
    requires
        amount < amount::PRECISE,
    ensures
        2 * (amount::gib_tenths(amount) * 1_073_741_824 - amount * 10) <= 1_073_741_824,
        2 * (amount * 10 - amount::gib_tenths(amount) * 1_073_741_824) <= 1_073_741_824,
        text::digits_value(text::decimal(amount::gib_tenths(amount) / 10)) * 10
            + text::digits_value(text::decimal(amount::gib_tenths(amount) % 10))
            == amount::gib_tenths(amount),
        amount::gib_text(amount) == text::decimal(amount::gib_tenths(amount) / 10) + "."@
            + text::decimal(amount::gib_tenths(amount) % 10),
{
    assert(amount::grain(amount) == 1);
    assert(amount::nearest(amount, 1) == amount);
    assert(amount::significant(amount) == amount) by (nonlinear_arith)
        requires
            amount::significant(amount) == amount::nearest(amount, amount::grain(amount))
                * amount::grain(amount),
            amount::grain(amount) == 1,
            amount::nearest(amount, amount::grain(amount)) == amount,
    ;
    text::numbers_read_back(amount::gib_tenths(amount) / 10);
    text::numbers_read_back(amount::gib_tenths(amount) % 10);
}

/// The line on what the library takes holds the amount.
pub proof fn the_library_says_how_much_it_takes(used_bytes: u64)
    ensures
        settings::storage_words(used_bytes) == "Currently using "@ + amount::gib_text(
            used_bytes as nat,
        ) + " GiB."@,
{
}

/// The table is redrawn exactly where a row changed in what it shows: its
/// recording, its star, its tag, its viewpoints or its date.
pub proof fn changed_rows_are_redrawn(a: RowModel, b: RowModel)
    ensures
        library::unchanged_row(a, b) <==> {
            &&& a.id@ == b.id@
            &&& a.protected == b.protected
            &&& a.all_protected == b.all_protected
            &&& crate::domain::text_view(a.tag) == crate::domain::text_view(b.tag)
            &&& a.correlated_ids@.len() == b.correlated_ids@.len()
            &&& a.date_ms == b.date_ms
        },
        library::unchanged_rows(seq![a], seq![b]) <==> library::unchanged_row(a, b),
        !library::unchanged_rows(seq![a], seq![]),
{
    assert(seq![a][0] == a && seq![b][0] == b);
}

/// One is one recording, and any other number several.
pub proof fn numbers_agree_with_their_noun(count: nat)
    ensures
        library::plural_word(1).len() == 0,
        count != 1 ==> library::plural_word(count) == "s"@,
{
    reveal_strlit("");
}

/// The problems on the card are rebuilt exactly where they changed, and then
/// show what the snapshot holds.
pub proof fn changed_problems_are_rebuilt(
    before: StatusCard,
    snapshot: AppSnapshot,
    now_unix_ms: i64,
    after: StatusCard,
    update: CardUpdate,
)
    requires
        before.changes(snapshot, now_unix_ms, after, update),
    ensures
        update.problems is Some <==> crate::coordinator::problem_views(before.problems@)
            != crate::coordinator::problem_views(snapshot.problems@),
        update.problems matches Some(list) ==> forall|i: int|
            0 <= i < snapshot.problems@.len() ==> (#[trigger] list.rows@[i]).problem
                == snapshot.problems@[i],
        crate::coordinator::problem_views(after.problems@) == crate::coordinator::problem_views(
            snapshot.problems@,
        ),
        update.cloud@ == status::cloud_words(snapshot.cloud),
        update.warnings matches Some(list) ==> text::texts(list@) == status::logging_warnings(
            snapshot.advanced_logging@,
        ),
        text::texts(after.warnings@) == status::logging_warnings(snapshot.advanced_logging@),
{
}

/// The bar counts the rows that are selected, and the question before deleting
/// them names the same number.
pub proof fn selected_rows_are_counted(
    selected: Seq<&RowModel>,
    mutation_pending: bool,
    bar: Option<library::BulkBar>,
    prompt: Option<library::DeletePrompt>,
)
    requires
        library::bars(selected, mutation_pending, bar),
        library::asks_to_delete(selected, prompt),
    ensures
        selected.len() == 0 ==> bar is None && prompt is None,
        selected.len() == 1 ==> (bar matches Some(shown) && shown.count@ == "1 recording selected"@),
        selected.len() > 1 ==> (bar matches Some(shown) && shown.count@ == text::decimal(
            selected.len(),
        ) + " recordings selected"@),
        selected.len() > 0 ==> (prompt matches Some(asked) && text::has_prefix(
            asked.body@,
            "Delete "@ + text::decimal(selected.len()) + " recording"@,
        )),
        bar matches Some(shown) ==> (shown.sensitive <==> !mutation_pending),
{
    reveal_strlit("");
    reveal_strlit("s");
    reveal_strlit(" recording");
    reveal_strlit(" selected");
    reveal_strlit("1 recording selected");
    reveal_strlit(" recordings selected");
    if let Some(shown) = bar {
        if selected.len() == 1 {
            assert(text::decimal(1) =~= seq!['1']);
            assert(shown.count@ =~= "1 recording selected"@);
        } else {
            assert(shown.count@ =~= text::decimal(selected.len()) + " recordings selected"@);
        }
    }
    if let Some(asked) = prompt {
        let head = "Delete "@ + text::decimal(selected.len()) + " recording"@;
        assert(asked.body@.take(head.len() as int) =~= head);
    }
}

} // verus!
