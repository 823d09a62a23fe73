//! What the settings are checked for, and what is watched and recorded with
//! them.
use vstd::prelude::*;

use crate::config;
use crate::config::{
    ActivitySettings, AuthorizedPath, CaptureSettings, CloudSettings, Config, FlavorConfig,
    PathAuthorization,
};
use crate::domain::GameFlavorView;
use crate::setup;
use crate::text;

verus! {

/// The problem of a field is among these.
pub open spec fn complains_about(
    problems: Seq<(Seq<char>, Seq<char>)>,
    field: Seq<char>,
    message: Seq<char>,
) -> bool {
    problems.contains((field, message))
}

/// Capture settings are accepted exactly within their bounds: 15 to 60 frames
/// per second, 1000 to 200000 Kbps, 30 to 600 seconds of replay, at most 30
/// seconds of extra lead-in, and devices that have a name.
pub proof fn capture_settings_have_bounds(capture: CaptureSettings)
    ensures
        config::capture_problems(capture).len() == 0 <==> {
            &&& capture.fps >= 15
            &&& capture.fps <= 60
            &&& capture.bitrate_kbps >= 1_000
            &&& capture.bitrate_kbps <= 200_000
            &&& capture.replay_buffer_seconds >= 30
            &&& capture.replay_buffer_seconds <= 600
            &&& capture.extra_lead_in_seconds <= 30
            &&& text::trim(capture.audio_output@).len() > 0
            &&& capture.audio_input matches Some(device) ==> text::trim(device@).len() > 0
            &&& capture.capture_target_token matches Some(token) ==> token@.len() > 0
        },
{
}

/// A setting that is out of its bounds is the one that is complained about.
pub proof fn the_setting_at_fault_is_named(capture: CaptureSettings)
    ensures
        (capture.fps < 15 || capture.fps > 60) <==> complains_about(
            config::capture_problems(capture),
            "capture.fps"@,
            "FPS must be between 15 and 60."@,
        ),
        (capture.bitrate_kbps < 1_000 || capture.bitrate_kbps > 200_000) ==> complains_about(
            config::capture_problems(capture),
            "capture.bitrate_kbps"@,
            "Bitrate must be between 1000 and 200000 Kbps."@,
        ),
        (capture.replay_buffer_seconds < 30 || capture.replay_buffer_seconds > 600)
            ==> complains_about(
            config::capture_problems(capture),
            "capture.replay_buffer_seconds"@,
            "Replay buffer must be between 30 and 600 seconds."@,
        ),
        capture.extra_lead_in_seconds > 30 ==> complains_about(
            config::capture_problems(capture),
            "capture.extra_lead_in_seconds"@,
            "Extra lead-in must be between 0 and 30 seconds."@,
        ),
        text::trim(capture.audio_output@).len() == 0 ==> complains_about(
            config::capture_problems(capture),
            "capture.audio_output"@,
            "Choose an output-audio device."@,
        ),
{
    text::lemma_members::<(Seq<char>, Seq<char>)>();
    reveal_strlit("capture.fps");
    reveal_strlit("capture.bitrate_kbps");
    reveal_strlit("capture.replay_buffer_seconds");
    reveal_strlit("capture.extra_lead_in_seconds");
    reveal_strlit("capture.audio_output");
    reveal_strlit("capture.audio_input");
    reveal_strlit("capture.capture_target_token");
    assert("capture.fps"@.len() == 11);
}

/// Activity settings are accepted exactly within their bounds: overruns of at
/// most a minute, and a shortest raid of at most 10000 seconds.
pub proof fn activity_settings_have_bounds(activities: ActivitySettings)
    ensures
        config::activity_problems(activities).len() == 0 <==> {
            &&& activities.min_raid_duration_seconds <= 10_000
            &&& activities.raid_overrun_seconds <= 60
            &&& activities.dungeon_overrun_seconds <= 60
        },
{
}

/// A directory is accepted exactly if it is either not chosen and not
/// authorized, or chosen; and only an absolute one can be authorized.
pub proof fn saved_paths_are_consistent(field: Seq<char>, path: AuthorizedPath)
    ensures
        config::path_state_problems(field, path).len() == 0 <==> {
            &&& path.path@.len() == 0 <==> path.authorization == PathAuthorization::Unset
            &&& path.authorization == PathAuthorization::Authorized ==> path.path@.len() > 0
                && path.path@[0] == '/'
        },
        forall|i: int|
            0 <= i < config::path_state_problems(field, path).len() ==> (
            #[trigger] config::path_state_problems(field, path)[i]).0 == field,
{
}

/// What a flavour's folder is asked for: nothing while it is disabled, and
/// otherwise that it is chosen, authorized and, where that is wanted, called
/// `Logs`.
pub proof fn enabled_flavors_need_their_logs(
    field: Seq<char>,
    flavor: FlavorConfig,
    named_logs: bool,
)
    ensures
        config::flavor_problems(field, flavor, named_logs).len() == 0 <==> (!flavor.enabled || {
            &&& flavor.log_dir.path@.len() > 0
            &&& flavor.log_dir.authorization == PathAuthorization::Authorized
            &&& named_logs ==> text::file_name(flavor.log_dir.path@) == Some("Logs"@)
        }),
        config::flavor_problems(field, flavor, named_logs).len() <= 1,
        forall|i: int|
            0 <= i < config::flavor_problems(field, flavor, named_logs).len() ==> (
            #[trigger] config::flavor_problems(field, flavor, named_logs)[i]).0 == field,
{
}

/// Settings that can be recorded with have a place for the recordings (and for
/// the replay, where it is apart), at least one flavour and one kind of
/// activity, and the logs of every flavour that is enabled.
pub proof fn usable_settings_can_record(config: Config)
    requires
        config::usable_problems(config).len() == 0,
    ensures
        config.storage.recording_dir.authorization == PathAuthorization::Authorized,
        config.storage.recording_dir.path@.len() > 0,
        config.storage.separate_buffer_dir ==> config.storage.buffer_dir.authorization
            == PathAuthorization::Authorized && config.storage.buffer_dir.path@.len() > 0,
        config.flavors.retail.enabled || config.flavors.retail_ptr.enabled
            || config.flavors.classic.enabled || config.flavors.classic_ptr.enabled
            || config.flavors.era.enabled,
        config.activities.record_raids || config.activities.record_dungeons
            || config.activities.record_two_v_two || config.activities.record_three_v_three
            || config.activities.record_five_v_five || config.activities.record_skirmish
            || config.activities.record_solo_shuffle || config.activities.record_battlegrounds
            || config.activities.record_challenge_modes,
        config.flavors.retail.enabled ==> config.flavors.retail.log_dir.path@.len() > 0,
        config.flavors.retail_ptr.enabled ==> config.flavors.retail_ptr.log_dir.path@.len() > 0,
        config.flavors.classic.enabled ==> config.flavors.classic.log_dir.path@.len() > 0,
        config.flavors.classic_ptr.enabled ==> config.flavors.classic_ptr.log_dir.path@.len() > 0,
        config.flavors.era.enabled ==> config.flavors.era.log_dir.path@.len() > 0,
{
}

/// Settings with a storable form, the directories that are needed, a flavour
/// with its logs and an activity are usable.
pub proof fn complete_settings_are_usable(config: Config)
    requires
        config::storable_problems(config).len() == 0,
        config.storage.recording_dir.usable(),
        config.storage.separate_buffer_dir ==> config.storage.buffer_dir.usable(),
        config.some_flavor_enabled(),
        config.activities.records_something(),
        !config.validate_log_paths,
        config.flavors.retail.enabled ==> config.flavors.retail.log_dir.usable(),
        config.flavors.retail_ptr.enabled ==> config.flavors.retail_ptr.log_dir.usable(),
        config.flavors.classic.enabled ==> config.flavors.classic.log_dir.usable(),
        config.flavors.classic_ptr.enabled ==> config.flavors.classic_ptr.log_dir.usable(),
        config.flavors.era.enabled ==> config.flavors.era.log_dir.usable(),
    ensures
        config::usable_problems(config).len() == 0,
{
}

/// Uploading is set up exactly if it is turned on and the account, the
/// password and the guild are all there.
pub proof fn uploading_needs_the_whole_account(cloud: CloudSettings)
    ensures
        cloud.configured() <==> {
            &&& cloud.enabled
            &&& text::trim(cloud.account@).len() > 0
            &&& cloud.password@.len() > 0
            &&& text::trim(cloud.guild@).len() > 0
        },
{
}

// --- logs ---

/// The logs of a flavour are watched exactly if it is enabled and its folder
/// is chosen, and as what the flavour is.
pub proof fn enabled_logs_are_watched(config: Config)
    ensures
        (config.flavors.retail.enabled && config.flavors.retail.log_dir.path@.len() > 0)
            ==> setup::log_sources(config).contains(
            ("retail"@, GameFlavorView::Retail, config.flavors.retail.log_dir.path@),
        ),
        (config.flavors.retail_ptr.enabled && config.flavors.retail_ptr.log_dir.path@.len() > 0)
            ==> setup::log_sources(config).contains(
            ("retail_ptr"@, GameFlavorView::Retail, config.flavors.retail_ptr.log_dir.path@),
        ),
        (config.flavors.classic.enabled && config.flavors.classic.log_dir.path@.len() > 0)
            ==> setup::log_sources(config).contains(
            ("classic"@, GameFlavorView::Classic, config.flavors.classic.log_dir.path@),
        ),
        (config.flavors.classic_ptr.enabled && config.flavors.classic_ptr.log_dir.path@.len() > 0)
            ==> setup::log_sources(config).contains(
            ("classic_ptr"@, GameFlavorView::Classic, config.flavors.classic_ptr.log_dir.path@),
        ),
        (config.flavors.era.enabled && config.flavors.era.log_dir.path@.len() > 0)
            ==> setup::log_sources(config).contains(
            ("era"@, GameFlavorView::Era, config.flavors.era.log_dir.path@),
        ),
        setup::log_sources(config).len() == watched(config.flavors.retail) + watched(
            config.flavors.retail_ptr,
        ) + watched(config.flavors.classic) + watched(config.flavors.classic_ptr) + watched(
            config.flavors.era,
        ),
{
    text::lemma_members::<(Seq<char>, GameFlavorView, Seq<char>)>();
}

/// One if a flavour is enabled and its folder is chosen.
pub open spec fn watched(flavor: FlavorConfig) -> nat {
    if flavor.enabled && flavor.log_dir.path@.len() > 0 {
        1
    } else {
        0
    }
}

/// The recorder works in the directory for the replay where that is apart, and
/// in the one for the recordings otherwise.
pub proof fn the_recorder_works_where_it_may(config: Config)
    ensures
        config.storage.separate_buffer_dir ==> setup::root_of(config)
            == config.storage.buffer_dir.path,
        !config.storage.separate_buffer_dir ==> setup::root_of(config)
            == config.storage.recording_dir.path,
{
}

/// Advanced combat logging is on exactly if the game's settings say so on some
/// line: the line that turns it on is found wherever it stands.
pub proof fn logging_is_found_on_any_line(before: Seq<char>, line: Seq<char>, after: Seq<char>)
    requires
        setup::turns_logging_on(line),
        forall|i: int| 0 <= i < line.len() ==> #[trigger] line[i] != '\n',
        before.len() == 0 || before.last() == '\n',
        after.len() == 0 || after[0] == '\n',
    ensures
        setup::logging_turned_on(before + line + after),
    decreases before.len(),
{
    let all = before + line + after;
    if before.len() == 0 {
        assert forall|i: int| 0 <= i < line.len() implies all[i] != '\n' by {
            assert(all[i] == line[i]);
        }
        if after.len() > 0 {
            assert(all[line.len() as int] == after[0]);
        }
        text::lemma_first_index(all, '\n', line.len() as int);
        assert(all.take(line.len() as int) =~= line);
    } else {
        let at = text::first_index(before, '\n');
        lemma_line_end(before);
        assert(forall|i: int| 0 <= i < at ==> all[i] == before[i]);
        assert(all[at] == before[at]);
        text::lemma_first_index(all, '\n', at);
        let rest = before.skip(at + 1);
        if rest.len() > 0 {
            assert(rest.last() == before.last());
        }
        logging_is_found_on_any_line(rest, line, after);
        assert(all.skip(at + 1) =~= rest + line + after);
    }
}

proof fn lemma_line_end(text: Seq<char>)
    requires
        text.len() > 0,
        text.last() == '\n',
    ensures
        0 <= text::first_index(text, '\n') < text.len(),
        text[text::first_index(text, '\n')] == '\n',
        forall|i: int| 0 <= i < text::first_index(text, '\n') ==> text[i] != '\n',
    decreases text.len(),
{
    if text[0] != '\n' {
        let rest = text.skip(1);
        assert(rest.last() == text.last());
        lemma_line_end(rest);
        assert forall|i: int| 0 <= i < text::first_index(text, '\n') implies text[i] != '\n' by {
            if i > 0 {
                assert(text[i] == rest[i - 1]);
            }
        }
    }
}

} // verus!
