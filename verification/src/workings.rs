//! How the parts around the recorder behave: its folders and its clock, the
//! workers, the test recordings and the account.
use std::sync::Arc;

use vstd::prelude::*;

use crate::calendar;
use crate::cloud::{CloudClient, CloudError, LinkId, Method, Request};
use crate::cloud;
use crate::config;
use crate::config::ConfigError;
use crate::coordinator::Coordinator;
use crate::coordinator::UploadProgressView;
use crate::domain::{Category, LibraryEntry, WorkKind};
use crate::encoding;
use crate::ffmpeg_run::{FfmpegRun, RunAction, RunEvent, RunStage};
use crate::layout;
use crate::media_jobs;
use crate::media_jobs::{
    ChildWatch, ControlPoll, FfmpegOutcome, JobPoll, MediaControl, MediaEvent, MediaWorker,
    WorkerStep,
};
use crate::parser::CombatEventView;
use crate::queues::Handover;
use crate::sequence::ShutdownStep;
use crate::setup;
use crate::setup::Setup;
use crate::test_recording;
use crate::text;
use crate::transfer::{Putting, Transfer};
use crate::upload::UploadJob;

verus! {

// --- folders and clock ---

/// The configuration lies under the configured root, else under the home
/// directory, and nowhere without either; an empty variable counts as unset.
pub proof fn the_configuration_has_one_place(xdg: Option<String>, home: Option<String>)
    ensures
        xdg matches Some(root) ==> (root@.len() > 0 ==> config::config_root(xdg, home) == Some(
            root@,
        )),
        (xdg matches Some(root) ==> root@.len() == 0) ==> {
            &&& home matches Some(directory) ==> (directory@.len() > 0 ==> config::config_root(
                xdg,
                home,
            ) == Some(text::joined(directory@, ".config"@)))
            &&& (home matches Some(directory) ==> directory@.len() == 0) ==> config::config_root(
                xdg,
                home,
            ) is None
        },
{
}

/// The recorder's data lies beside its configuration, and the setup takes the
/// clock as it is given.
pub proof fn the_setup_suits_its_surroundings(
    xdg: Option<String>,
    home: Option<String>,
    year: i32,
    utc_offset_minutes: i32,
    made: Result<Setup, ConfigError>,
)
    requires
        Setup::suits(xdg, home, year, utc_offset_minutes, made),
    ensures
        made is Ok <==> config::config_root(xdg, home) is Some,
        made matches Ok(s) ==> {
            &&& s.year == year
            &&& s.media.utc_offset_minutes == utc_offset_minutes
            &&& s.media.finalize_grace_ms == 30_000
            &&& s.media.sigint_grace_ms == 2_000
            &&& s.media.poll_interval_ms == 50
            &&& s.poll_interval_ms == 50
            &&& s.test_duration_ms == 5_000
            &&& s.gsr_binary@ == "gpu-screen-recorder"@
            &&& s.media.ffmpeg@ == "ffmpeg"@
            &&& text::parent(s.config_path@) matches Some(directory) ==> s.data_dir@
                == text::joined(directory, "recorder"@)
        },
        made matches Err(error) ==> error is UnresolvedHome,
{
}

/// Without the system's word the clock is that of the instant in UTC;
/// otherwise it is as the system says, with the offset in whole minutes.
pub proof fn the_local_clock_is_the_systems(
    now_ms: i64,
    local: Option<(i32, i64)>,
    clock: (i32, i32),
)
    requires
        local matches Some((years, _)) ==> years <= i32::MAX - 1900,
        setup::is_clock(now_ms, local, clock),
    ensures
        local matches Some((years, seconds)) ==> clock.0 == years + 1900 && (-2_000_000_000
            <= seconds <= 2_000_000_000 ==> {
            &&& seconds >= 0 ==> clock.1 * 60 <= seconds < clock.1 * 60 + 60
            &&& seconds <= 0 ==> clock.1 * 60 - 60 < seconds <= clock.1 * 60
        }),
        local is None ==> clock.1 == 0,
{
}

/// The game's settings lie in the folder `WTF` beside its logs.
pub proof fn the_games_settings_lie_beside_its_logs(
    game: Seq<char>,
    logs: Seq<char>,
    path: Option<String>,
)
    requires
        logs.len() > 0,
        !logs.contains('/'),
        logs != seq!['.'],
        logs != seq!['.', '.'],
        setup::is_wtf_path(text::joined(game, logs), path),
    ensures
        path matches Some(p) && p@ == text::joined(
            text::joined(text::plain_path(game), "WTF"@),
            "Config.wtf"@,
        ),
{
    crate::spelling::files_lie_in_their_directory(game, logs);
}

/// A stamp in local time is that of the instant as the local clock shows it:
/// an offset of some minutes reads like an instant that much later.
pub proof fn stamps_are_in_local_time(epoch_ms: int, utc_offset_minutes: int)
    ensures
        calendar::local_stamp(epoch_ms, utc_offset_minutes) == calendar::local_stamp(
            epoch_ms + utc_offset_minutes * 60_000,
            0,
        ),
        ({
            let seconds = epoch_ms / 1_000 + utc_offset_minutes * 60;
            let date = calendar::date_of(seconds / 86_400);
            &&& calendar::is_date(date)
            &&& 86_400 * calendar::day_number(date) <= seconds < 86_400 * calendar::day_number(date)
                + 86_400
            &&& calendar::local_stamp(epoch_ms, utc_offset_minutes) == text::signed_padded(
                date.0,
                4,
            ) + seq!['-'] + text::padded(date.1 as nat, 2) + seq!['-'] + text::padded(
                date.2 as nat,
                2,
            ) + seq![' '] + text::padded((seconds % 86_400 / 3_600) as nat, 2) + seq!['-']
                + text::padded((seconds % 3_600 / 60) as nat, 2) + seq!['-'] + text::padded(
                (seconds % 60) as nat,
                2,
            )
        }),
{
    let seconds = epoch_ms / 1_000 + utc_offset_minutes * 60;
    assert((epoch_ms + utc_offset_minutes * 60_000) / 1_000 == seconds);
    let date = calendar::date_of(seconds / 86_400);
    calendar::every_day_has_a_date(seconds / 86_400);
    let of_day = seconds % 86_400;
    assert(of_day % 3_600 == seconds % 3_600);
    assert(of_day % 60 == seconds % 60);
    assert(calendar::local_stamp(epoch_ms, utc_offset_minutes) =~= text::signed_padded(date.0, 4)
        + seq!['-'] + text::padded(date.1 as nat, 2) + seq!['-'] + text::padded(date.2 as nat, 2)
        + seq![' '] + text::padded((seconds % 86_400 / 3_600) as nat, 2) + seq!['-']
        + text::padded((seconds % 3_600 / 60) as nat, 2) + seq!['-'] + text::padded(
        (seconds % 60) as nat,
        2,
    ));
}

/// The width of a column is the one that its title was given, and none where
/// it was given none.
pub proof fn columns_have_the_width_they_were_given(
    widths: Seq<(Seq<char>, i32)>,
    title: Seq<char>,
)
    ensures
        layout::width_of(widths, title) matches Some(width) ==> widths.contains((title, width)),
        layout::width_of(widths, title) is None <==> forall|i: int|
            0 <= i < widths.len() ==> (#[trigger] widths[i]).0 != title,
    decreases widths.len(),
{
    if widths.len() > 0 && widths[0].0 != title {
        let rest = widths.skip(1);
        columns_have_the_width_they_were_given(rest, title);
        if let Some(width) = layout::width_of(rest, title) {
            let i = choose|i: int| 0 <= i < rest.len() && rest[i] == (title, width);
            assert(widths[i + 1] == (title, width));
        }
        if forall|i: int| 0 <= i < rest.len() ==> (#[trigger] rest[i]).0 != title {
            assert forall|i: int| 0 <= i < widths.len() implies (#[trigger] widths[i]).0
                != title by {
                if i > 0 {
                    assert(rest[i - 1] == widths[i]);
                }
            }
        }
        if forall|i: int| 0 <= i < widths.len() ==> (#[trigger] widths[i]).0 != title {
            assert forall|i: int| 0 <= i < rest.len() implies (#[trigger] rest[i]).0 != title by {
                assert(rest[i] == widths[i + 1]);
            }
        }
    } else if widths.len() > 0 {
        assert(widths[0] == (title, widths[0].1));
    }
}

// --- the workers ---

/// A lead-in is rounded to the nearest second, half a second up, and is never
/// shorter than one.
pub proof fn lead_ins_are_rounded_to_seconds(requested_ms: u64)
    ensures
        media_jobs::whole_seconds(requested_ms) >= 1,
        requested_ms >= 500 ==> -500 < 1_000 * media_jobs::whole_seconds(requested_ms)
            - requested_ms <= 500,
        requested_ms < 500 ==> media_jobs::whole_seconds(requested_ms) == 1,
{
}

/// A job is run, silence is used to look for a shutdown, and a closed channel
/// ends the worker.
pub proof fn jobs_are_run_as_they_come(poll: JobPoll)
    ensures
        poll matches JobPoll::Job(job) ==> MediaWorker::turn(poll) == WorkerStep::Run(job),
        MediaWorker::turn(poll) is CheckControl <==> poll is Timeout,
        MediaWorker::turn(poll) is Stop <==> poll is Disconnected,
{
}

/// A worker whose control channel is closed shuts down with nothing more to
/// save; one that is asked to takes over what is pending; and silence changes
/// nothing.
pub proof fn a_closed_channel_shuts_the_worker_down(
    before: MediaWorker,
    poll: ControlPoll,
    now_ms: u64,
    after: MediaWorker,
)
    requires
        before.observes(poll, now_ms, after),
    ensures
        poll is Empty ==> after == before,
        !(poll is Empty) ==> after.closing() is Some,
        poll is Disconnected ==> after.pending() == before.pending(),
        after.settings() == before.settings(),
        !(poll is Empty) && before.closing() is None ==> after.closing() == Some(now_ms),
        before.closing() is Some ==> after.closing() == before.closing(),
        before.closing() is None ==> (poll matches ControlPoll::Control(
            MediaControl::Shutdown { pending_finalizations },
        ) ==> after.pending() == before.pending() + pending_finalizations@),
{
    if poll is Disconnected {
        assert(before.pending() + seq![] =~= before.pending());
    }
}

/// A job is reported as completed with its entry, as failed with its message,
/// or else as cancelled.
pub proof fn jobs_are_reported_as_they_went(
    kind: WorkKind,
    outcome: Result<Option<Arc<LibraryEntry>>, String>,
)
    ensures
        media_jobs::event_of(kind, outcome) is Cancelled <==> outcome is Ok && outcome->Ok_0
            is None,
        outcome matches Ok(Some(made)) ==> (media_jobs::event_of(
            kind,
            outcome,
        ) matches MediaEvent::Completed { kind: k, entry } && k == kind && entry == made),
        outcome matches Err(said) ==> (media_jobs::event_of(
            kind,
            outcome,
        ) matches MediaEvent::Failed { kind: k, message } && k == kind && message == said),
{
}

/// A failed run is reported with its message first and the end of its log
/// behind it; any other outcome is reported as it is.
pub proof fn failures_come_with_the_log(
    outcome: FfmpegOutcome,
    log_tail: Seq<char>,
    reported: FfmpegOutcome,
)
    requires
        media_jobs::explains(outcome, log_tail, reported),
    ensures
        !(outcome is Failed) ==> reported == outcome,
        outcome matches FfmpegOutcome::Failed { message } ==> (
        reported matches FfmpegOutcome::Failed { message: said } && text::has_prefix(
            said@,
            message@,
        ) && text::has_suffix(said@, text::trim(log_tail)) && (text::trim(log_tail).len() == 0
            ==> said@ == message@) && (text::trim(log_tail).len() > 0 ==> said@ == message@ + ": "@
            + text::trim(log_tail))),
{
    if let FfmpegOutcome::Failed { message } = outcome {
        if let FfmpegOutcome::Failed { message: said } = reported {
            let tail = text::trim(log_tail);
            assert(said@.take(message@.len() as int) =~= message@);
            assert(said@.skip(said@.len() - tail.len()) =~= tail);
        }
    }
}

/// Of a long log the last bytes are read, and a short one from its start.
pub proof fn the_end_of_the_log_is_read(size: u64)
    ensures
        0 <= media_jobs::tail_start(size) <= size,
        size <= media_jobs::LOG_TAIL_BYTES ==> media_jobs::tail_start(size) == 0,
        size > media_jobs::LOG_TAIL_BYTES ==> size - media_jobs::tail_start(size)
            == media_jobs::LOG_TAIL_BYTES,
{
}

/// FFmpeg is started with the arguments it was given, behind those that send
/// its progress to the file that is watched.
pub proof fn ffmpeg_gets_its_arguments(
    opening: FfmpegRun,
    args: Vec<String>,
    progress: String,
    log: String,
    spawning: RunStage,
    spawn: RunAction,
    watching: RunStage,
    watch: RunAction,
)
    requires
        opening.stage == (RunStage::OpeningLog { args, progress, log }),
        opening.follows(RunEvent::LogOpened(Ok(())), spawning, spawn),
        (FfmpegRun { stage: spawning }).follows(RunEvent::Spawned(Ok(())), watching, watch),
    ensures
        spawn matches RunAction::Spawn { args: all } && {
            &&& all@.len() == args@.len() + 3
            &&& all@[0]@ == "-progress"@
            &&& all@[1]@ == progress@
            &&& all@[2]@ == "-nostats"@
            &&& forall|i: int| 0 <= i < args@.len() ==> (#[trigger] all@[i + 3])@ == args@[i]@
        },
        watch == (RunAction::Watch { progress }),
{
    if let RunAction::Spawn { args: all } = spawn {
        let shown = text::texts(all@);
        let given = text::texts(args@);
        let expected = seq!["-progress"@, progress@, "-nostats"@] + given;
        assert(shown == expected);
        assert(all@.len() == shown.len());
        assert(shown[0] == all@[0]@ && shown[1] == all@[1]@ && shown[2] == all@[2]@);
        assert forall|i: int| 0 <= i < args@.len() implies (#[trigger] all@[i + 3])@
            == args@[i]@ by {
            assert(shown[i + 3] == all@[i + 3]@);
            assert(expected[i + 3] == given[i]);
        }
    }
}

/// What FFmpeg came to is reported as such; only of a failure is the log read
/// first.
pub proof fn what_ffmpeg_came_to_is_reported(
    run: FfmpegRun,
    outcome: FfmpegOutcome,
    next: RunStage,
    action: RunAction,
)
    requires
        run.stage is Watching,
        run.follows(RunEvent::Ended(outcome), next, action),
    ensures
        outcome is Failed ==> (action matches RunAction::ReadLog { path } && path
            == run.stage->Watching_log),
        !(outcome is Failed) ==> (action matches RunAction::Finish { outcome: reported, .. }
            && reported == outcome),
{
}

/// A child that starts during a shutdown is interrupted: a clip at once, and a
/// finalization when its grace is over; without a shutdown none is.
pub proof fn children_of_a_shutdown_are_interrupted(
    worker: MediaWorker,
    kind: WorkKind,
    total_ms: Option<u64>,
    now_ms: u64,
)
    requires
        worker.closing() matches Some(at) ==> at + worker.settings().finalize_grace_ms <= u64::MAX,
    ensures
        ChildWatch::begun(worker, kind, total_ms, now_ms).interrupt_at_ms is Some
            <==> worker.closing() is Some,
        worker.closing() matches Some(at) ==> {
            let watch = ChildWatch::begun(worker, kind, total_ms, now_ms);
            &&& kind == WorkKind::Clip ==> watch.interrupt_at_ms == Some(now_ms)
            &&& kind == WorkKind::Finalize ==> (watch.interrupt_at_ms matches Some(due) && due == at
                + worker.settings().finalize_grace_ms)
        },
        ChildWatch::begun(worker, kind, total_ms, now_ms).total_ms == total_ms,
        ChildWatch::begun(worker, kind, total_ms, now_ms).out_time_ms == 0,
{
}

/// Quitting ends a running capture first, awaits an end that is under way, and
/// otherwise stops the recorder.
pub proof fn quitting_ends_the_capture_first(active: bool, ending: bool)
    ensures
        ShutdownStep::spec_first(active, ending) == ShutdownStep::EndCapture <==> active,
        ShutdownStep::spec_first(active, ending) == ShutdownStep::AwaitEnd <==> !active && ending,
        ShutdownStep::spec_first(active, ending) == ShutdownStep::StopRecorder <==> !active
            && !ending,
{
}

/// A job that the upload thread took is the one that is shown; one that it had
/// no room for is the next again; and without the thread nothing waits.
pub proof fn handed_over_uploads_are_shown(
    before: Coordinator,
    view: UploadProgressView,
    outcome: Handover<UploadJob>,
    now_ms: i64,
    after: Coordinator,
)
    requires
        before.hands_over_upload(view, outcome, now_ms, after),
    ensures
        outcome is Sent ==> after.uploads.current == Some(view) && after.uploads.queue
            == before.uploads.queue && after.dirty,
        outcome matches Handover::Full(job) ==> after.uploads.queue@.len()
            == before.uploads.queue@.len() + 1 && after.uploads.queue@[0] == job
            && after.uploads.current == before.uploads.current,
        outcome is Disconnected ==> after.uploads.queue@.len() == 0 && !after.uploads.open,
{
}

// --- the test recordings ---

/// The test of a category starts and ends an activity of that category: the
/// same match, encounter, zone or keystone, and one that was won.
pub proof fn tests_play_their_category(category: Category, start_ms: int, end_ms: int)
    ensures
        test_recording::test_frame(category, start_ms, end_ms) is Some <==> category
            == Category::TwoVTwo || category == Category::ThreeVThree || category
            == Category::SoloShuffle || category == Category::Raids || category
            == Category::Battlegrounds || category == Category::MythicPlus,
        test_recording::test_frame(category, start_ms, end_ms) matches Some((start, end)) ==> {
            &&& category == Category::TwoVTwo ==> (start matches CombatEventView::ArenaStarted {
                match_type,
                ..
            } && match_type == "2v2"@)
            &&& category == Category::ThreeVThree ==> (
            start matches CombatEventView::ArenaStarted { match_type, .. } && match_type
                == "3v3"@)
            &&& category == Category::SoloShuffle ==> (
            start matches CombatEventView::ArenaStarted { match_type, .. } && match_type
                == "Rated Solo Shuffle"@)
            &&& start is ArenaStarted ==> (end matches CombatEventView::ArenaEnded {
                winning_team_id,
                ..
            } && winning_team_id == 0)
            &&& category == Category::Raids ==> (start matches CombatEventView::EncounterStarted {
                encounter_id: a,
                name: n,
                ..
            } && (end matches CombatEventView::EncounterEnded {
                encounter_id: b,
                name: m,
                success,
                ..
            } && a == b && n == m && success))
            &&& category == Category::Battlegrounds ==> (
            start matches CombatEventView::ZoneChanged { zone_id: a, .. } && (
            end matches CombatEventView::ZoneChanged { zone_id: b, .. } && a != b))
            &&& category == Category::MythicPlus ==> (
            start matches CombatEventView::ChallengeStarted { zone_id: a, .. } && (
            end matches CombatEventView::ChallengeEnded { zone_id: b, success, duration_ms } && a
                == b && success && (0 <= end_ms - start_ms <= i64::MAX ==> duration_ms == end_ms
                - start_ms)))
        },
{
}

/// A test starts with its activity, ends with the ally's death just before the
/// end, and what happens in between happens between the two.
pub proof fn tests_happen_between_start_and_end(
    start: CombatEventView,
    start_ms: int,
    end_ms: int,
)
    requires
        start_ms + 8 <= end_ms,
    ensures
        ({
            let events = test_recording::test_start_events(start, start_ms, end_ms);
            &&& events.len() == 17
            &&& events[0].event == start
            &&& events[0].occurred_at_ms == start_ms
            &&& events.last().event is UnitDied
            &&& events.last().occurred_at_ms == end_ms - 1
            &&& forall|i: int|
                0 <= i < events.len() ==> start_ms <= (#[trigger] events[i]).occurred_at_ms < end_ms
            &&& forall|i: int, j: int|
                #![trigger events[i], events[j]]
                0 <= i < 4 && 4 <= j < events.len() ==> events[i].occurred_at_ms
                    < events[j].occurred_at_ms
        }),
{
    let length = test_recording::test_length(start_ms, end_ms);
    assert(length == end_ms - start_ms);
    let first = test_recording::quarter_ms(start_ms, end_ms, 1);
    let second = test_recording::quarter_ms(start_ms, end_ms, 2);
    let third = test_recording::quarter_ms(start_ms, end_ms, 3);
    assert(start_ms < first < second < third < end_ms - 1);
    let events = test_recording::test_start_events(start, start_ms, end_ms);
    let a = seq![test_recording::retail_event(start, start_ms)];
    let b = test_recording::test_players(start_ms);
    let c = test_recording::quarter_events(first, 1, 1_000_000, 800_000);
    let d = test_recording::quarter_events(second, 2, 1_500_000, 1_100_000);
    let e = test_recording::quarter_events(third, 3, 2_000_000, 1_400_000);
    let f = seq![test_recording::ally_death(end_ms)];
    assert(events == a + b + c + d + e + f);
    assert(a.len() == 1 && b.len() == 3 && c.len() == 4 && d.len() == 4 && e.len() == 4 && f.len()
        == 1);
    assert(events[1] == b[0] && events[2] == b[1] && events[3] == b[2]);
    assert(events[4] == c[0] && events[5] == c[1] && events[6] == c[2] && events[7] == c[3]);
    assert(events[8] == d[0] && events[9] == d[1] && events[10] == d[2] && events[11] == d[3]);
    assert(events[12] == e[0] && events[13] == e[1] && events[14] == e[2] && events[15] == e[3]);
    assert(events[16] == f[0]);
}

// --- the account ---

/// A basic authorization reads back as the user, a colon and the password.
pub proof fn authorizations_hold_user_and_password(user: Seq<char>, password: Seq<char>)
    ensures
        text::has_prefix(encoding::basic_auth_text(user, password), "Basic "@),
        encoding::base64_bytes(encoding::basic_auth_text(user, password).skip(6))
            == vstd::utf8::encode_utf8(user + seq![':'] + password),
{
    reveal_strlit("Basic ");
    reveal_strlit(":");
    let header = encoding::basic_auth_text(user, password);
    let bytes = vstd::utf8::encode_utf8(user + ":"@ + password);
    assert(":"@ =~= seq![':']);
    assert(header.take(6) =~= "Basic "@);
    assert(header.skip(6) =~= encoding::base64_text(bytes));
    encoding::base64_reads_back(bytes);
}

/// A recording is stored under its file's name, and called by it without the
/// ending.
pub proof fn recordings_are_stored_under_their_name(
    entry: LibraryEntry,
    directory: Seq<char>,
    name: Seq<char>,
    key: Result<String, CloudError>,
    called: Result<String, CloudError>,
)
    requires
        name.len() > 0,
        !name.contains('/'),
        name + ".mp4"@ != seq!['.'],
        name + ".mp4"@ != seq!['.', '.'],
        entry.media_path@ == text::joined(directory, name + ".mp4"@),
        cloud::is_key(entry, key),
        cloud::is_name(entry, called),
    ensures
        key matches Ok(k) && k@ == name + ".mp4"@,
        called matches Ok(n) && n@ == name,
{
    reveal_strlit(".mp4");
    let file = name + ".mp4"@;
    assert(!file.contains('/')) by {
        if file.contains('/') {
            let i = choose|i: int| 0 <= i < file.len() && file[i] == '/';
            if i < name.len() {
                assert(name[i] == '/');
                assert(name.contains('/'));
            } else {
                assert(file[i] == ".mp4"@[i - name.len()]);
            }
        }
    }
    crate::spelling::files_lie_in_their_directory(directory, file);
    crate::spelling::endings_come_off(name, ".mp4"@);
}

/// A link is asked for by the recording's name, which reads back from the
/// address, with the account's own authorization.
pub proof fn links_are_asked_for_by_name(
    client: CloudClient,
    entry: LibraryEntry,
    name: Seq<char>,
    request: Result<Request, CloudError>,
)
    requires
        text::file_name(entry.media_path@) == Some(name + ".mp4"@),
        client.asks_for_link(entry, request),
    ensures
        request matches Ok(r) && {
            &&& r.method == Method::Post
            &&& r.authorization == client.auth
            &&& r.body is None
            &&& r.url@ == client.guild_path(
                "/video/"@ + encoding::percent_text(vstd::utf8::encode_utf8(name)) + "/link"@,
            )
        },
        encoding::percent_bytes(encoding::percent_text(vstd::utf8::encode_utf8(name)))
            == vstd::utf8::encode_utf8(name),
{
    crate::spelling::endings_come_off(name, ".mp4"@);
    encoding::percent_encoding_reads_back(vstd::utf8::encode_utf8(name));
}

/// The link that is shown is the one with the id that came back; anything that
/// is no id is refused.
pub proof fn links_end_with_their_id(
    client: CloudClient,
    id: LinkId,
    link: Result<String, CloudError>,
)
    requires
        client.links_to(id, link),
    ensures
        id matches LinkId::Text(given) ==> (link matches Ok(url) && url@ == client.website@
            + "/link/"@ + given@),
        id matches LinkId::Number(given) ==> (link matches Ok(url) && url@ == client.website@
            + "/link/"@ + given@),
        link is Err <==> id is Other,
{
}

/// Progress counts from the start of the whole file: the bytes before the part
/// that is being sent, and those of it that are on their way.
pub proof fn progress_counts_the_whole_file(transfer: Transfer, putting: Putting, sent: u64)
    ensures
        transfer.reported(putting, sent).1 == transfer.size,
        !putting.parts ==> transfer.reported(putting, sent).0 == sent,
        putting.parts ==> transfer.reported(putting, sent).0 == putting.index
            * transfer.client.part_bytes + sent,
{
}

/// The files that were made for a run are the ones it uses: the log is opened
/// and read again, and the progress is watched.
pub proof fn runs_use_their_own_files(
    making: FfmpegRun,
    args: Vec<String>,
    progress: String,
    log: String,
    opening: RunStage,
    open: RunAction,
)
    requires
        making.stage == (RunStage::MakingLog { args, progress }),
        making.follows(RunEvent::FileMade(Ok(log)), opening, open),
    ensures
        open == (RunAction::OpenLog { path: log }),
        opening == (RunStage::OpeningLog { args, progress, log }),
{
}

proof fn lemma_untrimmed(value: Seq<char>)
    requires
        value.len() > 0,
        !text::is_space(value[0]),
        !text::is_space(value.last()),
    ensures
        text::trim(value) == value,
{
}

proof fn lemma_last_blank(head: Seq<char>, word: Seq<char>, end: int)
    requires
        !word.contains(' '),
        head.len() > 0 && head.last() == ' ',
        head.len() <= end <= head.len() + word.len(),
    ensures
        text::after_last(' ', head + word, end) == head.len(),
    decreases end,
{
    let all = head + word;
    if end > head.len() {
        assert(all[end - 1] == word[end - 1 - head.len()]);
        assert(word.contains(word[end - 1 - head.len()]));
        lemma_last_blank(head, word, end - 1);
    } else {
        assert(all[end - 1] == head.last());
    }
}

/// Advanced combat logging is on exactly where the game's setting for it is
/// one: of the lines that set it to a word, only that one turns it on.
pub proof fn only_one_turns_logging_on(value: Seq<char>)
    requires
        !value.contains(' '),
    ensures
        setup::turns_logging_on(
            "SET advancedCombatLogging"@ + seq![' ', '"'] + value + seq!['"'],
        ) <==> value == seq!['1'],
{
    reveal_strlit("SET advancedCombatLogging");
    reveal_strlit("\"1\"");
    let name = "SET advancedCombatLogging"@;
    let head = name + seq![' '];
    let word = seq!['"'] + value + seq!['"'];
    let line = name + seq![' ', '"'] + value + seq!['"'];
    assert(line =~= head + word);
    assert(line[0] == 'S');
    lemma_untrimmed(line);
    assert(!word.contains(' ')) by {
        if word.contains(' ') {
            let i = choose|i: int| 0 <= i < word.len() && word[i] == ' ';
            assert(0 < i < word.len() - 1);
            assert(value[i - 1] == ' ');
            assert(value.contains(' '));
        }
    }
    lemma_last_blank(head, word, line.len() as int);
    assert(line.skip(head.len() as int) =~= word);
    assert(line.take(name.len() as int) =~= name);
    assert("\"1\""@ =~= seq!['"', '1', '"']);
    if value == seq!['1'] {
        assert(word =~= seq!['"', '1', '"']);
    }
    if word == seq!['"', '1', '"'] {
        assert(value.len() == 1);
        assert(value[0] == word[1]);
        assert(value =~= seq!['1']);
    }
}

/// A child that succeeded is done, with all that it wrote; one that was asked
/// to go counts as cancelled, and any other has failed with its status.
pub proof fn children_end_as_they_exited(
    watch: ChildWatch,
    success: bool,
    latest: Option<u64>,
    status: Seq<char>,
    outcome: FfmpegOutcome,
)
    requires
        watch.ends(success, latest, status, outcome),
    ensures
        outcome is Done <==> success,
        outcome is Cancelled <==> !success && watch.interrupt_at_ms is Some,
        outcome is Failed <==> !success && watch.interrupt_at_ms is None,
        outcome matches FfmpegOutcome::Done { out_time_ms } ==> (latest matches Some(ms) ==>
            out_time_ms == ms) && (latest is None ==> out_time_ms == watch.out_time_ms),
        outcome matches FfmpegOutcome::Failed { message } ==> message@ == "FFmpeg exited with "@
            + status,
{
}

} // verus!
