//! The coordinator: what it decides about captures, media, uploads and
//! settings.
use std::sync::Arc;

use warcraft_recorder::activity::{ActivityEvent, RecordingDraft};
use warcraft_recorder::capture::{ActivityEffect, BeginDecision, RecorderReaction};
use warcraft_recorder::commands::{CommandEffect, EntryUpdate};
use warcraft_recorder::config::{
    AuthorizedPath, Config, ConfigError, FlavorConfig, ValidationProblem, SYNC_DIRECTORY,
};
use warcraft_recorder::configure::{ConfigChanges, InterfaceChange};
use warcraft_recorder::coordinator::{
    clear_recovered_capture_problems, ClipRange, Command, Coordinator,
    CAPTURE_RESTART_FAILED_PROBLEM, CAPTURE_STOPPED_PROBLEM, COMMAND_BATCH, MAX_PROBLEMS,
    MAX_UPLOAD_QUEUE,
};
use warcraft_recorder::domain::{
    ActivityDetails, Category, GameFlavor, LibraryEntry, MediaFacts, MeterData, Outcome, Problem,
    RecorderStatus, RecordingId, RecoveryAction, StorageLimit, TimelineItem, TimelineKind,
    WorkKind, WorkProgress,
};
use warcraft_recorder::index::{
    category_counts, total_bytes, DeleteFailure, DeleteOutcome, DeleteReaction, LimitOutcome,
    LimitReaction,
};
use warcraft_recorder::lifecycle::drain_commands;
use warcraft_recorder::media_jobs::{MediaEvent, MediaJob};
use warcraft_recorder::parser::CombatEvent;
use warcraft_recorder::queues::{Handover, MediaReaction};
use warcraft_recorder::recorder::{
    CaptureArtifacts, RecorderError, RecorderEvent, RecordingMode,
};
use warcraft_recorder::sequence::{
    Batch, BatchStep, Reconfigure, ReconfigureStep, ShutdownStep, StartupStep,
};
use warcraft_recorder::setup::{
    advanced_logging_enabled, capture_root, config_wtf_path, enabled_log_sources, local_clock,
    utc_offset_minutes, Setup,
};
use warcraft_recorder::snapshot::PublishStep;
use warcraft_recorder::test_recording::test_events;
use warcraft_recorder::upload::{UploadAction, UploadEvent};

#[test]
fn recovered_capture_problems_are_removed_without_touching_other_problems() {
    let preserved = Problem {
        summary: "The capture target could not be saved.".to_owned(),
        safe_detail: Some("disk full".to_owned()),
        occurred_unix_ms: 42,
        recovery_action: Some(RecoveryAction::ReselectCaptureTarget),
    };
    let mut problems = vec![
        Problem {
            summary: CAPTURE_STOPPED_PROBLEM.to_owned(),
            safe_detail: None,
            occurred_unix_ms: 1,
            recovery_action: Some(RecoveryAction::ReselectCaptureTarget),
        },
        Problem {
            summary: CAPTURE_RESTART_FAILED_PROBLEM.to_owned(),
            safe_detail: None,
            occurred_unix_ms: 2,
            recovery_action: Some(RecoveryAction::ReselectCaptureTarget),
        },
        Problem {
            summary: CAPTURE_RESTART_FAILED_PROBLEM.to_owned(),
            safe_detail: None,
            occurred_unix_ms: 3,
            recovery_action: Some(RecoveryAction::ReselectCaptureTarget),
        },
        preserved.clone(),
    ];

    assert!(clear_recovered_capture_problems(&mut problems));
    assert_eq!(problems, vec![preserved]);
    assert!(!clear_recovered_capture_problems(&mut problems));
}

#[test]
fn test_recording_exercises_damage_taken_and_death_log() {
    let (events, _) = test_events(Category::MythicPlus, 0, 4_000).unwrap();
    assert_eq!(
        events
            .iter()
            .filter(|event| matches!(
                event.event,
                CombatEvent::Damage {
                    ref dest_guid,
                    ..
                } if dest_guid == "Player-1092-0B80F204"
            ))
            .count(),
        3
    );
    assert_eq!(
        events
            .iter()
            .filter(|event| matches!(event.event, CombatEvent::Heal { .. }))
            .count(),
        3
    );
    assert!(matches!(
        events.last().map(|event| &event.event),
        Some(CombatEvent::UnitDied { .. })
    ));
}

#[test]
fn only_categories_with_a_combat_log_have_a_test_recording() {
    for category in [
        Category::TwoVTwo,
        Category::ThreeVThree,
        Category::Raids,
        Category::Battlegrounds,
    ] {
        assert!(test_events(category, 0, 4_000).is_some(), "{category:?}");
    }
    assert!(test_events(Category::Clip, 0, 4_000).is_none());
    assert!(test_events(Category::Manual, 0, 4_000).is_none());
}

fn ready_config() -> Config {
    let mut config = Config::default();
    config.storage.recording_dir = AuthorizedPath::authorized("/recordings");
    config.flavors.retail = FlavorConfig {
        enabled: true,
        log_dir: AuthorizedPath::authorized("/wow/_retail_/Logs"),
    };
    config
}

fn ready() -> Coordinator {
    let mut coordinator = Coordinator::new(Ok(ready_config()), true, 0);
    assert!(coordinator.validate_setup());
    coordinator.arm_finished(Ok(()), true, 0);
    coordinator
}

fn draft(id: &str, started_at_ms: i64) -> RecordingDraft {
    RecordingDraft {
        id: RecordingId::from_media_name(id),
        category: Category::Raids,
        flavor: GameFlavor::Retail,
        started_at_ms,
        overrun_ms: 5_000,
        details: ActivityDetails::Manual,
        player: None,
        combatants: Vec::new(),
        timeline: Vec::new(),
        outcome: None,
        ended_at_ms: None,
        duration_ms: None,
        title: Some("Boss".to_owned()),
        activity_hash: None,
        meter: MeterData::default(),
    }
}

fn entry(id: &str, category: Category) -> LibraryEntry {
    LibraryEntry {
        id: RecordingId::from_media_name(id),
        media_path: format!("/recordings/{id}.mp4"),
        sidecar_path: format!("/recordings/{id}.json"),
        category,
        flavor: GameFlavor::Retail,
        title: id.to_owned(),
        start_unix_ms: 0,
        duration_ms: 60_000,
        outcome: Outcome::Win,
        protected: false,
        tag: None,
        activity_hash: None,
        player: None,
        combatants: Vec::new(),
        details: ActivityDetails::Manual,
        timeline: Vec::new(),
        media: MediaFacts {
            fps: None,
            width: None,
            height: None,
            codec: None,
            has_content: true,
        },
        meter: MeterData::default(),
    }
}

fn with_library(coordinator: &mut Coordinator, ids: &[&str]) {
    let entries = ids
        .iter()
        .map(|id| Arc::new(entry(id, Category::Raids)))
        .collect();
    coordinator.library_changed(Arc::new(entries), Arc::new(Vec::new()), 1_024);
}

fn start_recording(coordinator: &mut Coordinator, id: &str, now_ms: i64) {
    let effect = coordinator.apply(
        ActivityEvent::Begin {
            draft: Box::new(draft(id, now_ms - 2_000)),
            detected_at_ms: now_ms,
        },
        now_ms,
    );
    match effect {
        ActivityEffect::Start(start) => {
            assert!(coordinator.capture_started(start, Ok(now_ms), now_ms).is_none());
        }
        _ => panic!("expected a capture to start"),
    }
}

#[test]
fn an_activity_is_recorded_from_its_beginning_to_its_overrun() {
    let mut coordinator = ready();
    assert!(matches!(coordinator.status(), RecorderStatus::Ready));
    start_recording(&mut coordinator, "a", 10_000);
    assert!(matches!(
        coordinator.status(),
        RecorderStatus::Recording { manual: false, .. }
    ));
    let id = RecordingId::from_media_name("a");
    coordinator.apply(
        ActivityEvent::Update {
            id: id.clone(),
            item: TimelineItem::point(TimelineKind::Death, 100, None, None, None),
        },
        11_000,
    );
    assert_eq!(
        coordinator.capture.active.as_ref().map(|active| active.draft.timeline.len()),
        Some(1)
    );
    coordinator.apply(
        ActivityEvent::Finished {
            id: id.clone(),
            known: None,
        },
        19_000,
    );
    assert!(matches!(
        coordinator.status(),
        RecorderStatus::Recording { .. }
    ));
    coordinator.apply(
        ActivityEvent::Finished {
            id,
            known: Some(Box::new(draft("a", 8_000))),
        },
        20_000,
    );
    assert!(matches!(
        coordinator.status(),
        RecorderStatus::Overrunning { .. }
    ));
    assert!(coordinator.due_end(24_999).is_none());
    let ended = coordinator.due_end(25_000).expect("the overrun is over");
    assert!(!coordinator.end_requested(ended, Ok(()), 25_000));
    assert!(matches!(
        coordinator.status(),
        RecorderStatus::Finalizing { .. }
    ));
    let resolved = coordinator.capture_ended(
        Some(CaptureArtifacts {
            replay: None,
            regular: "/b/regular.mp4".to_owned(),
            requested_replay_ms: 0,
            regular_started_at_ms: 10_000,
            regular_stopped_at_ms: 25_000,
        }),
        26_000,
    );
    assert!(!resolved.sweep);
    assert!(resolved.start.is_none());
    let job = coordinator.dispatch_media().expect("a finalization is queued");
    assert_eq!(job.kind(), WorkKind::Finalize);
    coordinator.media_handed_over(WorkKind::Finalize, Handover::Sent, 26_000);
    assert!(coordinator.dispatch_media().is_none());
}

#[test]
fn the_replay_asked_for_fits_the_buffer() {
    let mut coordinator = ready();
    match coordinator.begin(draft("a", 0), 1_000_000_000) {
        BeginDecision::Start(start) => {
            assert_eq!(start.request.requested_replay_ms, 180_000);
            assert_eq!(start.request.mode, RecordingMode::Automatic);
        }
        _ => panic!("expected a start"),
    }
    match coordinator.begin(draft("a", 10_000), 12_500) {
        BeginDecision::Start(start) => assert_eq!(start.request.requested_replay_ms, 2_500),
        _ => panic!("expected a start"),
    }
}

#[test]
fn an_activity_waits_for_the_previous_capture() {
    let mut coordinator = ready();
    start_recording(&mut coordinator, "a", 10_000);
    let id = RecordingId::from_media_name("a");
    coordinator.apply(
        ActivityEvent::Finished {
            id,
            known: Some(Box::new(draft("a", 8_000))),
        },
        20_000,
    );
    let ended = coordinator.due_end(30_000).expect("over");
    coordinator.end_requested(ended, Ok(()), 30_000);
    assert!(matches!(
        coordinator.begin(draft("b", 29_000), 30_500),
        BeginDecision::Deferred
    ));
    let resolved = coordinator.capture_ended(None, 31_000);
    let start = resolved.start.expect("the held-back capture starts");
    assert_eq!(start.request.id.as_str(), "b");
}

#[test]
fn commands_are_refused_while_a_recording_is_in_flight() {
    let mut coordinator = ready();
    start_recording(&mut coordinator, "a", 10_000);
    let fresh = || RecordingId::from_media_name("fresh");
    for command in [
        Command::Arm,
        Command::Disarm,
        Command::ReselectCaptureTarget,
        Command::StartManual,
        Command::RunTest {
            category: Category::Raids,
        },
        Command::SaveConfig {
            draft: Box::new(ready_config()),
        },
    ] {
        let before = coordinator.problems.len();
        let effect = coordinator.handle_command(command, fresh(), 4_000, 11_000);
        assert!(matches!(effect, CommandEffect::Nothing));
        assert_eq!(coordinator.problems.len(), (before + 1).min(MAX_PROBLEMS));
    }
    match coordinator.handle_command(Command::ForceEnd, fresh(), 4_000, 12_000) {
        CommandEffect::ForceEnd(end) => {
            assert_eq!(end.flavor, GameFlavor::Retail);
            assert_eq!(end.at_ms, 12_000);
        }
        _ => panic!("expected the activity to be ended"),
    }
}

#[test]
fn idle_commands_are_taken_up() {
    let mut coordinator = ready();
    coordinator.config.manual.enabled = true;
    let fresh = || RecordingId::from_media_name("fresh");
    assert!(matches!(
        coordinator.handle_command(Command::Arm, fresh(), 4_000, 1),
        CommandEffect::Arm
    ));
    assert!(matches!(
        coordinator.handle_command(Command::Disarm, fresh(), 4_000, 1),
        CommandEffect::Disarm
    ));
    coordinator.arm_finished(Ok(()), true, 1);
    assert!(matches!(
        coordinator.handle_command(Command::ReselectCaptureTarget, fresh(), 4_000, 1),
        CommandEffect::Reselect
    ));
    match coordinator.handle_command(Command::StartManual, fresh(), 4_000, 5_000) {
        CommandEffect::Start(start) => {
            assert_eq!(start.request.id.as_str(), "fresh");
            assert_eq!(start.request.mode, RecordingMode::Manual);
            coordinator.capture_started(start, Ok(5_000), 5_000);
        }
        _ => panic!("expected a manual recording"),
    }
    assert!(matches!(
        coordinator.handle_command(Command::StopManual, fresh(), 4_000, 6_000),
        CommandEffect::Nothing
    ));
    assert!(coordinator.due_end(6_000).is_some());
}

#[test]
fn a_test_recording_of_a_raid_takes_four_times_as_long() {
    let mut coordinator = ready();
    let raid = coordinator
        .run_test(Category::Raids, 4_000, 100_000)
        .expect("a raid has a test recording");
    assert_eq!(raid.end_ms, 116_000);
    let arena = coordinator
        .run_test(Category::TwoVTwo, 4_000, 100_000)
        .expect("an arena has a test recording");
    assert_eq!(arena.end_ms, 104_000);
    assert!(coordinator.run_test(Category::Manual, 4_000, 100_000).is_none());
    assert_eq!(
        coordinator.problems.last().map(|problem| problem.summary.as_str()),
        Some("That category has no test recording.")
    );
    start_recording(&mut coordinator, "a", 100_000);
    coordinator.test_fed(arena.end_ms, arena.end_event);
    assert!(coordinator.due_test_end(103_999).is_none());
    assert!(coordinator.due_test_end(104_000).is_some());
    assert!(coordinator.due_test_end(200_000).is_none());
}

#[test]
fn library_commands_name_their_recordings() {
    let mut coordinator = ready();
    let fresh = || RecordingId::from_media_name("fresh");
    let ids = || vec![RecordingId::from_media_name("a")];
    match coordinator.handle_command(
        Command::SetProtected {
            ids: ids(),
            value: true,
        },
        fresh(),
        4_000,
        1,
    ) {
        CommandEffect::Update { ids, change } => {
            assert_eq!(ids.len(), 1);
            assert_eq!(change, EntryUpdate::Protected(true));
        }
        _ => panic!("expected an update"),
    }
    match coordinator.handle_command(
        Command::SetTag {
            id: RecordingId::from_media_name("a"),
            tag: "t".to_owned(),
        },
        fresh(),
        4_000,
        1,
    ) {
        CommandEffect::Update { ids, change } => {
            assert_eq!(ids[0].as_str(), "a");
            assert_eq!(change, EntryUpdate::Tag("t".to_owned()));
        }
        _ => panic!("expected an update"),
    }
    assert!(matches!(
        coordinator.handle_command(Command::Delete { ids: ids() }, fresh(), 4_000, 1),
        CommandEffect::Delete { .. }
    ));
}

#[test]
fn clips_and_uploads_are_queued_once() {
    let mut coordinator = ready();
    coordinator.config.cloud.enabled = true;
    coordinator.config.cloud.account = "user".to_owned();
    coordinator.config.cloud.password = "pass".to_owned();
    coordinator.config.cloud.guild = "Loud Farts".to_owned();
    with_library(&mut coordinator, &["a", "b"]);
    let id = RecordingId::from_media_name("a");
    coordinator.queue_clip(
        &ClipRange {
            source: id.clone(),
            start_ms: 0,
            end_ms: 1_000,
        },
        1,
    );
    assert!(matches!(
        coordinator.dispatch_media(),
        Some(MediaJob::CreateClip { .. })
    ));
    coordinator.queue_uploads(&vec![id.clone(), id.clone()], 2);
    assert_eq!(coordinator.uploads.queue.len(), 1);
    let job = coordinator.dispatch_upload().expect("an upload is queued");
    assert!(job.requested);
    let view = Coordinator::start_view(&job);
    coordinator.upload_handed_over(view, Handover::Sent, 3);
    coordinator.queue_upload(&id, UploadAction::Upload, true, 4);
    assert_eq!(coordinator.uploads.queue.len(), 0);
    coordinator.upload_event(
        UploadEvent::Finished {
            id: id.clone(),
            title: "a".to_owned(),
            link: Some("https://l/1".to_owned()),
            link_error: None,
            requested: true,
        },
        5,
    );
    let first = coordinator.uploads.link.as_ref().expect("a link").serial;
    coordinator.queue_upload(&id, UploadAction::ShareLink, true, 6);
    let job = coordinator.dispatch_upload().expect("a link is asked for");
    let view = Coordinator::start_view(&job);
    coordinator.upload_handed_over(view, Handover::Sent, 6);
    coordinator.upload_event(
        UploadEvent::Finished {
            id,
            title: "a".to_owned(),
            link: Some("https://l/2".to_owned()),
            link_error: None,
            requested: true,
        },
        7,
    );
    assert!(coordinator.uploads.link.as_ref().expect("a link").serial > first);
}

#[test]
fn the_upload_queue_and_the_problem_list_stay_bounded() {
    let mut coordinator = ready();
    coordinator.config.cloud.enabled = true;
    coordinator.config.cloud.account = "user".to_owned();
    coordinator.config.cloud.password = "pass".to_owned();
    coordinator.config.cloud.guild = "Loud Farts".to_owned();
    let names: Vec<String> = (0..MAX_UPLOAD_QUEUE + 5).map(|n| format!("r{n}")).collect();
    let borrowed: Vec<&str> = names.iter().map(String::as_str).collect();
    with_library(&mut coordinator, &borrowed);
    let ids: Vec<RecordingId> = names
        .iter()
        .map(|name| RecordingId::from_media_name(name))
        .collect();
    coordinator.queue_uploads(&ids, 1);
    assert_eq!(coordinator.uploads.queue.len(), MAX_UPLOAD_QUEUE);
    for n in 0..20 {
        coordinator.push_problem("p", None, None, n);
    }
    assert_eq!(coordinator.problems.len(), MAX_PROBLEMS);
    assert_eq!(coordinator.problems[MAX_PROBLEMS - 1].occurred_unix_ms, 19);
}

#[test]
fn media_events_move_the_library_on() {
    let mut coordinator = ready();
    with_library(&mut coordinator, &["a"]);
    coordinator.queue_clip(
        &ClipRange {
            source: RecordingId::from_media_name("a"),
            start_ms: 0,
            end_ms: 1_000,
        },
        1,
    );
    let job = coordinator.dispatch_media().expect("a clip is queued");
    coordinator.media_handed_over(job.kind(), Handover::Sent, 1);
    coordinator.media_event(
        MediaEvent::Progress(WorkProgress {
            kind: WorkKind::Clip,
            completed: 5,
            total: Some(10),
        }),
        2,
    );
    assert_eq!(coordinator.media.work.expect("progress").completed, 5);
    match coordinator.media_event(
        MediaEvent::Completed {
            kind: WorkKind::Clip,
            entry: Arc::new(entry("clip", Category::Clip)),
        },
        3,
    ) {
        MediaReaction::Fold { entry, upload } => {
            assert_eq!(entry.id.as_str(), "clip");
            assert!(!upload);
        }
        MediaReaction::Nothing => panic!("expected the clip to be folded in"),
    }
    assert!(coordinator.media.work.is_none());
    assert!(coordinator.media.busy.is_none());
}

#[test]
fn preferences_that_cannot_be_saved_roll_back() {
    let mut coordinator = ready();
    let previous = coordinator
        .change_interface(InterfaceChange::SelectedCategory(Category::Raids))
        .expect("a change");
    assert_eq!(coordinator.config.interface.selected_category, Category::Raids);
    coordinator.interface_saved(
        previous,
        Err(ConfigError::NotFound("/c".to_owned())),
        5,
    );
    assert_eq!(
        coordinator.config.interface.selected_category,
        Category::ThreeVThree
    );
    assert!(coordinator
        .change_interface(InterfaceChange::ReleaseNotesSeen)
        .is_none());
}

#[test]
fn new_settings_say_what_has_to_be_set_up_again() {
    let mut coordinator = ready();
    let mut draft = ready_config();
    draft.capture.fps = 30;
    let pending = coordinator.save_config(draft, 1).expect("usable settings");
    assert!(pending.changes.capture);
    assert!(!pending.changes.storage);
    let changes = coordinator
        .config_saved(pending, Ok(()), 2)
        .expect("the settings are taken over");
    assert_eq!(coordinator.config.capture.fps, 30);
    let work = Reconfigure::start(changes);
    assert_eq!(work.step, ReconfigureStep::Arm);
    let work = work.next(true);
    assert_eq!(work.step, ReconfigureStep::Settle);
    assert_eq!(work.next(true).step, ReconfigureStep::Done);
    let mut unusable = ready_config();
    unusable.capture.fps = 1;
    assert!(coordinator.save_config(unusable, 3).is_none());
    assert_eq!(coordinator.setup_problems.len(), 1);
}

#[test]
fn recorder_events_are_answered() {
    let mut coordinator = ready();
    assert!(matches!(
        coordinator.recorder_event(RecorderEvent::TargetTokenAvailable("t".to_owned()), 1),
        RecorderReaction::SaveToken
    ));
    assert_eq!(
        coordinator.config.capture.capture_target_token.as_deref(),
        Some("t")
    );
    assert!(matches!(
        coordinator.recorder_event(RecorderEvent::TargetTokenAvailable("t".to_owned()), 1),
        RecorderReaction::Nothing
    ));
    start_recording(&mut coordinator, "a", 10_000);
    assert!(matches!(
        coordinator.recorder_event(RecorderEvent::ChildExited { code: Some(1) }, 11_000),
        RecorderReaction::DropActivity {
            flavor: GameFlavor::Retail
        }
    ));
    coordinator.push_recorder_problem(&RecorderError::Busy, 12_000);
    assert!(!coordinator.problems.is_empty());
    coordinator.recorder_event(RecorderEvent::Restarted, 13_000);
    assert!(coordinator
        .problems
        .iter()
        .all(|problem| problem.summary != CAPTURE_STOPPED_PROBLEM));
}

#[test]
fn silence_in_the_log_ends_a_recording() {
    let mut coordinator = ready();
    start_recording(&mut coordinator, "a", 10_000);
    coordinator.note_event(&GameFlavor::Retail, 10_000, 9_000);
    assert!(coordinator.check_data_timeout(20_000).is_none());
    let end = coordinator
        .check_data_timeout(10_000 + 600_001)
        .expect("ten minutes of silence");
    assert_eq!(end.flavor, GameFlavor::Retail);
}

#[test]
fn the_library_is_counted_and_its_limit_enforced() {
    let mut coordinator = ready();
    with_library(&mut coordinator, &["a", "b"]);
    assert_eq!(
        category_counts(&coordinator.library.entries),
        vec![(Category::Raids, 2)]
    );
    assert_eq!(total_bytes(&vec![(1, 2), (3, 4)]), 10);
    assert_eq!(total_bytes(&vec![(u64::MAX, 2)]), u64::MAX);
    assert_eq!(coordinator.limit_to_enforce(), Some(StorageLimit::Gib(50)));
    coordinator.config.storage.limit = StorageLimit::Unlimited;
    assert_eq!(coordinator.limit_to_enforce(), None);
    assert!(matches!(
        coordinator.limit_enforced(LimitOutcome {
            protected_over_limit: true,
            partially_deleted: false,
            evicted: vec![RecordingId::from_media_name("a")],
            remaining_bytes: 7,
        }),
        LimitReaction::Remove(_)
    ));
    assert!(coordinator.library.protected_over_limit);
    let missing = RecordingId::from_media_name("gone");
    assert!(coordinator.selected_entry(&missing, 1).is_none());
    assert_eq!(
        coordinator.problems.last().map(|problem| problem.summary.as_str()),
        Some("A selected recording is no longer in the library.")
    );
}

#[test]
fn limits_survive_being_shown_as_a_number() {
    for limit in [StorageLimit::Unlimited, StorageLimit::Gib(50)] {
        assert_eq!(StorageLimit::from_gib(limit.gib()), limit);
    }
}

#[test]
fn snapshots_go_out_when_something_changed() {
    let mut coordinator = ready();
    assert_eq!(coordinator.publish(false), PublishStep::SendNew);
    let snapshot = coordinator.build_snapshot();
    assert!(matches!(snapshot.status, RecorderStatus::Ready));
    assert_eq!(snapshot.queued_jobs, 0);
    assert!(!snapshot.cloud.configured);
    assert_eq!(coordinator.publish(true), PublishStep::SendUnsent);
    assert_eq!(coordinator.publish(false), PublishStep::Nothing);
}

#[test]
fn a_missing_config_starts_with_defaults_and_a_broken_one_says_so() {
    let missing = Coordinator::new(Err(ConfigError::NotFound("/c".to_owned())), true, 7);
    assert!(missing.problems.is_empty());
    let broken = Coordinator::new(Err(ConfigError::UnresolvedHome), true, 7);
    assert_eq!(
        broken.problems[0].summary,
        "Settings could not be loaded; defaults are in use."
    );
    assert_eq!(broken.problems[0].occurred_unix_ms, 7);
}

#[test]
fn shutdown_is_begun_once_and_hands_over_what_waits() {
    let mut coordinator = ready();
    with_library(&mut coordinator, &["a"]);
    coordinator.queue_clip(
        &ClipRange {
            source: RecordingId::from_media_name("a"),
            start_ms: 0,
            end_ms: 1_000,
        },
        1,
    );
    assert!(coordinator.begin_shutdown());
    assert!(!coordinator.begin_shutdown());
    assert!(coordinator.release_workers().is_empty());
    assert!(!coordinator.uploads.open);
}

#[test]
fn commands_are_drained_in_batches_up_to_the_shutdown() {
    let batch = vec![Command::Arm, Command::Shutdown, Command::Disarm];
    assert_eq!(drain_commands(&batch, false), (1, true));
    let many: Vec<Command> = (0..COMMAND_BATCH).map(|_| Command::Arm).collect();
    assert_eq!(drain_commands(&many, false), (COMMAND_BATCH, false));
}

#[test]
fn the_environment_names_the_directories() {
    let setup = Setup::from_environment(
        &Some("/xdg".to_owned()),
        &Some("/home/a".to_owned()),
        2026,
        120,
    )
    .expect("a home");
    assert!(setup.config_path.starts_with("/xdg/"));
    assert_eq!(setup.media.utc_offset_minutes, 120);
    assert!(matches!(
        Setup::from_environment(&None, &None, 2026, 0),
        Err(ConfigError::UnresolvedHome)
    ));
    assert_eq!(utc_offset_minutes(7_200), 120);
    assert_eq!(local_clock(0, Some((126, 3_600))), (2026, 60));
    assert_eq!(local_clock(1_790_276_105_689, None), (2026, 0));
}

#[test]
fn logs_are_watched_for_the_enabled_flavours() {
    let config = ready_config();
    let sources = enabled_log_sources(&config);
    assert_eq!(sources.len(), 1);
    assert_eq!(sources[0].field, "retail");
    assert_eq!(sources[0].path, "/wow/_retail_/Logs");
    assert_eq!(
        config_wtf_path("/wow/_retail_/Logs").as_deref(),
        Some("/wow/_retail_/WTF/Config.wtf")
    );
    assert!(advanced_logging_enabled("SET advancedCombatLogging \"1\"\n"));
    assert!(!advanced_logging_enabled("SET advancedCombatLogging \"0\"\n"));
    assert!(!advanced_logging_enabled(""));
    assert!(capture_root(&config).starts_with("/recordings"));
}

/// The steps of a reconfiguration in which only the step `failing` fails.
fn reconfigure_steps(
    changes: ConfigChanges,
    failing: Option<ReconfigureStep>,
) -> Vec<ReconfigureStep> {
    let mut work = Reconfigure::start(changes);
    let mut steps = Vec::new();
    while work.step != ReconfigureStep::Done {
        steps.push(work.step);
        work = work.next(Some(work.step) != failing);
    }
    steps
}

#[test]
fn what_changed_is_set_up_before_capture_is_armed() {
    let everything = ConfigChanges {
        logs: true,
        storage: true,
        capture: true,
        limit: true,
    };
    assert_eq!(
        reconfigure_steps(everything, None),
        [
            ReconfigureStep::OpenLogs,
            ReconfigureStep::PrepareStorage,
            ReconfigureStep::Rescan,
            ReconfigureStep::RestartMedia,
            ReconfigureStep::Arm,
            ReconfigureStep::EnforceLimit,
            ReconfigureStep::Settle,
        ]
    );
    for failing in [
        ReconfigureStep::OpenLogs,
        ReconfigureStep::PrepareStorage,
        ReconfigureStep::RestartMedia,
    ] {
        assert_eq!(
            reconfigure_steps(everything, Some(failing)),
            [
                ReconfigureStep::OpenLogs,
                ReconfigureStep::PrepareStorage,
                ReconfigureStep::Rescan,
                ReconfigureStep::RestartMedia,
                ReconfigureStep::Disarm,
                ReconfigureStep::Settle,
            ]
        );
    }
    let only_limit = ConfigChanges {
        logs: false,
        storage: false,
        capture: false,
        limit: true,
    };
    assert_eq!(
        reconfigure_steps(only_limit, None),
        [ReconfigureStep::EnforceLimit, ReconfigureStep::Settle]
    );
}

#[test]
fn startup_arms_only_with_a_usable_setup() {
    let mut step = StartupStep::Validate;
    let mut steps = Vec::new();
    while step != StartupStep::Done {
        steps.push(step);
        step = step.next(true);
    }
    assert_eq!(
        steps,
        [
            StartupStep::Validate,
            StartupStep::Prepare,
            StartupStep::Sweep,
            StartupStep::Rescan,
            StartupStep::EnforceLimit,
            StartupStep::ShowLibrary,
            StartupStep::OpenLogs,
            StartupStep::Arm,
            StartupStep::ShowRecorder,
        ]
    );
    assert_eq!(StartupStep::Validate.next(false), StartupStep::Done);
    assert_eq!(StartupStep::Prepare.next(false), StartupStep::Done);
    assert_eq!(StartupStep::Sweep.next(false), StartupStep::Rescan);
    assert_eq!(
        StartupStep::OpenLogs.next(false),
        StartupStep::ShowRecorder
    );
}

#[test]
fn a_batch_serves_before_every_change() {
    let ids = vec![
        RecordingId::from_media_name("a"),
        RecordingId::from_media_name("b"),
    ];
    let mut batch = Batch::start(ids);
    let mut steps = Vec::new();
    while batch.step != BatchStep::Done {
        steps.push(batch.step);
        batch = batch.next();
    }
    assert_eq!(
        steps,
        [
            BatchStep::Serve,
            BatchStep::Change(0),
            BatchStep::Serve,
            BatchStep::Change(1),
            BatchStep::EnforceLimit,
        ]
    );
    assert_eq!(Batch::start(Vec::new()).step, BatchStep::EnforceLimit);
}

fn artifacts() -> CaptureArtifacts {
    CaptureArtifacts {
        replay: None,
        regular: "/capture/regular/a.mp4".to_owned(),
        requested_replay_ms: 2_000,
        regular_started_at_ms: 10_000,
        regular_stopped_at_ms: 30_000,
    }
}

/// A coordinator whose recorder is writing the recording "a".
fn flushing() -> Coordinator {
    let mut coordinator = ready();
    start_recording(&mut coordinator, "a", 10_000);
    coordinator.apply(
        ActivityEvent::Finished {
            id: RecordingId::from_media_name("a"),
            known: Some(Box::new(draft("a", 8_000))),
        },
        20_000,
    );
    let ended = coordinator.due_end(30_000).expect("over");
    assert!(!coordinator.end_requested(ended, Ok(()), 30_000));
    coordinator
}

#[test]
fn an_ended_recording_is_queued_for_saving() {
    let mut coordinator = flushing();
    let resolved = coordinator.capture_ended(Some(artifacts()), 31_000);
    assert!(!resolved.sweep);
    match coordinator.media.finalizations.front() {
        Some(MediaJob::FinalizeRecording { draft, .. }) => assert_eq!(draft.id.as_str(), "a"),
        _ => panic!("the recording is not queued"),
    }
}

#[test]
fn a_discarded_recording_is_swept_and_not_saved() {
    let mut coordinator = ready();
    start_recording(&mut coordinator, "a", 10_000);
    let effect = coordinator.apply(
        ActivityEvent::Discard {
            id: RecordingId::from_media_name("a"),
        },
        11_000,
    );
    assert!(matches!(effect, ActivityEffect::Cancel { .. }));
    coordinator.cancel_requested(Ok(()), 11_000);
    let resolved = coordinator.capture_ended(Some(artifacts()), 12_000);
    assert!(resolved.sweep);
    assert!(coordinator.media.finalizations.is_empty());
    assert!(coordinator.problems.is_empty());
}

#[test]
fn an_activity_that_ended_while_it_waited_stops_on_its_overrun() {
    let mut coordinator = flushing();
    assert!(matches!(
        coordinator.begin(draft("b", 30_100), 30_200),
        BeginDecision::Deferred
    ));
    let mut done = draft("b", 30_100);
    done.ended_at_ms = Some(30_400);
    coordinator.apply(
        ActivityEvent::Finished {
            id: RecordingId::from_media_name("b"),
            known: Some(Box::new(done)),
        },
        30_500,
    );
    let start = coordinator
        .capture_ended(Some(artifacts()), 31_000)
        .start
        .expect("the held-back capture starts");
    assert_eq!(start.stop_at_ms, Some(35_400));
    assert!(coordinator.capture_started(start, Ok(31_000), 31_000).is_none());
    assert!(coordinator.due_end(35_399).is_none());
    assert!(coordinator.due_end(35_400).is_some());
}

#[test]
fn a_forced_manual_recording_ends_now() {
    let mut coordinator = ready();
    coordinator.config.manual.enabled = true;
    let start = coordinator
        .start_manual(RecordingId::from_media_name("m"), 5_000)
        .expect("a manual recording starts");
    assert!(coordinator.capture_started(start, Ok(5_000), 5_000).is_none());
    assert!(coordinator.force_end(9_000).is_none());
    let draft = coordinator.due_end(9_000).expect("over at once");
    assert_eq!(draft.ended_at_ms, Some(9_000));
    assert_eq!(draft.duration_ms, Some(4_000));
}

#[test]
fn quitting_saves_the_recording_in_flight() {
    let mut coordinator = ready();
    start_recording(&mut coordinator, "a", 10_000);
    assert!(coordinator.begin_shutdown());
    coordinator.stop_now(12_000);
    let draft = coordinator.due_end(12_000).expect("it ends now");
    coordinator.end_requested(draft, Ok(()), 12_000);
    let resolved = coordinator.capture_ended(Some(artifacts()), 12_500);
    assert!(resolved.start.is_none());
    let pending = coordinator.release_workers();
    assert_eq!(pending.len(), 1);
    assert!(matches!(
        &pending[0],
        MediaJob::FinalizeRecording { draft, .. } if draft.id.as_str() == "a"
    ));
}

#[test]
fn recordings_are_saved_before_clips_and_one_job_at_a_time() {
    let mut coordinator = flushing();
    with_library(&mut coordinator, &["x"]);
    coordinator.queue_clip(
        &ClipRange {
            source: RecordingId::from_media_name("x"),
            start_ms: 0,
            end_ms: 1_000,
        },
        30_000,
    );
    assert!(coordinator.dispatch_media().is_none());
    coordinator.capture_ended(Some(artifacts()), 31_000);
    let job = coordinator.dispatch_media().expect("the recording goes first");
    assert_eq!(job.kind(), WorkKind::Finalize);
    coordinator.media_handed_over(WorkKind::Finalize, Handover::Full(job), 31_000);
    assert_eq!(coordinator.media.finalizations.len(), 1);
    let job = coordinator.dispatch_media().expect("the recording is still first");
    assert_eq!(job.kind(), WorkKind::Finalize);
    coordinator.media_handed_over(WorkKind::Finalize, Handover::Sent, 31_000);
    assert!(coordinator.dispatch_media().is_none());
    coordinator.media_event(
        MediaEvent::Cancelled {
            kind: WorkKind::Finalize,
        },
        32_000,
    );
    let job = coordinator.dispatch_media().expect("now the clip");
    assert_eq!(job.kind(), WorkKind::Clip);
}

#[test]
fn a_refused_upload_is_back_in_front() {
    let mut coordinator = ready();
    coordinator.config.cloud.enabled = true;
    coordinator.config.cloud.account = "user".to_owned();
    coordinator.config.cloud.password = "pass".to_owned();
    coordinator.config.cloud.guild = "Loud Farts".to_owned();
    with_library(&mut coordinator, &["a", "b"]);
    for id in ["a", "b", "a"] {
        coordinator.queue_upload(
            &RecordingId::from_media_name(id),
            UploadAction::Upload,
            false,
            1,
        );
    }
    assert_eq!(coordinator.uploads.queue.len(), 2);
    let job = coordinator.dispatch_upload().expect("an upload");
    let view = Coordinator::start_view(&job);
    coordinator.upload_handed_over(view, Handover::Full(job), 2);
    let job = coordinator.dispatch_upload().expect("the same upload");
    assert_eq!(job.entry.id.as_str(), "a");
    assert!(!job.requested);
    let view = Coordinator::start_view(&job);
    coordinator.upload_handed_over(view, Handover::Sent, 3);
    assert!(coordinator.dispatch_upload().is_none());
}

#[test]
fn deletions_are_reported_one_by_one() {
    let mut coordinator = ready();
    with_library(&mut coordinator, &["a", "b"]);
    let ids = vec![
        RecordingId::from_media_name("a"),
        RecordingId::from_media_name("gone"),
        RecordingId::from_media_name("b"),
    ];
    let entries = coordinator.selected_entries(&ids, 1);
    assert_eq!(entries.len(), 2);
    assert_eq!(entries[1].id.as_str(), "b");
    assert_eq!(coordinator.problems.len(), 1);
    assert_eq!(
        coordinator.problems[0].safe_detail.as_deref(),
        Some("gone")
    );
    let reaction = coordinator.entries_deleted(
        DeleteOutcome {
            deleted: vec![RecordingId::from_media_name("a")],
            failures: vec![DeleteFailure {
                id: RecordingId::from_media_name("b"),
                error: "busy".to_owned(),
            }],
            partially_deleted: false,
        },
        2,
    );
    assert!(matches!(reaction, DeleteReaction::Remove(ids) if ids.len() == 1));
    assert_eq!(
        coordinator.problems[1].summary,
        "\"b\" could not be deleted."
    );
    assert!(matches!(
        coordinator.entries_deleted(
            DeleteOutcome {
                deleted: Vec::new(),
                failures: Vec::new(),
                partially_deleted: true,
            },
            3,
        ),
        DeleteReaction::Rescan
    ));
}

#[test]
fn release_notes_are_seen_once_per_version() {
    let mut coordinator = ready();
    coordinator.config.last_seen_version = "1.0.9".to_owned();
    let previous = coordinator
        .change_interface(InterfaceChange::ReleaseNotesSeen)
        .expect("a version not seen before");
    assert_eq!(previous.last_seen_version, "1.0.9");
    assert_eq!(coordinator.config.last_seen_version, "1.0.10");
    coordinator.interface_saved(previous, Ok(()), 1);
    assert!(coordinator
        .change_interface(InterfaceChange::ReleaseNotesSeen)
        .is_none());
}

#[test]
fn uploads_leave_media_jobs_alone() {
    let mut coordinator = ready();
    coordinator.config.cloud.enabled = true;
    coordinator.config.cloud.account = "user".to_owned();
    coordinator.config.cloud.password = "pass".to_owned();
    coordinator.config.cloud.guild = "Loud Farts".to_owned();
    with_library(&mut coordinator, &["a"]);
    let id = RecordingId::from_media_name("a");
    coordinator.queue_upload(&id, UploadAction::Upload, true, 1);
    let job = coordinator.dispatch_upload().expect("an upload");
    let view = Coordinator::start_view(&job);
    coordinator.upload_handed_over(view, Handover::Sent, 2);
    coordinator.queue_clip(
        &ClipRange {
            source: id,
            start_ms: 0,
            end_ms: 1_000,
        },
        3,
    );
    assert!(coordinator.uploads.current.is_some());
    assert!(matches!(
        coordinator.dispatch_media(),
        Some(MediaJob::CreateClip { .. })
    ));
}

#[test]
fn commands_received_before_the_channel_closed_are_handled() {
    let batch = vec![Command::Arm, Command::StopManual, Command::ForceEnd];
    assert_eq!(drain_commands(&batch, true), (3, true));
    assert_eq!(drain_commands(&batch, false), (3, false));
    let quitting = vec![Command::ForceEnd, Command::Shutdown, Command::StopManual];
    assert_eq!(drain_commands(&quitting, true), (1, true));
    assert_eq!(drain_commands(&Vec::new(), true), (0, true));
    assert_eq!(drain_commands(&Vec::new(), false), (0, false));
}

fn failed_step(operation: &'static str) -> ConfigError {
    ConfigError::Io {
        operation,
        path: "/c".to_owned(),
        source: "disk full".to_owned(),
    }
}

#[test]
fn settings_that_reached_the_disk_are_kept_despite_an_error() {
    let mut coordinator = ready();
    coordinator.setup_problems = vec![ValidationProblem {
        field: "flavors",
        message: "an old problem".to_owned(),
    }];
    let seen = coordinator.config.last_seen_version.clone();
    let mut draft = ready_config();
    draft.capture.fps = 30;
    draft.last_seen_version = "0.1".to_owned();
    let pending = coordinator.save_config(draft, 1).expect("usable settings");
    let changes = coordinator
        .config_saved(pending, Err(failed_step(SYNC_DIRECTORY)), 2)
        .expect("the settings are in force");
    assert!(changes.capture);
    assert_eq!(coordinator.config.capture.fps, 30);
    assert_eq!(coordinator.config.last_seen_version, seen);
    assert!(coordinator.setup_problems.is_empty());
    assert_eq!(coordinator.problems.len(), 1);
    assert_eq!(coordinator.problems[0].summary, "Settings could not be saved.");
}

#[test]
fn a_respelled_folder_changes_nothing() {
    let mut coordinator = ready();
    let mut draft = ready_config();
    draft.storage.recording_dir = AuthorizedPath::authorized("//recordings/./");
    draft.flavors.retail.log_dir = AuthorizedPath::authorized("/wow//_retail_/Logs/");
    let pending = coordinator.save_config(draft, 1).expect("usable settings");
    assert_eq!(
        pending.changes,
        ConfigChanges {
            logs: false,
            storage: false,
            capture: false,
            limit: false
        }
    );
    let changes = coordinator
        .config_saved(pending, Ok(()), 2)
        .expect("the settings are taken over");
    assert_eq!(Reconfigure::start(changes).step, ReconfigureStep::Settle);
    let mut moved = ready_config();
    moved.storage.recording_dir = AuthorizedPath::authorized("/recordings/old");
    let pending = coordinator.save_config(moved, 3).expect("usable settings");
    assert!(pending.changes.storage);
    assert!(!pending.changes.logs);
}

#[test]
fn settings_that_did_not_reach_the_disk_are_dropped() {
    let mut coordinator = ready();
    let before = coordinator.config.capture.fps;
    let mut draft = ready_config();
    draft.capture.fps = 30;
    assert_ne!(before, 30);
    let pending = coordinator.save_config(draft, 1).expect("usable settings");
    assert!(coordinator
        .config_saved(pending, Err(failed_step("replace config")), 2)
        .is_none());
    assert_eq!(coordinator.config.capture.fps, before);
    assert_eq!(coordinator.problems.len(), 1);
}

fn shutdown_steps(active: bool, ending: bool, after_end: bool) -> Vec<ShutdownStep> {
    let mut step = ShutdownStep::first(active, ending);
    let mut steps = Vec::new();
    while step != ShutdownStep::Done {
        steps.push(step);
        step = step.next(after_end);
    }
    steps
}

#[test]
fn the_recorder_stops_after_the_end_is_resolved() {
    let rest = [
        ShutdownStep::StopRecorder,
        ShutdownStep::ReleaseWorkers,
        ShutdownStep::JoinMedia,
        ShutdownStep::Sweep,
        ShutdownStep::CollectMedia,
    ];
    let mut all = vec![ShutdownStep::EndCapture, ShutdownStep::AwaitEnd];
    all.extend(rest);
    assert_eq!(shutdown_steps(true, false, true), all);
    assert_eq!(shutdown_steps(false, true, false), all[1..]);
    assert_eq!(shutdown_steps(false, false, false), rest);
    assert_eq!(
        ShutdownStep::EndCapture.next(false),
        ShutdownStep::StopRecorder
    );
    // The wait is bounded: an end that is still open does not repeat it.
    assert_eq!(ShutdownStep::AwaitEnd.next(true), ShutdownStep::StopRecorder);
}
