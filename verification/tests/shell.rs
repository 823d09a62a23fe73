//! What the shell shows: the status card, the settings dialog and the library.
use std::sync::Arc;

use warcraft_recorder::config::{AuthorizedPath, Config, FlavorConfig, PathAuthorization};
use warcraft_recorder::coordinator::{
    AppSnapshot, CloudView, Command, Coordinator, ShareLinkView, UploadProgressView,
};
use warcraft_recorder::domain::{
    ActivityDetails, Category, CorrelatedActivity, GameFlavor, LibraryEntry, MediaFacts, MeterData,
    Outcome, PlayerSummary, Problem, RecorderStatus, RecordingId, RecoveryAction, StorageLimit,
    WorkKind, WorkProgress,
};
use warcraft_recorder::recorder::AudioDevice;
use warcraft_recorder::text::Place;
use warcraft_recorder::ui::card::StatusCard;
use warcraft_recorder::ui::columns::{columns_for, level_label, result_class, Column};
use warcraft_recorder::ui::library::{
    action_label, bulk_bar, bulk_set_protected, confirm_delete, edit_tag, family_of,
    format_duration, page, raid_difficulty_label, reselection, result_label, row_menu,
    selection_of, share_link, toggle_protect, upload, AffixName, CategoryLabel, Family, Library,
    LibraryPage, RowAction, RowModel, RowNames,
};
use warcraft_recorder::ui::pages::{dialog_pages, is_gated, DialogRow};
use warcraft_recorder::ui::rows::{
    activity_spins, capture_combos, capture_spins, capture_switches, paths, storage_spins,
    ComboSetting, PathSetting, SpinSetting, SwitchSetting,
};
use warcraft_recorder::ui::settings::{
    apply_outcome, audio_model, capture_warning, folder_button, marked_row, path_needs_attention, path_state,
    probe_read_failed, probe_result, row_sensitive, storage_summary, unsafe_reason, ApplyOutcome,
    FeedbackTone, Settings,
};
use warcraft_recorder::ui::status::{
    advanced_logging_warnings, cloud_line, elapsed_label, enabled_flavors, recovery_label,
    shell_action, view, ShellAction, Tone,
};
use warcraft_recorder::ui::suggestions::{suggested, suggestion_list, SuggestionList};
use warcraft_recorder::upload::UploadAction;

fn ready_config() -> Config {
    let mut config = Config::default();
    config.storage.recording_dir = AuthorizedPath::authorized("/recordings");
    config.flavors.retail = FlavorConfig {
        enabled: true,
        log_dir: AuthorizedPath::authorized("/wow/_retail_/Logs"),
    };
    config
}

fn snapshot_of(status: RecorderStatus, config: Config) -> AppSnapshot {
    let mut snapshot = Coordinator::new(Ok(config), false, 0).build_snapshot();
    snapshot.status = status;
    snapshot
}

fn snapshot(status: RecorderStatus) -> AppSnapshot {
    snapshot_of(status, ready_config())
}

// --- status ------------------------------------------------------------------

#[test]
fn force_end_is_visible_only_for_automatic_recording() {
    let recording = |manual, test| RecorderStatus::Recording {
        category: Category::MythicPlus,
        title: "Dungeon".to_owned(),
        started_unix_ms: 1_000,
        manual,
        test,
    };
    assert!(view(&snapshot(recording(false, false))).show_force_end);
    assert!(view(&snapshot(recording(false, true))).show_force_end);
    assert!(!view(&snapshot(recording(true, false))).show_force_end);
    assert!(
        !view(&snapshot(RecorderStatus::Overrunning {
            title: "Dungeon".to_owned(),
            started_unix_ms: 1_000,
        }))
        .show_force_end
    );
}

#[test]
fn advanced_logging_warns_only_when_config_wtf_says_off() {
    let mut snapshot = snapshot_of(RecorderStatus::Ready, Config::default());
    // Read and off, read and on, and unreadable: only the first warns.
    snapshot.advanced_logging = vec![
        ("retail", Some(false)),
        ("classic", Some(true)),
        ("era", None),
    ];
    let warnings = advanced_logging_warnings(&snapshot);
    assert_eq!(warnings.len(), 1);
    assert!(warnings[0].contains("Retail"));
}

#[test]
fn elapsed_format_stays_compact() {
    assert_eq!(elapsed_label(1_000, 61_500), "1:00");
    assert_eq!(elapsed_label(0, 3_661_000), "1:01:01");
    assert_eq!(elapsed_label(5_000, 1_000), "0:00");
}

#[test]
fn every_status_has_its_card() {
    let ready = view(&snapshot(RecorderStatus::Ready));
    assert_eq!(ready.title, "Ready");
    assert_eq!(ready.detail, "Watching combat logs: Retail.");
    assert_eq!(ready.tone, Tone::Ready);
    assert_eq!(ready.tone.css_class(), "tone-ready");
    let setup = view(&snapshot(RecorderStatus::SetupRequired));
    assert_eq!(setup.detail, "Finish setup in Settings.");
    assert_eq!(setup.tone, Tone::Invalid);
    assert_eq!(view(&snapshot(RecorderStatus::WaitingForWow)).title, "Waiting");
    assert!(view(&snapshot(RecorderStatus::Reconfiguring)).show_spinner);
    assert!(view(&snapshot(RecorderStatus::Buffering)).show_spinner);
    let mut saving = snapshot(RecorderStatus::Finalizing {
        title: "Saving recording".to_owned(),
    });
    saving.work = Some(WorkProgress {
        kind: WorkKind::Finalize,
        completed: 1,
        total: Some(3),
    });
    assert_eq!(view(&saving).detail, "Saving recording: 33%");
    saving.work = Some(WorkProgress {
        kind: WorkKind::Finalize,
        completed: u64::MAX,
        total: Some(u64::MAX),
    });
    assert_eq!(view(&saving).detail, "Saving recording: 1%");
    let fatal = view(&snapshot(RecorderStatus::Fatal {
        problem: Problem {
            summary: "Broken.".to_owned(),
            safe_detail: None,
            occurred_unix_ms: 0,
            recovery_action: None,
        },
    }));
    assert_eq!(fatal.detail, "Broken.");
    let overrun = view(&snapshot(RecorderStatus::Overrunning {
        title: "Boss".to_owned(),
        started_unix_ms: 9,
    }));
    assert_eq!(overrun.detail, "Boss: recording a few seconds of aftermath.");
    assert_eq!(overrun.elapsed_anchor_ms, Some(9));
}

#[test]
fn flavours_are_listed_in_config_order() {
    let mut config = ready_config();
    config.flavors.era.enabled = true;
    config.flavors.classic_ptr.enabled = true;
    assert_eq!(enabled_flavors(&config), ["Retail", "Classic PTR", "Era"]);
    assert_eq!(
        view(&snapshot_of(RecorderStatus::Ready, config)).detail,
        "Watching combat logs: Retail, Classic PTR, Era."
    );
}

#[test]
fn one_line_tells_of_the_cloud() {
    let mut snapshot = snapshot(RecorderStatus::Ready);
    assert_eq!(cloud_line(&snapshot), "");
    snapshot.cloud = CloudView {
        configured: true,
        current: Some(UploadProgressView {
            id: RecordingId::from_media_name("a"),
            title: "Boss".to_owned(),
            action: UploadAction::Upload,
            sent: 1,
            total: 4,
        }),
        queued: 2,
        link: None,
    };
    assert_eq!(cloud_line(&snapshot), "Uploading Boss: 25% (2 more queued)");
    snapshot.cloud.current.as_mut().unwrap().total = 0;
    snapshot.cloud.queued = 0;
    assert_eq!(cloud_line(&snapshot), "Uploading Boss");
    snapshot.cloud.current.as_mut().unwrap().action = UploadAction::ShareLink;
    assert_eq!(cloud_line(&snapshot), "Getting a share link for Boss");
    snapshot.cloud.current = None;
    snapshot.cloud.link = Some(ShareLinkView {
        id: RecordingId::from_media_name("a"),
        title: "Boss".to_owned(),
        url: "https://l".to_owned(),
        serial: 1,
        copy: true,
    });
    assert_eq!(cloud_line(&snapshot), "Share link copied: https://l");
    snapshot.cloud.link.as_mut().unwrap().copy = false;
    assert_eq!(cloud_line(&snapshot), "Uploaded Boss: https://l");
}

#[test]
fn recovery_buttons_do_what_they_say() {
    assert_eq!(recovery_label(RecoveryAction::Retry), "Try again");
    assert!(matches!(
        shell_action(RecoveryAction::ReselectCaptureTarget),
        ShellAction::Command(Command::ReselectCaptureTarget)
    ));
    assert!(matches!(
        shell_action(RecoveryAction::OpenLogs),
        ShellAction::OpenLogs
    ));
}

// --- settings ----------------------------------------------------------------

#[test]
fn only_folders_the_user_must_pick_ask_for_attention() {
    let mut config = ready_config();
    // Both required folders are set, and the buffer folder shares the
    // recording folder: nothing to ask for.
    assert!(!path_needs_attention("storage.recording_dir", &config));
    assert!(!path_needs_attention("flavors.retail", &config));
    assert!(!path_needs_attention("storage.buffer_dir", &config));

    // Turning the dependant on exposes it as unset, and only then.
    config.storage.separate_buffer_dir = true;
    assert!(path_needs_attention("storage.buffer_dir", &config));
    config.storage.buffer_dir = AuthorizedPath::authorized("/buffer");
    assert!(!path_needs_attention("storage.buffer_dir", &config));

    // Unset, and imported-but-unauthorized, both ask.
    config.storage.recording_dir = AuthorizedPath::unset();
    assert!(path_needs_attention("storage.recording_dir", &config));
    config.flavors.retail.log_dir = AuthorizedPath {
        path: "/wow/_retail_/Logs".to_owned(),
        authorization: PathAuthorization::ImportedInactive,
    };
    assert!(path_needs_attention("flavors.retail", &config));

    // A flavour that is switched off needs no log folder.
    config.flavors.retail.enabled = false;
    assert!(!path_needs_attention("flavors.retail", &config));
}

#[test]
fn spin_defaults_stay_within_bounds_and_dependency_rows_grey() {
    let config = Config::default();
    // Spin bounds must agree with config validation, so a default always
    // renders inside them.
    for spec in capture_spins()
        .iter()
        .chain(&activity_spins())
        .chain(&storage_spins())
    {
        let value = spec.get(&config);
        assert!(
            (i128::from(spec.min)..=i128::from(spec.max)).contains(&value),
            "{} default {value} outside {}..={}",
            spec.field,
            spec.min,
            spec.max
        );
    }
    // Zero storage limit means Unlimited, not a zero-byte quota.
    let mut unlimited = config.clone();
    storage_spins()[0].set(&mut unlimited, 0);
    assert_eq!(unlimited.storage.limit, StorageLimit::Unlimited);
    assert_eq!(storage_spins()[0].get(&unlimited), 0);
    // Dependency sensitivity greys children without erasing values.
    let mut no_raids = config.clone();
    no_raids.activities.record_raids = false;
    assert!(!row_sensitive("activities.min_raid_difficulty", &no_raids));
    assert!(!row_sensitive("activities.raid_overrun_seconds", &no_raids));
    assert!(row_sensitive("activities.min_keystone_level", &no_raids));
    let mut no_dungeons = config.clone();
    no_dungeons.activities.record_dungeons = false;
    assert!(!row_sensitive(
        "activities.min_keystone_level",
        &no_dungeons
    ));
    assert!(!row_sensitive("storage.buffer_dir", &config));
    let mut separate = config.clone();
    separate.storage.separate_buffer_dir = true;
    assert!(row_sensitive("storage.buffer_dir", &separate));
    assert!(!row_sensitive("manual.sound", &config));
    assert!(!row_sensitive("capture.audio_input", &config));
}

#[test]
fn apply_validates_blocks_unsafe_states() {
    let draft = ready_config();
    match apply_outcome(&draft, None) {
        ApplyOutcome::Save(saved) => {
            assert_eq!(saved.capture, draft.capture);
        }
        _ => panic!("expected save"),
    }

    let mut invalid = ready_config();
    invalid.capture.fps = 61;
    invalid.storage.recording_dir = AuthorizedPath {
        path: "/recordings".to_owned(),
        authorization: PathAuthorization::ImportedInactive,
    };
    let ApplyOutcome::Invalid(problems) = apply_outcome(&invalid, None) else {
        panic!("invalid draft must not save");
    };
    let fields: Vec<_> = problems.iter().map(|problem| problem.field).collect();
    assert!(fields.contains(&"capture.fps"));
    assert!(fields.contains(&"storage.recording_dir"));

    assert!(
        apply_outcome(&draft, Some("while a recording is active"))
            == ApplyOutcome::Blocked("while a recording is active")
    );
}

#[test]
fn unsafe_reason_covers_recording_overrun_finalizing_and_media_work() {
    assert_eq!(unsafe_reason(&snapshot(RecorderStatus::Ready)), None);
    assert_eq!(unsafe_reason(&snapshot(RecorderStatus::WaitingForWow)), None);
    assert!(unsafe_reason(&snapshot(RecorderStatus::Recording {
        category: Category::Raids,
        title: "Boss".to_owned(),
        started_unix_ms: 0,
        manual: false,
        test: false,
    }))
    .is_some());
    assert!(unsafe_reason(&snapshot(RecorderStatus::Overrunning {
        title: "Boss".to_owned(),
        started_unix_ms: 0,
    }))
    .is_some());
    assert!(unsafe_reason(&snapshot(RecorderStatus::Finalizing {
        title: "Saving".to_owned(),
    }))
    .is_some());
    let mut busy = snapshot(RecorderStatus::Ready);
    busy.work = Some(WorkProgress {
        kind: WorkKind::Clip,
        completed: 1,
        total: None,
    });
    assert!(unsafe_reason(&busy).is_some());
    let mut queued = snapshot(RecorderStatus::Ready);
    queued.queued_jobs = 1;
    assert!(unsafe_reason(&queued).is_some());
}

#[test]
fn path_state_reports_reauthorization_and_audio_model_keeps_unavailable() {
    assert_eq!(
        path_state(&AuthorizedPath::unset()),
        ("Not selected".to_owned(), false)
    );
    let (subtitle, reauth) = path_state(&AuthorizedPath {
        path: "/old/Logs".to_owned(),
        authorization: PathAuthorization::ImportedInactive,
    });
    assert!(reauth);
    assert!(subtitle.contains("Permission required"));
    assert!(subtitle.contains("/old/Logs"));
    let (subtitle, reauth) = path_state(&AuthorizedPath::authorized("/new/Logs"));
    assert!(!reauth);
    assert_eq!(subtitle, "/new/Logs");
    // Inconsistent saved state (authorized flag with empty path) still
    // renders as not selected rather than authorized.
    let inconsistent = AuthorizedPath {
        path: String::new(),
        authorization: PathAuthorization::Authorized,
    };
    assert_eq!(path_state(&inconsistent).0, "Not selected");

    let devices = [
        AudioDevice {
            id: "default_output".to_owned(),
            label: "default_output - Default output device".to_owned(),
        },
        AudioDevice {
            id: "device:alpha".to_owned(),
            label: "device:alpha - Speakers".to_owned(),
        },
    ];
    let (model, index) = audio_model(&devices, "device:alpha");
    assert_eq!(model.len(), 2);
    assert_eq!(index, 1);
    let (model, index) = audio_model(&devices, "device:gone");
    assert_eq!(model.len(), 3);
    assert_eq!(index, 2);
    assert_eq!(model[2].label, "device:gone - Unavailable");
}

#[test]
fn rows_show_what_was_set_and_leave_the_others_alone() {
    let mut config = Config::default();
    let fps = SpinSetting::Fps.spec();
    assert_eq!(fps.field, "capture.fps");
    assert_eq!((fps.min, fps.max, fps.step), (15, 60, 1));
    fps.set(&mut config, 30);
    assert_eq!(fps.get(&config), 30);
    assert_eq!(SpinSetting::Bitrate.spec().get(&config), 20_000);
    fps.set(&mut config, -5);
    assert_eq!(fps.get(&config), 0);
    let cursor = capture_switches()[0];
    cursor.set(&mut config, true);
    assert!(cursor.get(&config));
    assert!(!SwitchSetting::ManualEnabled.spec().get(&config));
    let codec = capture_combos()[0];
    assert_eq!(codec.choices(), ["H.264", "HEVC", "AV1"]);
    codec.set(&mut config, 2);
    assert_eq!(codec.get(&config), 2);
    codec.set(&mut config, 9);
    assert_eq!(codec.get(&config), 0);
    let difficulty = ComboSetting::MinRaidDifficulty.spec();
    difficulty.set(&mut config, 3);
    assert_eq!(difficulty.get(&config), 3);
    let retail = paths()[0];
    assert_eq!(retail.title, "Retail");
    retail.set(&mut config, AuthorizedPath::authorized("/wow/Logs"));
    assert_eq!(retail.get(&config).path, "/wow/Logs");
    let enabled = retail.enabled.expect("a flavour can be turned off");
    enabled.set(&mut config, true);
    assert!(enabled.get(&config));
    assert!(PathSetting::RecordingDir.spec().enabled.is_none());
    assert!(PathSetting::RecordingDir.spec().needs_write);
}

#[test]
fn probes_tell_what_failed() {
    assert_eq!(probe_result(None, None), Ok(()));
    assert_eq!(
        probe_result(Some("full".to_owned()), Some("busy".to_owned())),
        Err("The folder cannot be written: full".to_owned())
    );
    assert_eq!(
        probe_result(None, Some("busy".to_owned())),
        Err("The folder cannot be written: busy".to_owned())
    );
    assert_eq!(probe_read_failed("gone"), "The folder cannot be read: gone");
}

#[test]
fn a_confirmed_save_is_reported_and_leaves_nothing_unapplied() {
    let first = snapshot(RecorderStatus::Ready);
    let mut settings = Settings::open(&first, true);
    assert!(!settings.unapplied());
    settings.draft.capture.fps = 30;
    assert!(settings.unapplied());
    let ApplyOutcome::Save(saved) = settings.on_apply() else {
        panic!("expected save");
    };
    let feedback = settings.sent(*saved, 1_000, true);
    assert_eq!(feedback.text, "Applying…");
    let waiting = settings.apply_snapshot(&first);
    assert!(!waiting.apply_sensitive);
    assert!(waiting.feedback.is_none());

    let mut confirmed = snapshot(RecorderStatus::Ready);
    confirmed.config.capture.fps = 30;
    let update = settings.apply_snapshot(&confirmed);
    assert!(update.apply_sensitive);
    let feedback = update.feedback.expect("a report");
    assert_eq!(feedback.text, "Saved.");
    assert_eq!(feedback.tone, FeedbackTone::Success);
    assert!(!settings.unapplied());
}

#[test]
fn a_save_with_problems_or_a_refused_one_says_so() {
    let problem = |summary: &str, at: i64| Problem {
        summary: summary.to_owned(),
        safe_detail: Some("codec".to_owned()),
        occurred_unix_ms: at,
        recovery_action: None,
    };
    let mut settings = Settings::open(&snapshot(RecorderStatus::Ready), true);
    settings.sent(ready_config(), 1_000, true);
    let mut confirmed = snapshot(RecorderStatus::Ready);
    confirmed.problems = vec![
        problem("old", 999),
        problem("The capture settings are not usable.", 1_000),
        problem("second", 1_001),
    ];
    let update = settings.apply_snapshot(&confirmed);
    assert_eq!(
        update.feedback.expect("a report").text,
        "Saved, but with problems:\n• The capture settings are not usable.\n• second"
    );
    assert_eq!(
        capture_warning(&confirmed.problems).as_deref(),
        Some("The capture settings are not usable. codec")
    );

    let mut invalid = ready_config();
    invalid.capture.fps = 61;
    settings.sent(invalid.clone(), 2_000, true);
    let mut refused = snapshot(RecorderStatus::Ready);
    refused.setup_problems = invalid.validate();
    let update = settings.apply_snapshot(&refused);
    assert!(update.mark_problems);
    let feedback = update.feedback.expect("a report");
    assert_eq!(feedback.text, "• FPS must be between 15 and 60.");
    assert_eq!(feedback.tone, FeedbackTone::Error);
    assert_eq!(
        marked_row(
            &vec!["capture.codec", "capture.fps"],
            &refused.setup_problems[0]
        ),
        Some(1)
    );
    let busy = settings.sent(ready_config(), 3_000, false);
    assert_eq!(busy.tone, FeedbackTone::Warning);
    assert!(settings.pending.is_none());
}

#[test]
fn unsafe_states_block_applying() {
    let mut settings = Settings::open(&snapshot(RecorderStatus::Ready), true);
    let update = settings.apply_snapshot(&snapshot(RecorderStatus::Finalizing {
        title: "Saving".to_owned(),
    }));
    assert!(!update.apply_sensitive);
    assert!(!update.gated_sensitive);
    assert!(update
        .feedback
        .expect("a reason")
        .text
        .starts_with("Settings cannot be applied while a recording is being saved."));
}

#[test]
fn audio_and_folder_choices_reach_the_draft() {
    let mut settings = Settings::open(&snapshot(RecorderStatus::Ready), true);
    settings.choose_input("mic".to_owned());
    assert_eq!(settings.draft.capture.audio_input, None);
    settings.switch_input(true, None);
    assert_eq!(
        settings.draft.capture.audio_input.as_deref(),
        Some("default_input")
    );
    settings.choose_input("mic".to_owned());
    assert_eq!(settings.draft.capture.audio_input.as_deref(), Some("mic"));
    settings.switch_input(false, None);
    assert_eq!(settings.draft.capture.audio_input, None);
    settings.choose_output("out".to_owned());
    assert_eq!(settings.draft.capture.audio_output, "out");
    let (shown, error) = settings.choose_folder(PathSetting::BufferDir, "/buffer", Ok(()));
    assert_eq!((shown.as_str(), error), ("/buffer", false));
    assert!(settings.draft.storage.buffer_dir.is_authorized());
    let (shown, error) =
        settings.choose_folder(PathSetting::BufferDir, "/other", Err("denied".to_owned()));
    assert_eq!((shown.as_str(), error), ("denied", true));
    assert_eq!(settings.draft.storage.buffer_dir.path, "/buffer");
    settings.set_tray_available(false);
    assert!(!settings.tray_available);
}

#[test]
fn the_input_row_starts_with_the_default_device() {
    let mut settings = Settings::open(&snapshot(RecorderStatus::Ready), true);
    assert_eq!(settings.shown_input(), "default_input");
    settings.switch_input(true, Some(&"mic".to_owned()));
    assert_eq!(settings.shown_input(), "mic");
}

#[test]
fn folder_buttons_name_what_has_to_be_chosen_again() {
    assert_eq!(folder_button(&AuthorizedPath::unset()), "Select folder…");
    let mut path = AuthorizedPath::authorized("/recordings");
    assert_eq!(folder_button(&path), "Select folder…");
    path.authorization = PathAuthorization::Unset;
    assert_eq!(folder_button(&path), "Select this folder…");
}

#[test]
fn a_folder_written_in_another_way_is_no_edit() {
    let mut settings = Settings::open(&snapshot(RecorderStatus::Ready), true);
    settings.choose_folder(PathSetting::RecordingDir, "/recordings/", Ok(()));
    assert_eq!(settings.draft.storage.recording_dir.path, "/recordings/");
    assert!(!settings.unapplied());
    settings.choose_folder(PathSetting::RecordingDir, "/recordings/new", Ok(()));
    assert!(settings.unapplied());
}

#[test]
fn flavour_rows_have_a_switch_and_storage_rows_none() {
    for row in paths() {
        let is_storage = matches!(
            row.setting,
            PathSetting::RecordingDir | PathSetting::BufferDir
        );
        assert_eq!(row.enabled.is_none(), is_storage);
        if let Some(enabled) = row.enabled {
            assert_eq!(enabled.setting, row.setting);
        }
    }
}

// --- library -----------------------------------------------------------------

fn names() -> RowNames {
    RowNames {
        affixes: vec![AffixName {
            id: 9,
            name: "Tyrannical".to_owned(),
        }],
        categories: vec![CategoryLabel {
            category: Category::MythicPlus,
            label: "Mythic+".to_owned(),
        }],
    }
}

fn entry(id: &str, category: Category, details: ActivityDetails, start: i64) -> LibraryEntry {
    LibraryEntry {
        id: RecordingId::from_media_name(id),
        media_path: format!("/recordings/{id}.mp4"),
        sidecar_path: format!("/recordings/{id}.json"),
        category,
        flavor: GameFlavor::Retail,
        title: format!("title {id}"),
        start_unix_ms: start,
        duration_ms: 61_500,
        outcome: Outcome::Complete,
        protected: id == "a",
        tag: None,
        activity_hash: None,
        player: None,
        combatants: Vec::new(),
        details,
        timeline: Vec::new(),
        media: MediaFacts {
            fps: None,
            width: None,
            height: None,
            codec: None,
            has_content: true,
        },
        meter: MeterData::default(),
    }
}

fn dungeon(upgrade_level: Option<u32>) -> ActivityDetails {
    ActivityDetails::Dungeon {
        zone_id: None,
        dungeon_name: Some("Ara-Kara".to_owned()),
        map_id: None,
        keystone_level: Some(12),
        affixes: vec![9, 10],
        upgrade_level,
    }
}

fn library_snapshot(category: Category) -> AppSnapshot {
    let mut config = ready_config();
    config.interface.selected_category = category;
    let mut snapshot = snapshot_of(RecorderStatus::Ready, config);
    let mut with_player = entry("b", Category::MythicPlus, dungeon(None), 200);
    with_player.player = Some(PlayerSummary {
        guid: None,
        name: "Loudfarts".to_owned(),
        realm: None,
        spec_id: Some(251),
    });
    snapshot.entries = Arc::new(vec![
        Arc::new(entry("a", Category::MythicPlus, dungeon(Some(2)), 100)),
        Arc::new(with_player),
        Arc::new(entry("c", Category::Manual, ActivityDetails::Manual, 300)),
    ]);
    let alone = |id: &str| CorrelatedActivity {
        primary_id: RecordingId::from_media_name(id),
        local_pov_ids: Vec::new(),
    };
    let mut paired = alone("b");
    paired.local_pov_ids = vec![
        RecordingId::from_media_name("a"),
        RecordingId::from_media_name("missing"),
    ];
    snapshot.correlations = Arc::new(vec![alone("a"), paired, alone("c"), alone("gone")]);
    snapshot
}

fn shown(library: &Library) -> Vec<&str> {
    library.rows.iter().map(|row| row.id.as_str()).collect()
}

#[test]
fn a_category_shows_its_activities_newest_first() {
    let mut library = Library::new();
    let update = library.apply(&library_snapshot(Category::MythicPlus), true, &names());
    assert_eq!(update.reset, Some(true));
    assert!(update.replace);
    assert_eq!(shown(&library), ["b", "a"]);
    let row = &library.rows[0];
    assert_eq!(row.details, "Loudfarts");
    assert_eq!(row.result, "Depleted");
    assert_eq!(row.fields.place, "Ara-Kara");
    assert_eq!(row.fields.affixes, "Tyrannical, 10");
    assert_eq!(row.fields.level, 12);
    assert_eq!(row.correlated_ids.len(), 3);
    assert!(!row.all_protected);
    assert_eq!(row.spec_id, Some(251));
    assert_eq!(library.rows[1].details, "title a");
    assert_eq!(library.rows[1].result, "Timed +2");
    assert!(library.rows[1].all_protected);

    let update = library.apply(&library_snapshot(Category::MythicPlus), false, &names());
    assert_eq!((update.reset, update.replace), (None, false));
    let update = library.apply(&library_snapshot(Category::MythicPlus), true, &names());
    assert!(!update.replace);
    let update = library.apply(&library_snapshot(Category::Manual), false, &names());
    assert_eq!(update.reset, Some(true));
    assert_eq!(shown(&library), ["c"]);
    assert_eq!(library.rows[0].fields.kind, "Manual");
}

#[test]
fn rows_of_one_moment_keep_their_order() {
    let mut snapshot = library_snapshot(Category::Raids);
    let ids = ["x", "y", "z"];
    snapshot.entries = Arc::new(
        ids.iter()
            .map(|id| Arc::new(entry(id, Category::Raids, ActivityDetails::Manual, 5)))
            .collect(),
    );
    snapshot.correlations = Arc::new(
        ids.iter()
            .map(|id| CorrelatedActivity {
                primary_id: RecordingId::from_media_name(id),
                local_pov_ids: Vec::new(),
            })
            .collect(),
    );
    let mut library = Library::new();
    library.apply(&snapshot, true, &names());
    assert_eq!(shown(&library), ids);
}

#[test]
fn families_decide_the_columns() {
    assert_eq!(family_of(Category::SoloShuffle), Family::Pvp);
    let titles = |family| -> Vec<&'static str> {
        columns_for(family).into_iter().map(Column::title).collect()
    };
    assert_eq!(
        titles(Family::Raid),
        ["★", "Details", "Encounter", "Result", "Pull", "Difficulty", "Duration", "Date"]
    );
    assert_eq!(
        titles(Family::Dungeon),
        ["★", "Details", "Dungeon", "Result", "Level", "Affixes", "Duration", "Date"]
    );
    assert_eq!(
        titles(Family::Pvp),
        ["★", "Details", "Map", "Result", "Duration", "Date"]
    );
    assert_eq!(
        titles(Family::Clip),
        ["★", "Details", "Type", "Source activity", "Duration", "Date"]
    );
    assert_eq!(
        titles(Family::Manual),
        ["★", "Details", "Type", "Duration", "Date"]
    );
    assert!(Column::Details.expands());
    assert!(!Column::Star.resizable());
}

fn dungeon_rows() -> Vec<RowModel> {
    let mut library = Library::new();
    library.apply(&library_snapshot(Category::MythicPlus), true, &names());
    library.rows
}

#[test]
fn columns_show_and_sort_rows() {
    let rows = dungeon_rows();
    let cell = |column: Column| column.cell_text(&rows[0]);
    assert_eq!(cell(Column::Level).as_deref(), Some("+12"));
    assert_eq!(cell(Column::Duration).as_deref(), Some("1:01"));
    assert_eq!(cell(Column::Pull).as_deref(), Some(""));
    assert_eq!(cell(Column::Star), None);
    assert_eq!(Column::Date.order(&rows[0], &rows[1]), Place::After);
    assert_eq!(Column::Date.order(&rows[1], &rows[0]), Place::Before);
    assert_eq!(Column::Details.order(&rows[0], &rows[1]), Place::Before);
    assert_eq!(Column::Level.order(&rows[0], &rows[1]), Place::Same);
    assert_eq!(result_class(&rows[0]), Some("wr-result-win"));
    assert_eq!(level_label(0), "");
}

#[test]
fn results_and_durations_are_worded() {
    let mut raid = entry(
        "r",
        Category::Raids,
        ActivityDetails::Raid {
            zone_id: None,
            zone_name: None,
            encounter_id: None,
            encounter_name: None,
            difficulty_id: Some(16),
            difficulty: None,
            pull: None,
            boss_percent: None,
        },
        0,
    );
    raid.outcome = Outcome::Win;
    assert_eq!(result_label(&raid), "Kill");
    raid.outcome = Outcome::Loss;
    assert_eq!(result_label(&raid), "Wipe");
    let mut key = entry("k", Category::MythicPlus, dungeon(None), 0);
    key.outcome = Outcome::Abandoned;
    assert_eq!(result_label(&key), "Abandoned");
    assert_eq!(raid_difficulty_label(Some(16), &None), "Mythic");
    assert_eq!(
        raid_difficulty_label(Some(16), &Some("M".to_owned())),
        "M"
    );
    assert_eq!(raid_difficulty_label(None, &Some(String::new())), "");
    assert_eq!(format_duration(3_661_999), "1:01:01");
}

#[test]
fn actions_on_a_selection_reach_every_viewpoint_once() {
    let rows = dungeon_rows();
    let both: Vec<&RowModel> = rows.iter().collect();
    assert!(selection_of(&both).is_none());
    let bar = bulk_bar(&both, false).expect("a selection");
    assert_eq!(bar.count, "2 recordings selected");
    assert_eq!(bar.protect, "Protect");
    assert!(bar.sensitive);
    match bulk_set_protected(&both) {
        Some(Command::SetProtected { ids, value }) => {
            let ids: Vec<&str> = ids.iter().map(RecordingId::as_str).collect();
            assert_eq!(ids, ["b", "a", "missing"]);
            assert!(value);
        }
        _ => panic!("expected a command"),
    }
    let prompt = confirm_delete(&both).expect("a selection");
    assert_eq!(prompt.ids.len(), 3);
    assert!(prompt
        .body
        .starts_with("Delete 2 recordings and their 3 viewpoint files? This permanently"));

    let one: Vec<&RowModel> = vec![&rows[1]];
    let selection = selection_of(&one).expect("a single row");
    assert_eq!(selection.id.as_str(), "a");
    assert_eq!(bulk_bar(&one, true).expect("a row").protect, "Unprotect");
    assert!(bulk_bar(&Vec::new(), false).is_none());
    assert!(bulk_set_protected(&Vec::new()).is_none());
    assert!(confirm_delete(&Vec::new()).is_none());
    assert!(matches!(
        toggle_protect(&rows[1]),
        Command::SetProtected { value: false, .. }
    ));
    match edit_tag(&rows[1], "  progress \n") {
        Command::SetTag { id, tag } => {
            assert_eq!(id.as_str(), "a");
            assert_eq!(tag, "progress");
        }
        _ => panic!("expected a tag"),
    }
    assert!(upload(Vec::new()).is_none());
    assert!(matches!(share_link(&rows[0]), Command::ShareLink { .. }));
}

#[test]
fn menus_offer_the_cloud_only_where_it_is_set_up() {
    assert_eq!(row_menu(false).len(), 4);
    let menu = row_menu(true);
    assert_eq!(menu[2], RowAction::Upload);
    assert_eq!(action_label(menu[0], true), "Unprotect");
    assert_eq!(action_label(menu[3], false), "Copy share link");
}

#[test]
fn surviving_rows_stay_selected() {
    let ids = |list: &[&str]| -> Vec<RecordingId> {
        list.iter()
            .map(|id| RecordingId::from_media_name(id))
            .collect()
    };
    assert_eq!(
        reselection(&ids(&["a", "b", "c"]), &ids(&["c", "a"])),
        [0, 2]
    );
    assert_eq!(reselection(&ids(&["a", "b"]), &ids(&["x"])), [0]);
    assert!(reselection(&Vec::new(), &ids(&["x"])).is_empty());
}

#[test]
fn chips_and_dates_filter_until_the_category_changes() {
    let mut library = Library::new();
    library.apply(&library_snapshot(Category::MythicPlus), true, &names());
    assert!(library.add_chip("Ara-Kara"));
    assert!(!library.add_chip("Ara-Kara"));
    assert!(library.add_chip("+12"));
    library.remove_chip("Ara-Kara");
    assert_eq!(library.chips, ["+12"]);
    assert!(library.apply_date_range(0, 86_400_000, Some(172_800_000)));
    assert_eq!(library.date_range, Some((0, 172_799_999)));
    assert!(!library.apply_date_range(500_000_000, 86_400_000, None));
    assert_eq!(library.date_range, Some((0, 172_799_999)));
    assert!(library.has_filter());
    library.sent(true);
    assert!(library.mutation_pending);
    library.apply(&library_snapshot(Category::Manual), true, &names());
    assert!(!library.has_filter());
    assert!(!library.mutation_pending);
    library.add_chip("x");
    library.clear_filters();
    assert!(!library.has_filter());
    assert_eq!(page(0, 0), LibraryPage::Empty);
    assert_eq!(page(2, 0), LibraryPage::FilteredEmpty);
    assert_eq!(page(2, 1), LibraryPage::Table);
}

#[test]
fn the_status_card_changes_only_what_a_snapshot_changed() {
    let mut card = StatusCard::new();
    let mut first = snapshot(RecorderStatus::Recording {
        category: Category::Raids,
        title: "Boss".to_owned(),
        started_unix_ms: 1_000,
        manual: false,
        test: false,
    });
    first.advanced_logging = vec![("retail", Some(false))];
    first.problems = vec![Problem {
        summary: "Screen capture failed.".to_owned(),
        safe_detail: Some("gone".to_owned()),
        occurred_unix_ms: 5,
        recovery_action: Some(RecoveryAction::OpenLogs),
    }];
    let update = card.apply(&first, 61_000);
    assert!(update.tone_changed);
    assert_eq!(update.elapsed.as_deref(), Some("1:00"));
    assert!(update.start_clock);
    assert_eq!(update.warnings.map(|warnings| warnings.len()), Some(1));
    let problems = update.problems.expect("the problems are new");
    assert_eq!(problems.label, "Problems (1)");
    assert!(problems.shown);
    assert_eq!(problems.rows[0].offer, Some("Open logs"));

    let update = card.apply(&first, 62_000);
    assert!(!update.tone_changed);
    assert!(!update.start_clock);
    assert!(update.warnings.is_none());
    assert!(update.problems.is_none());
    assert_eq!(card.tick(63_000).as_deref(), Some("1:02"));

    let update = card.apply(&snapshot(RecorderStatus::Ready), 64_000);
    assert!(update.tone_changed);
    assert!(update.elapsed.is_none());
    assert!(!update.problems.expect("the problems are gone").shown);
    assert!(card.tick(65_000).is_none());
    assert!(!card.clock_runs);
    card.set_tray_available(false);
    assert!(card.tray_note);
}

#[test]
fn each_label_is_suggested_once() {
    let labels: Vec<String> = ["Mage", "Kill", "Mage", "Wipe", "Kill"]
        .iter()
        .map(|label| label.to_string())
        .collect();
    assert_eq!(suggested(&labels), vec![0, 1, 3]);
    assert!(suggested(&Vec::new()).is_empty());
}

#[test]
fn suggestions_open_only_for_the_focused_search() {
    assert_eq!(suggestion_list(false, true, 3), SuggestionList::Close);
    assert_eq!(suggestion_list(true, true, 0), SuggestionList::Close);
    assert_eq!(suggestion_list(true, true, 3), SuggestionList::Open);
    assert_eq!(suggestion_list(true, false, 3), SuggestionList::Keep);
}

#[test]
fn storage_is_summed_up_in_tenths_of_a_gib() {
    let shown = |used: u64| format!("Currently using {:.1} GiB.", used as f64 / 1_073_741_824.0);
    assert_eq!(storage_summary(0), "Currently using 0.0 GiB.");
    assert_eq!(storage_summary(1_073_741_824), "Currently using 1.0 GiB.");
    // A tie goes to the even tenth.
    assert_eq!(storage_summary(268_435_456), "Currently using 0.2 GiB.");
    assert_eq!(storage_summary(805_306_368), "Currently using 0.8 GiB.");
    assert_eq!(storage_summary(53_687_091), "Currently using 0.0 GiB.");
    assert_eq!(storage_summary(53_687_092), "Currently using 0.1 GiB.");
    let mut used: u64 = 1;
    while used < u64::MAX / 3 {
        for near in [used - 1, used, used + 1, used * 3 / 2] {
            assert_eq!(storage_summary(near), shown(near));
        }
        used = used + used / 4 + 1;
    }
    for quarters in 0..64u64 {
        let used = quarters * 268_435_456;
        assert_eq!(storage_summary(used), shown(used));
    }
    for near in [u64::MAX, u64::MAX - 1_024, u64::MAX - 1_025, 9_007_199_254_740_993] {
        assert_eq!(storage_summary(near), shown(near));
    }
}

#[test]
fn every_setting_has_one_place_in_the_dialog() {
    let pages = dialog_pages();
    let titles: Vec<&str> = pages.iter().map(|page| page.title).collect();
    assert_eq!(titles, ["Capture", "Audio", "Activities", "Storage & interface", "Cloud"]);
    let rows: Vec<DialogRow> = pages
        .iter()
        .flat_map(|page| &page.groups)
        .flat_map(|group| group.rows.clone())
        .collect();
    assert_eq!(rows.len(), 52);
    for row in [
        DialogRow::Spin(SpinSetting::StorageLimit),
        DialogRow::Switch(SwitchSetting::SeparateBuffer),
        DialogRow::Combo(ComboSetting::Codec),
        DialogRow::Path(PathSetting::BufferDir),
        DialogRow::Password,
    ] {
        assert_eq!(rows.iter().filter(|other| **other == row).count(), 1);
    }
    let storage = &pages[3].groups[0];
    assert_eq!(storage.title, "Storage");
    assert_eq!(storage.description, None);
    assert_eq!(
        storage.rows,
        [
            DialogRow::Path(PathSetting::RecordingDir),
            DialogRow::Switch(SwitchSetting::SeparateBuffer),
            DialogRow::Path(PathSetting::BufferDir),
            DialogRow::Spin(SpinSetting::StorageLimit),
            DialogRow::ProtectedNote,
        ]
    );
    assert_eq!(rows.iter().filter(|row| is_gated(**row)).count(), 9);
    assert!(!is_gated(DialogRow::Guild));
}
