//! The configuration: validation, paths and how it is stored.
use warcraft_recorder::config::{
    config_path_from_values, map_read_error, AuthorizedPath, Config, ConfigError, FlavorConfig,
    PathAuthorization, ValidationProblem, WriteStep, APP_ID, CONFIG_FILENAME,
};
use warcraft_recorder::config_write::{ConfigWrite, WriteAction, WriteEvent};

fn ready_config() -> Config {
    let mut config = Config::default();
    config.storage.recording_dir = AuthorizedPath::authorized("/recordings");
    config.flavors.retail = FlavorConfig {
        enabled: true,
        log_dir: AuthorizedPath::authorized("/games/wow/_retail_/Logs"),
    };
    config
}

fn disable_automatic_activities(config: &mut Config) {
    config.activities.record_raids = false;
    config.activities.record_dungeons = false;
    config.activities.record_two_v_two = false;
    config.activities.record_three_v_three = false;
    config.activities.record_five_v_five = false;
    config.activities.record_skirmish = false;
    config.activities.record_solo_shuffle = false;
    config.activities.record_battlegrounds = false;
    config.activities.record_challenge_modes = false;
}

#[test]
fn validation_reports_every_constraint_in_stable_field_order() {
    // Rules the ordered assertion below does not already exercise.
    type Mutation = Box<dyn Fn(&mut Config)>;
    let cases: Vec<(&str, Mutation)> = vec![
        (
            "storage.recording_dir",
            Box::new(|config| config.storage.recording_dir = AuthorizedPath::unset()),
        ),
        (
            "storage.recording_dir",
            Box::new(|config| {
                config.storage.recording_dir.authorization = PathAuthorization::Unset
            }),
        ),
        (
            "storage.recording_dir",
            Box::new(|config| {
                config.storage.recording_dir = AuthorizedPath::authorized("recordings")
            }),
        ),
        (
            "storage.buffer_dir",
            Box::new(|config| {
                config.storage.separate_buffer_dir = true;
                config.storage.buffer_dir = AuthorizedPath::unset();
            }),
        ),
        (
            "flavors.retail",
            Box::new(|config| config.flavors.retail.log_dir = AuthorizedPath::unset()),
        ),
        (
            "flavors.retail",
            Box::new(|config| {
                config.flavors.retail.log_dir = AuthorizedPath::authorized("/wow/Data")
            }),
        ),
        (
            "capture.audio_input",
            Box::new(|config| config.capture.audio_input = Some(String::new())),
        ),
        (
            "capture.capture_target_token",
            Box::new(|config| config.capture.capture_target_token = Some(String::new())),
        ),
    ];

    for (expected_field, mutate) in cases {
        let mut config = ready_config();
        mutate(&mut config);
        let problems = config.validate();
        assert!(
            problems
                .iter()
                .any(|problem| problem.field == expected_field && !problem.message.is_empty()),
            "missing field-specific validation for {expected_field}: {problems:?}"
        );
    }

    let mut config = Config {
        version: 99,
        ..Config::default()
    };
    config.storage.recording_dir = AuthorizedPath {
        path: "/recordings#old".to_owned(),
        authorization: PathAuthorization::ImportedInactive,
    };
    config.storage.separate_buffer_dir = true;
    config.storage.buffer_dir = AuthorizedPath {
        path: "/recordings#old".to_owned(),
        authorization: PathAuthorization::ImportedInactive,
    };
    config.capture.fps = 14;
    config.capture.bitrate_kbps = 999;
    config.capture.replay_buffer_seconds = 29;
    config.capture.extra_lead_in_seconds = 31;
    config.capture.audio_output.clear();
    config.activities.min_raid_duration_seconds = 10_001;
    config.activities.raid_overrun_seconds = 61;
    config.activities.dungeon_overrun_seconds = 61;
    config.flavors.retail = FlavorConfig {
        enabled: true,
        log_dir: AuthorizedPath {
            path: "/games/wow/_retail_/Logs".to_owned(),
            authorization: PathAuthorization::ImportedInactive,
        },
    };
    disable_automatic_activities(&mut config);

    let fields: Vec<_> = config
        .validate()
        .into_iter()
        .map(|problem| problem.field)
        .collect();
    assert_eq!(
        fields,
        [
            "version",
            "capture.fps",
            "capture.bitrate_kbps",
            "capture.replay_buffer_seconds",
            "capture.extra_lead_in_seconds",
            "capture.audio_output",
            "activities.min_raid_duration_seconds",
            "activities.raid_overrun_seconds",
            "activities.dungeon_overrun_seconds",
            "storage.recording_dir",
            "storage.buffer_dir",
            "flavors.retail",
            "activities",
        ]
    );

    let mut single_path_problem = ready_config();
    single_path_problem.flavors.classic.log_dir = AuthorizedPath {
        path: "/games/wow/_classic_/Logs".to_owned(),
        authorization: PathAuthorization::Unset,
    };
    assert_eq!(
        single_path_problem
            .persistence_problems()
            .iter()
            .filter(|problem| problem.field == "flavors.classic")
            .count(),
        1,
        "each saved flavor path state is validated exactly once"
    );
}

#[test]
fn config_paths_follow_nonempty_xdg_then_home() {
    assert_eq!(
        config_path_from_values(&Some("/xdg".to_owned()), &Some("/home/a".to_owned()))
            .expect("xdg config path"),
        format!("/xdg/{APP_ID}/{CONFIG_FILENAME}")
    );
    assert_eq!(
        config_path_from_values(&Some(String::new()), &Some("/home/a".to_owned()))
            .expect("home config path"),
        format!("/home/a/.config/{APP_ID}/{CONFIG_FILENAME}")
    );
    assert!(matches!(
        config_path_from_values(&None, &None),
        Err(ConfigError::UnresolvedHome)
    ));
}

#[test]
fn defaults_are_storable_and_not_yet_usable() {
    let config = Config::default();
    assert!(config.persistence_problems().is_empty());
    let fields: Vec<&str> = config
        .validate()
        .iter()
        .map(|problem| problem.field)
        .collect();
    assert_eq!(fields, ["storage.recording_dir", "flavors"]);
    assert!(ready_config().validate().is_empty());
    assert_eq!(config.last_seen_version, warcraft_recorder::VERSION);
}

#[test]
fn a_config_is_loaded_and_saved_only_if_it_is_storable() {
    assert!(Config::load(ready_config()).is_ok());
    let plan = ready_config()
        .save("/home/a/.config/app/config.json")
        .expect("a storable config");
    assert_eq!(plan.directory, "/home/a/.config/app");
    assert_eq!(plan.path, "/home/a/.config/app/config.json");
    assert_eq!(
        plan.temporary_path().expect("a file name"),
        "/home/a/.config/app/config.json.tmp"
    );

    let mut invalid = ready_config();
    invalid.capture.fps = 240;
    match invalid.save("/home/a/.config/app/config.json") {
        Err(ConfigError::Validation(problems)) => {
            assert_eq!(problems.len(), 1);
            assert_eq!(problems[0].field, "capture.fps");
        }
        _ => panic!("invalid save must fail"),
    }
    let mut invalid = ready_config();
    invalid.capture.fps = 240;
    assert!(matches!(
        Config::load(invalid),
        Err(ConfigError::Validation(_))
    ));
    assert!(matches!(
        ready_config().save("/"),
        Err(ConfigError::Io { .. })
    ));
}

#[test]
fn only_a_failed_directory_sync_leaves_the_file_committed() {
    let plan = ready_config().save("/c/config.json").expect("a plan");
    for step in [
        WriteStep::CreateDirectory,
        WriteStep::CreateTemporary,
        WriteStep::WriteTemporary,
        WriteStep::SyncTemporary,
        WriteStep::Replace,
    ] {
        let error = plan.failed(step, "/c/config.json.tmp", "disk full".to_owned());
        assert!(!error.is_committed());
        assert!(error.message().starts_with("failed to "));
    }
    let error = plan.failed(
        WriteStep::SyncDirectory,
        "/c/config.json.tmp",
        "disk full".to_owned(),
    );
    assert!(error.is_committed());
}

#[test]
fn read_errors_tell_a_missing_file_from_an_unreadable_one() {
    assert!(matches!(
        map_read_error("/c/config.json", true, "not found".to_owned()),
        ConfigError::NotFound(path) if path == "/c/config.json"
    ));
    assert!(matches!(
        map_read_error("/c/config.json", false, "denied".to_owned()),
        ConfigError::Io { .. }
    ));
}

#[test]
fn window_preferences_and_the_account_never_invalidate() {
    let mut config = ready_config();
    config.interface.hide_empty_categories = true;
    config.cloud.enabled = true;
    config.cloud.account = "user".to_owned();
    config.last_seen_version = String::new();
    assert!(config.validate().is_empty());
}

#[test]
fn credentials_need_every_part_and_trim_the_names() {
    let mut config = ready_config();
    config.cloud.enabled = true;
    config.cloud.account = "  user ".to_owned();
    config.cloud.password = " pass ".to_owned();
    assert!(config.cloud.credentials().is_none());
    config.cloud.guild = " Loud Farts\n".to_owned();
    let credentials = config.cloud.credentials().expect("complete");
    assert_eq!(credentials.user, "user");
    assert_eq!(credentials.password, " pass ");
    assert_eq!(credentials.guild, "Loud Farts");
    assert_eq!(config.cloud.redacted().password, "<redacted>");
    config.cloud.enabled = false;
    assert!(config.cloud.credentials().is_none());
}

#[test]
fn a_copy_agrees_and_a_change_does_not() {
    let config = ready_config();
    let mut copy = config.clone();
    assert!(config.same_as(&copy));
    copy.interface.close_to_tray = !copy.interface.close_to_tray;
    assert!(!config.same_as(&copy));
    let problem = ValidationProblem {
        field: "capture.fps",
        message: "m".to_owned(),
    };
    assert_eq!(problem.clone(), problem);
}

#[test]
fn a_config_is_written_beside_and_moved_into_place() {
    let plan = ready_config().save("/c/config.json").expect("a plan");
    let (write, action) = ConfigWrite::start(plan);
    assert!(matches!(action, WriteAction::CreateDirectory { ref path } if path == "/c"));
    let (write, action) = write.next(WriteEvent::Done(Ok(())));
    assert!(matches!(action, WriteAction::Encode));
    let (write, action) = write.next(WriteEvent::Encoded(Ok("{}".to_owned())));
    assert!(
        matches!(action, WriteAction::Remove { ref path } if path == "/c/config.json.tmp")
    );
    let (write, action) = write.next(WriteEvent::Removed);
    assert!(
        matches!(action, WriteAction::Create { ref path } if path == "/c/config.json.tmp")
    );
    let (write, action) = write.next(WriteEvent::Done(Ok(())));
    match action {
        WriteAction::Write { path, text } => {
            assert_eq!(path, "/c/config.json.tmp");
            assert_eq!(text, "{}\n");
        }
        _ => panic!("nothing is written"),
    }
    let (write, action) = write.next(WriteEvent::Done(Ok(())));
    assert!(matches!(action, WriteAction::Sync { .. }));
    let (write, action) = write.next(WriteEvent::Done(Ok(())));
    match action {
        WriteAction::Replace { from, to } => {
            assert_eq!(from, "/c/config.json.tmp");
            assert_eq!(to, "/c/config.json");
        }
        _ => panic!("nothing is replaced"),
    }
    let (write, action) = write.next(WriteEvent::Done(Ok(())));
    assert!(matches!(action, WriteAction::SyncDirectory { ref path } if path == "/c"));
    let (_, action) = write.next(WriteEvent::Done(Ok(())));
    assert!(matches!(action, WriteAction::Finish(Ok(()))));
}

#[test]
fn a_failed_write_removes_its_file_and_says_why() {
    let plan = ready_config().save("/c/config.json").expect("a plan");
    let (write, _) = ConfigWrite::start(plan);
    let (write, _) = write.next(WriteEvent::Done(Ok(())));
    let (write, _) = write.next(WriteEvent::Encoded(Ok("{}".to_owned())));
    let (write, _) = write.next(WriteEvent::Removed);
    let (write, _) = write.next(WriteEvent::Done(Ok(())));
    let (write, action) = write.next(WriteEvent::Done(Err("disk full".to_owned())));
    assert!(
        matches!(action, WriteAction::Remove { ref path } if path == "/c/config.json.tmp")
    );
    let (_, action) = write.next(WriteEvent::Removed);
    match action {
        WriteAction::Finish(Err(error)) => {
            assert!(!error.is_committed());
            assert!(matches!(
                error,
                ConfigError::Io { ref source, .. } if source == "disk full"
            ));
        }
        _ => panic!("the failure was not reported"),
    }
    let plan = ready_config().save("/c/config.json").expect("a plan");
    let (write, _) = ConfigWrite::start(plan);
    let (write, _) = write.next(WriteEvent::Done(Ok(())));
    let (_, action) = write.next(WriteEvent::Encoded(Err("not text".to_owned())));
    assert!(matches!(
        action,
        WriteAction::Finish(Err(ConfigError::InvalidJson { .. }))
    ));
}

#[test]
fn column_widths_are_kept_by_title() {
    let mut layout = Config::default().interface.layout;
    assert_eq!(layout.width("Date"), None);
    layout.set_width("Pull", 40);
    layout.set_width("Date", 120);
    layout.set_width("Pull", 60);
    layout.set_width("Result", 80);
    assert_eq!(layout.width("Pull"), Some(60));
    assert_eq!(layout.width("Date"), Some(120));
    assert_eq!(layout.width("Result"), Some(80));
    assert_eq!(layout.width("Zone"), None);
    let titles: Vec<&str> = layout
        .column_widths
        .iter()
        .map(|width| width.title.as_str())
        .collect();
    assert_eq!(titles, ["Date", "Pull", "Result"]);
}

#[test]
fn what_is_saved_is_loaded_unchanged() {
    // A fresh configuration is not ready to record, but it is saved.
    let config = Config::default();
    assert!(!config.validate().is_empty());
    let plan = config.save("/c/config.json").expect("a plan");
    assert_eq!(plan.path, "/c/config.json");
    let loaded = Config::load(config.clone()).expect("a saved configuration");
    assert!(loaded == config);
}

#[test]
fn paths_are_compared_by_their_components() {
    let same = |a: &str, b: &str| AuthorizedPath::authorized(a) == AuthorizedPath::authorized(b);
    assert!(same("/recordings", "/recordings/"));
    assert!(same("/a/b", "/a//b"));
    assert!(same("/a/b", "/a/./b"));
    assert!(same("/a/b", "//a/b/."));
    assert!(same("a", "a/."));
    assert!(!same("./a", "a"));
    assert!(same("./a", "./a/"));
    assert!(!same("/a", "a"));
    assert!(!same("/a/b", "/a/../a/b"));
    assert!(!same("/a/b", "/a/bc"));
    assert!(!same("", "."));
    assert!(!same("/", ""));
    assert_ne!(
        AuthorizedPath::authorized("/a"),
        AuthorizedPath {
            path: "/a".to_owned(),
            authorization: PathAuthorization::Unset
        }
    );
    for (a, b) in [
        ("/recordings", "/recordings/"),
        ("./a", "a"),
        ("/a/b", "//a/b/."),
        (".", "./."),
        ("", "."),
        ("./", "/."),
        ("/..", "/"),
        ("a/./b", "a/b"),
        ("..a", ".a"),
    ] {
        assert_eq!(same(a, b), std::path::Path::new(a) == std::path::Path::new(b));
    }
}
