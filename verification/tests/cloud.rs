//! The cloud protocol: encodings, metadata, access checks and uploads.
use std::sync::Arc;

use warcraft_recorder::access::{AccessCheck, AccessEvent, AccessStep};
use warcraft_recorder::calendar::iso_timestamp;
use warcraft_recorder::cloud::{
    cloud_metadata, content_type, legacy_category, legacy_flavour, legacy_result,
    metadata_dates_fit, status_error, video_key, video_name, Affiliation, CloudClient,
    CloudCredentials, CloudError, LinkId, Method, PUT_ATTEMPTS,
};
use warcraft_recorder::domain::{
    ActivityDetails, Category, CombatantSummary, GameFlavor, LibraryEntry, MediaFacts, MeterData,
    Outcome, PlayerSummary, RecordingId, SoloRound, TimelineItem, TimelineKind,
};
use warcraft_recorder::encoding::{base64, basic_auth, encode_component};
use warcraft_recorder::json::{Field, Json};
use warcraft_recorder::transfer::{
    SentBytes, Transfer, TransferEvent, TransferStage, TransferStep,
};
use warcraft_recorder::upload::{
    ProgressThrottle, UploadAction, UploadEvent, UploadJob, UploadStep, UploadWorker, WorkerEvent,
};

#[test]
fn base64_matches_rfc_4648_vectors() {
    for (input, expected) in [
        ("", ""),
        ("f", "Zg=="),
        ("fo", "Zm8="),
        ("foo", "Zm9v"),
        ("foob", "Zm9vYg=="),
        ("fooba", "Zm9vYmE="),
        ("foobar", "Zm9vYmFy"),
    ] {
        assert_eq!(base64(input.as_bytes()), expected);
    }
    assert_eq!(basic_auth("user", "pass"), "Basic dXNlcjpwYXNz");
}

#[test]
fn encode_component_matches_javascript() {
    assert_eq!(encode_component("Loud Farts"), "Loud%20Farts");
    assert_eq!(
        encode_component("Aùra's (Wipe) [M]"),
        "A%C3%B9ra's%20(Wipe)%20%5BM%5D"
    );
}

#[test]
fn encoded_names_hold_no_separator_and_keep_plain_characters() {
    assert_eq!(encode_component("a/b?c#d&e"), "a%2Fb%3Fc%23d%26e");
    assert_eq!(encode_component("-_.!~*'()Az09"), "-_.!~*'()Az09");
    assert_eq!(encode_component(""), "");
    assert_eq!(encode_component("€"), "%E2%82%AC");
}

fn entry(category: Category, outcome: Outcome, details: ActivityDetails) -> LibraryEntry {
    LibraryEntry {
        id: RecordingId::from_media_name("a.mp4"),
        media_path: "/r/a.mp4".into(),
        sidecar_path: "/r/a.json".into(),
        category,
        flavor: GameFlavor::Era,
        title: "a".to_owned(),
        start_unix_ms: 0,
        duration_ms: 90_000,
        outcome,
        protected: true,
        tag: Some("  ".to_owned()),
        activity_hash: None,
        player: None,
        combatants: Vec::new(),
        details,
        timeline: vec![
            TimelineItem::span(TimelineKind::Trash, 0, 30_000, None, None, None).unwrap(),
            TimelineItem::span(TimelineKind::Encounter, 30_000, 90_000, None, None, None).unwrap(),
            TimelineItem::point(
                TimelineKind::Death,
                45_000,
                Some("Foe".into()),
                Some(Outcome::Win),
                None,
            ),
        ],
        media: MediaFacts {
            fps: None,
            width: None,
            height: None,
            codec: None,
            has_content: true,
        },
        meter: MeterData::default(),
    }
}

fn text(value: &str) -> Json {
    Json::Text(value.to_owned())
}

fn number(value: &Json) -> u64 {
    match value {
        Json::Int(value) => *value as u64,
        Json::Count(value) => *value,
        other => panic!("not a whole number: {other:?}"),
    }
}

fn at<'a>(value: &'a Json, key: &str) -> &'a Json {
    value.get(key).unwrap_or_else(|| panic!("no {key} in {value:?}"))
}

fn item(value: &Json, index: usize) -> &Json {
    match value {
        Json::List(items) => &items[index],
        other => panic!("not a list: {other:?}"),
    }
}

fn items(value: &Json) -> usize {
    match value {
        Json::List(items) => items.len(),
        other => panic!("not a list: {other:?}"),
    }
}

fn record(fields: Vec<(&'static str, Json)>) -> Json {
    Json::Record(
        fields
            .into_iter()
            .map(|(key, value)| Field { key, value })
            .collect(),
    )
}

#[test]
fn mythic_plus_metadata_keeps_the_key_and_its_segments() {
    let dungeon = ActivityDetails::Dungeon {
        zone_id: Some(2_660),
        dungeon_name: Some("Ara-Kara".to_owned()),
        map_id: Some(503),
        keystone_level: Some(12),
        affixes: vec![9, 10],
        upgrade_level: Some(2),
    };
    let metadata = cloud_metadata(&entry(Category::MythicPlus, Outcome::Complete, dungeon), 7);
    assert_eq!(at(&metadata, "category"), &text("Mythic+"));
    assert_eq!(at(&metadata, "result"), &Json::Bool(true));
    assert_eq!(at(&metadata, "flavour"), &text("Classic"));
    assert_eq!(number(at(&metadata, "keystoneLevel")), 12);
    assert_eq!(number(at(&metadata, "mapID")), 503);
    let affixes = at(&metadata, "affixes");
    assert_eq!(items(affixes), 2);
    assert_eq!(number(item(affixes, 0)), 9);
    assert_eq!(number(item(affixes, 1)), 10);
    assert_eq!(at(&metadata, "uniqueHash"), &text(""));
    assert!(metadata.get("tag").is_none());
    assert!(metadata.get("dungeonName").is_none());
    assert_eq!(
        at(&metadata, "challengeModeTimeline"),
        &Json::List(vec![
            record(vec![
                ("segmentType", text("Trash")),
                ("logStart", text("1970-01-01T00:00:00.000Z")),
                ("logEnd", text("1970-01-01T00:00:30.000Z")),
                ("timestamp", Json::Seconds { millis: 0 }),
            ]),
            record(vec![
                ("segmentType", text("Boss")),
                ("logStart", text("1970-01-01T00:00:30.000Z")),
                ("logEnd", text("1970-01-01T00:01:30.000Z")),
                ("timestamp", Json::Seconds { millis: 30_000 }),
            ]),
        ])
    );
    assert_eq!(
        at(item(at(&metadata, "deaths"), 0), "friendly"),
        &Json::Bool(false)
    );

    let abandoned = ActivityDetails::Dungeon {
        zone_id: None,
        dungeon_name: None,
        map_id: None,
        keystone_level: None,
        affixes: Vec::new(),
        upgrade_level: None,
    };
    let metadata = cloud_metadata(
        &entry(Category::MythicPlus, Outcome::Abandoned, abandoned),
        7,
    );
    assert_eq!(at(&metadata, "result"), &Json::Bool(false));
}

#[test]
fn clips_carry_their_parent_category_and_score_like_it() {
    let clip = ActivityDetails::Clip {
        source_recording: RecordingId::from_media_name("s.mp4"),
        source_category: Category::MythicPlus,
        source_title: None,
    };
    let metadata = cloud_metadata(&entry(Category::Clip, Outcome::Complete, clip), 7);
    assert_eq!(at(&metadata, "category"), &text("Clips"));
    assert_eq!(at(&metadata, "parentCategory"), &text("Mythic+"));
    assert_eq!(number(at(&metadata, "clippedAt")), 0);
    assert_eq!(at(&metadata, "result"), &Json::Bool(true));
    assert!(metadata.get("challengeModeTimeline").is_none());
}

#[test]
fn iso_timestamp_matches_javascript() {
    assert_eq!(iso_timestamp(0), "1970-01-01T00:00:00.000Z");
    assert_eq!(iso_timestamp(1_790_276_105_689), "2026-09-24T18:55:05.689Z");
}

#[test]
fn iso_timestamps_cover_leap_days_and_moments_before_the_epoch() {
    assert_eq!(iso_timestamp(951_782_400_000), "2000-02-29T00:00:00.000Z");
    assert_eq!(iso_timestamp(-1), "1969-12-31T23:59:59.999Z");
    assert_eq!(iso_timestamp(-62_167_219_200_000), "0000-01-01T00:00:00.000Z");
    assert_eq!(iso_timestamp(253_402_300_800_000), "+010000-01-01T00:00:00.000Z");
}

fn raid_entry() -> LibraryEntry {
    LibraryEntry {
        id: RecordingId::from_media_name("activity-1"),
        media_path: "/library/activity-1 - Loudfarts - Sszorak [M] (Wipe).mp4".to_owned(),
        sidecar_path: "/library/activity-1.json".to_owned(),
        category: Category::Raids,
        flavor: GameFlavor::Retail,
        title: "Sszorak [M] (Wipe)".to_owned(),
        start_unix_ms: 1_790_276_105_689,
        duration_ms: 294_821,
        outcome: Outcome::Loss,
        protected: false,
        tag: Some("progress".to_owned()),
        activity_hash: Some("6646616475d036a57a333dc1fa19e60f".to_owned()),
        player: Some(PlayerSummary {
            guid: Some("Player-1".to_owned()),
            name: "Loudfarts".to_owned(),
            realm: Some("Draenor".to_owned()),
            spec_id: Some(251),
        }),
        combatants: vec![CombatantSummary {
            guid: Some("Player-2".to_owned()),
            team_id: Some(1),
            spec_id: Some(62),
            name: Some("Plumbster".to_owned()),
            realm: None,
            region: None,
        }],
        details: ActivityDetails::Raid {
            zone_id: Some(2_913),
            zone_name: None,
            encounter_id: Some(3_420),
            encounter_name: Some("Sszorak".to_owned()),
            difficulty_id: Some(16),
            difficulty: Some("M".to_owned()),
            pull: Some(4),
            boss_percent: Some(23),
        },
        timeline: vec![TimelineItem::point(
            TimelineKind::Death,
            96_182,
            Some("Plumbster".to_owned()),
            None,
            Some("Player-2".to_owned()),
        )],
        media: MediaFacts {
            fps: Some(60),
            width: None,
            height: None,
            codec: None,
            has_content: true,
        },
        meter: MeterData::default(),
    }
}

#[test]
fn raid_metadata_keeps_the_encounter_the_player_and_the_deaths() {
    let entry = raid_entry();
    assert!(metadata_dates_fit(&entry));
    let metadata = cloud_metadata(&entry, 5_000);
    assert_eq!(at(&metadata, "category"), &text("Raids"));
    assert_eq!(at(&metadata, "result"), &Json::Bool(false));
    assert_eq!(at(&metadata, "flavour"), &text("Retail"));
    assert_eq!(number(at(&metadata, "encounterID")), 3_420);
    assert_eq!(number(at(&metadata, "difficultyID")), 16);
    assert_eq!(at(&metadata, "duration"), &Json::Seconds { millis: 294_821 });
    assert_eq!(number(at(at(&metadata, "player"), "_specID")), 251);
    assert_eq!(
        number(at(item(at(&metadata, "combatants"), 0), "_teamID")),
        1
    );
    let deaths = at(&metadata, "deaths");
    assert_eq!(items(deaths), 1);
    let death = item(deaths, 0);
    assert_eq!(at(death, "name"), &text("Plumbster"));
    assert_eq!(number(at(death, "specId")), 62);
    assert_eq!(at(death, "timestamp"), &Json::Seconds { millis: 96_182 });
    assert_eq!(at(death, "date"), &text("2026-09-24T18:56:41.871Z"));
    assert_eq!(at(death, "friendly"), &Json::Bool(true));
    assert_eq!(
        at(&metadata, "uniqueHash"),
        &text("6646616475d036a57a333dc1fa19e60f")
    );
    assert_eq!(number(at(&metadata, "start")), 1_790_276_105_689);
    assert!(metadata.get("videoName").is_none());
}

#[test]
fn solo_rounds_become_a_timeline_of_rounds() {
    let shuffle = ActivityDetails::SoloRounds {
        map_id: Some(1_505),
        map_name: Some("Nagrand Arena".to_owned()),
        rounds_won: Some(1),
        rounds_played: Some(2),
        rounds: vec![
            SoloRound {
                round: 1,
                start_ms: 0,
                outcome: Outcome::Win,
                duration_ms: Some(30_000),
            },
            SoloRound {
                round: 2,
                start_ms: 40_000,
                outcome: Outcome::Loss,
                duration_ms: None,
            },
        ],
    };
    let metadata = cloud_metadata(&entry(Category::SoloShuffle, Outcome::Win, shuffle), 1);
    assert_eq!(at(&metadata, "category"), &text("Solo Shuffle"));
    assert_eq!(items(at(&metadata, "soloShuffleTimeline")), 2);
    assert_eq!(number(at(&metadata, "soloShuffleRoundsWon")), 1);
    assert_eq!(number(at(&metadata, "soloShuffleRoundsPlayed")), 2);
}

#[test]
fn legacy_names_are_the_ones_the_website_knows() {
    assert_eq!(legacy_category(Category::TwoVTwo), "2v2");
    assert_eq!(legacy_category(Category::MythicPlus), "Mythic+");
    assert_eq!(legacy_category(Category::Clip), "Clips");
    assert_eq!(legacy_flavour(&GameFlavor::Retail), "Retail");
    assert_eq!(legacy_flavour(&GameFlavor::Classic), "Classic");
    assert_eq!(legacy_flavour(&GameFlavor::Era), "Classic");
    assert!(legacy_result(Category::Raids, Outcome::Win));
    assert!(!legacy_result(Category::Raids, Outcome::Complete));
    assert!(legacy_result(Category::MythicPlus, Outcome::Complete));
}

fn credentials(password: &str) -> CloudCredentials {
    CloudCredentials {
        user: "user".to_owned(),
        password: password.to_owned(),
        guild: "Loud Farts".to_owned(),
    }
}

fn client() -> CloudClient {
    CloudClient::with_urls(
        &credentials("pass"),
        "https://api.test/api",
        "https://website.test",
    )
}

fn affiliation(guild: &str, write: bool) -> Affiliation {
    Affiliation {
        guild_name: guild.to_owned(),
        write,
    }
}

#[test]
fn access_checks_report_the_reason_uploads_are_refused() {
    let wrong_password = CloudClient::with_urls(
        &credentials("wrong"),
        "https://api.test/api",
        "https://website.test",
    );
    let request = wrong_password.affiliations_request();
    assert_eq!(request.authorization, basic_auth("user", "wrong"));
    assert_eq!(status_error(401, "no"), Some(CloudError::Unauthorized));

    assert!(matches!(
        client().check_access(&vec![affiliation("Loud Farts", false)], false),
        Err(CloudError::NoWritePermission(_))
    ));
    assert!(matches!(
        client().check_access(&Vec::new(), false),
        Err(CloudError::NotAffiliated(_))
    ));
    assert!(matches!(
        client().check_access(&vec![affiliation("Loud Farts", true)], true),
        Err(CloudError::Migrated(_))
    ));
    assert_eq!(
        client().check_access(&vec![affiliation("Loud Farts", true)], false),
        Ok(())
    );
}

#[test]
fn requests_carry_the_account_and_name_the_guild() {
    let client = client();
    let affiliations = client.affiliations_request();
    assert_eq!(affiliations.method, Method::Get);
    assert_eq!(affiliations.url, "https://api.test/api/user/affiliations");
    assert_eq!(affiliations.authorization, "Basic dXNlcjpwYXNz");
    assert!(affiliations.body.is_none());
    assert_eq!(
        client.guild_request().url,
        "https://api.test/api/guild/Loud%20Farts"
    );
    let link = client.link_request(&raid_entry()).unwrap();
    assert_eq!(link.method, Method::Post);
    assert_eq!(
        link.url,
        "https://api.test/api/guild/Loud%20Farts/video/activity-1%20-%20Loudfarts%20-%20Sszorak%20%5BM%5D%20(Wipe)/link"
    );
    let default = CloudClient::new(&credentials("pass"));
    assert_eq!(default.api, "https://api.warcraftrecorder.com/api");
    assert_eq!(default.website, "https://warcraftrecorder.com");
}

#[test]
fn share_links_are_made_of_the_id_the_api_returned() {
    assert_eq!(
        client().share_link(LinkId::Text("abc123".to_owned())),
        Ok("https://website.test/link/abc123".to_owned())
    );
    assert_eq!(
        client().share_link(LinkId::Number("17".to_owned())),
        Ok("https://website.test/link/17".to_owned())
    );
    assert!(matches!(
        client().share_link(LinkId::Other("null".to_owned())),
        Err(CloudError::InvalidResponse(_))
    ));
}

#[test]
fn errors_name_the_guild_in_quotes() {
    assert_eq!(
        CloudError::NotAffiliated("Loud \"Farts\"".to_owned()).message(),
        CloudError::NotAffiliated("Loud \"Farts\"".to_owned())
            .describe("\"Loud \\\"Farts\\\"\"")
    );
    assert_eq!(
        CloudError::Unauthorized.message(),
        "the cloud account name or password was rejected"
    );
    assert!(matches!(
        status_error(503, "busy"),
        Some(CloudError::Http { status: 503, .. })
    ));
    assert_eq!(status_error(200, ""), None);
}

#[test]
fn names_and_types_of_an_upload_come_from_its_file() {
    let entry = raid_entry();
    assert_eq!(
        video_key(&entry),
        Ok("activity-1 - Loudfarts - Sszorak [M] (Wipe).mp4".to_owned())
    );
    assert_eq!(
        video_name(&entry),
        Ok("activity-1 - Loudfarts - Sszorak [M] (Wipe)".to_owned())
    );
    assert_eq!(content_type("a.mp4"), "video/mp4");
    assert_eq!(content_type("a.mkv"), "video/mp4");
    assert_eq!(content_type("a.png"), "image/png");
    let mut nameless = raid_entry();
    nameless.media_path = "/".to_owned();
    assert!(matches!(video_key(&nameless), Err(CloudError::Io(_))));
}

fn sent(step: TransferStep) -> (String, u64, u64) {
    match step {
        TransferStep::Send {
            url, offset, len, ..
        } => (url, offset, len),
        _ => panic!("expected media to be sent"),
    }
}

fn called(step: TransferStep) -> warcraft_recorder::cloud::Request {
    match step {
        TransferStep::Call(request) => request,
        _ => panic!("expected a call"),
    }
}

#[test]
fn small_files_go_up_whole_before_their_metadata() {
    let entry = raid_entry();
    let key = video_key(&entry).unwrap();
    let (transfer, step) = Transfer::start(client(), key, 5_000);
    let sign = called(step);
    assert_eq!(sign.url, "https://api.test/api/guild/Loud%20Farts/upload");
    let body = sign.body.unwrap();
    assert_eq!(
        at(&body, "key"),
        &text("activity-1 - Loudfarts - Sszorak [M] (Wipe).mp4")
    );
    assert_eq!(number(at(&body, "bytes")), 5_000);
    let (transfer, step) =
        transfer.next(TransferEvent::Signed(Ok("https://bucket/single".to_owned())));
    assert_eq!(sent(step), ("https://bucket/single".to_owned(), 0, 5_000));
    let (transfer, step) = transfer.next(TransferEvent::Sent(Ok(None)));
    assert!(matches!(
        step,
        TransferStep::Register {
            sent: 5_000,
            total: 5_000
        }
    ));
    let registration = transfer.registration(&entry);
    assert_eq!(
        registration.url,
        "https://api.test/api/guild/Loud%20Farts/video"
    );
    assert_eq!(registration.body, Some(cloud_metadata(&entry, 5_000)));
    let (transfer, step) = transfer.next(TransferEvent::Registered(Ok(())));
    assert_eq!(
        called(step).url,
        "https://api.test/api/guild/Loud%20Farts/housekeeper"
    );
    let (transfer, step) = transfer.next(TransferEvent::Housekept);
    assert!(matches!(step, TransferStep::Finish(Ok(()))));
    assert!(matches!(transfer.stage, TransferStage::Over));
}

#[test]
fn large_files_go_up_in_parts_and_complete_with_unquoted_etags() {
    let entry = raid_entry();
    let key = video_key(&entry).unwrap();
    let client = client().with_part_bytes(1_000);
    let (transfer, step) = Transfer::start(client, key, 2_500);
    assert_eq!(
        called(step).url,
        "https://api.test/api/guild/Loud%20Farts/create-multipart-upload"
    );
    let urls = vec!["p0".to_owned(), "p1".to_owned(), "p2".to_owned()];
    let (transfer, step) = transfer.next(TransferEvent::SignedParts(Ok(urls)));
    assert_eq!(sent(step), ("p0".to_owned(), 0, 1_000));
    let (transfer, step) =
        transfer.next(TransferEvent::Sent(Ok(Some("\"etag-part0\"".to_owned()))));
    assert_eq!(sent(step), ("p1".to_owned(), 1_000, 1_000));
    let (transfer, step) =
        transfer.next(TransferEvent::Sent(Ok(Some("\"etag-part1\"".to_owned()))));
    assert_eq!(sent(step), ("p2".to_owned(), 2_000, 500));
    let (transfer, step) =
        transfer.next(TransferEvent::Sent(Ok(Some("\"etag-part2\"".to_owned()))));
    let complete = called(step);
    assert_eq!(
        complete.url,
        "https://api.test/api/guild/Loud%20Farts/complete-multipart-upload"
    );
    assert_eq!(
        at(&complete.body.unwrap(), "etags"),
        &Json::List(vec![
            text("etag-part0"),
            text("etag-part1"),
            text("etag-part2")
        ])
    );
    let (_, step) = transfer.next(TransferEvent::Completed(Ok(())));
    assert!(matches!(
        step,
        TransferStep::Register {
            sent: 2_500,
            total: 2_500
        }
    ));
}

#[test]
fn parts_that_do_not_match_the_file_are_refused() {
    let client = client().with_part_bytes(1_000);
    let (transfer, _) = Transfer::start(client, "k".to_owned(), 2_500);
    let (_, step) = transfer.next(TransferEvent::SignedParts(Ok(vec!["p0".to_owned()])));
    assert!(matches!(
        step,
        TransferStep::Finish(Err(CloudError::InvalidResponse(_)))
    ));
}

#[test]
fn a_failing_put_is_tried_again_and_then_given_up() {
    let (transfer, _) = Transfer::start(client(), "k".to_owned(), 10);
    let (mut transfer, _) = transfer.next(TransferEvent::Signed(Ok("u".to_owned())));
    let mut tries = 1;
    let last = loop {
        let (next, step) = transfer.next(TransferEvent::Sent(Err(CloudError::Transport(
            "reset".to_owned(),
        ))));
        transfer = next;
        match step {
            TransferStep::Send { .. } => tries += 1,
            other => break other,
        }
    };
    assert_eq!(tries, PUT_ATTEMPTS);
    assert!(matches!(
        last,
        TransferStep::Finish(Err(CloudError::Transport(_)))
    ));
}

#[test]
fn an_unreadable_file_ends_the_upload() {
    let (transfer, _) = Transfer::start(client(), "k".to_owned(), 10);
    let (transfer, _) = transfer.next(TransferEvent::Signed(Ok("u".to_owned())));
    let (_, step) = transfer.next(TransferEvent::FileFailed("gone".to_owned()));
    assert!(matches!(
        step,
        TransferStep::Finish(Err(CloudError::Io(_)))
    ));
}

#[test]
fn an_upload_that_is_not_registered_fails() {
    let (transfer, _) = Transfer::start(client(), "k".to_owned(), 10);
    let (transfer, _) = transfer.next(TransferEvent::Signed(Ok("u".to_owned())));
    let (transfer, step) = transfer.next(TransferEvent::Sent(Ok(None)));
    assert!(matches!(step, TransferStep::Register { .. }));
    let (_, step) = transfer.next(TransferEvent::Registered(Err(CloudError::Unauthorized)));
    assert!(matches!(
        step,
        TransferStep::Finish(Err(CloudError::Unauthorized))
    ));
}

#[test]
fn sent_bytes_are_reported_by_the_step_and_at_the_end() {
    let mut count = SentBytes::new();
    assert_eq!(count.advance(1_000_000), None);
    assert_eq!(count.advance(100_000), Some(1_100_000));
    assert_eq!(count.advance(10), None);
    assert_eq!(count.advance(0), Some(1_100_010));
}

#[test]
fn progress_counts_the_whole_file_and_ends_with_its_size() {
    let client = client().with_part_bytes(1_000);
    let (transfer, _) = Transfer::start(client, "k".to_owned(), 1_500);
    let urls = vec!["p0".to_owned(), "p1".to_owned()];
    let (transfer, _) = transfer.next(TransferEvent::SignedParts(Ok(urls)));
    assert_eq!(transfer.report(0), (0, 1_500));
    assert_eq!(transfer.report(1_000), (1_000, 1_500));
    let (transfer, _) = transfer.next(TransferEvent::Sent(Ok(Some("a".to_owned()))));
    assert_eq!(transfer.report(200), (1_200, 1_500));
    let (transfer, _) = transfer.next(TransferEvent::Sent(Err(CloudError::Transport(
        "reset".to_owned(),
    ))));
    assert_eq!(transfer.report(500), (1_500, 1_500));
    let (transfer, _) = transfer.next(TransferEvent::Sent(Ok(Some("b".to_owned()))));
    let (transfer, step) = transfer.next(TransferEvent::Completed(Ok(())));
    assert!(matches!(
        step,
        TransferStep::Register {
            sent: 1_500,
            total: 1_500
        }
    ));
    let (transfer, step) = transfer.next(TransferEvent::Registered(Ok(())));
    assert!(matches!(step, TransferStep::Call(_)));
    let (_, step) = transfer.next(TransferEvent::Housekept);
    assert!(matches!(step, TransferStep::Finish(Ok(()))));
}

fn job(action: UploadAction) -> UploadJob {
    UploadJob {
        action,
        entry: Arc::new(raid_entry()),
        credentials: credentials("pass"),
        requested: true,
    }
}

#[test]
fn uploads_start_only_after_a_passed_check() {
    let (worker, step) = UploadWorker::new().run(WorkerEvent::Job(job(UploadAction::Upload)));
    assert!(matches!(step, UploadStep::CheckAccess));
    let (worker, step) = worker.run(WorkerEvent::Checked(Ok(())));
    assert!(matches!(step, UploadStep::Upload));
    let (worker, step) = worker.run(WorkerEvent::Uploaded(Ok(())));
    assert!(matches!(step, UploadStep::FetchLink));
    let (worker, step) = worker.run(WorkerEvent::Linked(Ok("https://l".to_owned())));
    match step {
        UploadStep::Report(UploadEvent::Finished {
            id,
            link,
            link_error,
            requested,
            ..
        }) => {
            assert_eq!(id.as_str(), "activity-1");
            assert_eq!(link.as_deref(), Some("https://l"));
            assert_eq!(link_error, None);
            assert!(requested);
        }
        _ => panic!("expected a report"),
    }
    let (worker, step) = worker.run(WorkerEvent::Reported(true));
    assert!(matches!(step, UploadStep::Receive));
    let (_, step) = worker.run(WorkerEvent::JobsClosed);
    assert!(matches!(step, UploadStep::Stop));

    let (worker, _) = UploadWorker::new().run(WorkerEvent::Job(job(UploadAction::Upload)));
    let (_, step) = worker.run(WorkerEvent::Checked(Err(CloudError::Unauthorized)));
    match step {
        UploadStep::Report(UploadEvent::Failed {
            action, message, ..
        }) => {
            assert_eq!(action, UploadAction::Upload);
            assert_eq!(message, "the cloud account name or password was rejected");
        }
        _ => panic!("expected a failure"),
    }
}

#[test]
fn a_missing_link_fails_only_the_job_that_asked_for_it() {
    let (worker, step) = UploadWorker::new().run(WorkerEvent::Job(job(UploadAction::ShareLink)));
    assert!(matches!(step, UploadStep::FetchLink));
    let (worker, step) = worker.run(WorkerEvent::Linked(Err(CloudError::Unauthorized)));
    assert!(matches!(
        step,
        UploadStep::Report(UploadEvent::Failed { .. })
    ));
    let (_, step) = worker.run(WorkerEvent::Reported(false));
    assert!(matches!(step, UploadStep::Stop));

    let (worker, _) = UploadWorker::new().run(WorkerEvent::Job(job(UploadAction::Upload)));
    let (worker, _) = worker.run(WorkerEvent::Checked(Ok(())));
    let (worker, _) = worker.run(WorkerEvent::Uploaded(Ok(())));
    let (_, step) = worker.run(WorkerEvent::Linked(Err(CloudError::Unauthorized)));
    assert!(matches!(
        step,
        UploadStep::Report(UploadEvent::Finished {
            link: None,
            link_error: Some(_),
            ..
        })
    ));
}

#[test]
fn progress_passes_at_a_bounded_rate_and_at_the_end() {
    let mut throttle = ProgressThrottle::new();
    assert!(throttle.passes(1, 10, 1_000));
    assert!(!throttle.passes(2, 10, 1_100));
    assert!(throttle.passes(3, 10, 1_250));
    assert!(throttle.passes(10, 10, 1_251));
}

#[test]
fn the_guild_is_asked_about_only_for_accounts_that_may_upload() {
    let (check, step) = AccessCheck::start(client());
    match step {
        AccessStep::Call(request) => {
            assert_eq!(request.url, "https://api.test/api/user/affiliations");
            assert_eq!(request.method, Method::Get);
        }
        AccessStep::Finish(_) => panic!("nothing was asked"),
    }
    let (check, step) =
        check.next(AccessEvent::Listed(Ok(vec![affiliation("Loud Farts", true)])));
    match step {
        AccessStep::Call(request) => {
            assert_eq!(request.url, "https://api.test/api/guild/Loud%20Farts");
        }
        AccessStep::Finish(_) => panic!("the guild was not asked about"),
    }
    let (_, step) = check.next(AccessEvent::Described(Ok(false)));
    assert!(matches!(step, AccessStep::Finish(Ok(()))));

    let (check, _) = AccessCheck::start(client());
    let (_, step) = check.next(AccessEvent::Listed(Ok(vec![affiliation("Loud Farts", false)])));
    assert!(matches!(
        step,
        AccessStep::Finish(Err(CloudError::NoWritePermission(_)))
    ));

    let (check, _) = AccessCheck::start(client());
    let (_, step) = check.next(AccessEvent::Listed(Err(CloudError::Unauthorized)));
    assert!(matches!(
        step,
        AccessStep::Finish(Err(CloudError::Unauthorized))
    ));

    let (check, _) = AccessCheck::start(client());
    let (check, _) = check.next(AccessEvent::Listed(Ok(vec![affiliation("Loud Farts", true)])));
    let (_, step) = check.next(AccessEvent::Described(Ok(true)));
    assert!(matches!(
        step,
        AccessStep::Finish(Err(CloudError::Migrated(_)))
    ));
}

#[test]
fn metadata_names_every_key_once() {
    match cloud_metadata(&raid_entry(), 7) {
        Json::Record(fields) => {
            for (i, field) in fields.iter().enumerate() {
                assert!(fields[i + 1..].iter().all(|other| other.key != field.key));
            }
        }
        _ => panic!("metadata is a record"),
    }
}

#[test]
fn timestamps_sort_as_their_instants() {
    let instants = [
        -62_167_219_200_000,
        -1,
        0,
        999,
        1_000,
        59_999,
        60_000,
        3_599_999,
        3_600_000,
        86_399_999,
        86_400_000,
        951_782_400_000,
        1_790_276_105_689,
        253_402_300_799_999,
    ];
    let stamps: Vec<String> = instants.iter().map(|instant| iso_timestamp(*instant)).collect();
    for pair in stamps.windows(2) {
        assert!(pair[0] < pair[1]);
        assert_eq!(pair[0].len(), 24);
    }
    assert_eq!(stamps[13], "9999-12-31T23:59:59.999Z");
}
