//! Warcraft Recorder Pro cloud upload.
//!
//! HTTP basic auth with the cloud account, a guild-scoped signed PUT (or a
//! signed multipart upload for large files) straight into the guild's bucket,
//! then the video's metadata. What is sent and what an answer means stands
//! here; the transport is the caller's.
use vstd::prelude::*;

use crate::calendar;
use crate::calendar::iso_timestamp;
use crate::domain;
use crate::domain::{
    ActivityDetails, Category, CombatantSummary, GameFlavor, LibraryEntry, Outcome, PlayerSummary,
    SoloRound, TimelineItem, TimelineKind, TimelineShape,
};
use crate::encoding;
use crate::encoding::{basic_auth, encode_component};
use crate::json;
use crate::json::{
    add_item, list, put, put_some_number, put_some_text, record, Field, Json, JsonView,
};
use crate::text;
use crate::text::{
    ends_with, file_name_of, is_blank, push_decimal, same_text, strip_ending, trimmed, trimmed_end,
};

verus! {

/// The account a recording is uploaded with, and the guild it goes to.
#[derive(Debug, PartialEq, Eq)]
pub struct CloudCredentials {
    pub user: String,
    pub password: String,
    pub guild: String,
}

impl Clone for CloudCredentials {
    fn clone(&self) -> (copy: Self)
        ensures
            copy == *self,
    {
        CloudCredentials {
            user: self.user.clone(),
            password: self.password.clone(),
            guild: self.guild.clone(),
        }
    }
}

/// The name the cloud has for a category.
pub open spec fn category_name(category: Category) -> Seq<char> {
    match category {
        Category::TwoVTwo => "2v2"@,
        Category::ThreeVThree => "3v3"@,
        Category::FiveVFive => "5v5"@,
        Category::Skirmish => "Skirmish"@,
        Category::SoloShuffle => "Solo Shuffle"@,
        Category::MythicPlus => "Mythic+"@,
        Category::Raids => "Raids"@,
        Category::Battlegrounds => "Battlegrounds"@,
        Category::Clip => "Clips"@,
        Category::Manual => "Manual"@,
    }
}

pub fn legacy_category(category: Category) -> (name: &'static str)
    ensures
        name@ == category_name(category),
{
    match category {
        Category::TwoVTwo => "2v2",
        Category::ThreeVThree => "3v3",
        Category::FiveVFive => "5v5",
        Category::Skirmish => "Skirmish",
        Category::SoloShuffle => "Solo Shuffle",
        Category::MythicPlus => "Mythic+",
        Category::Raids => "Raids",
        Category::Battlegrounds => "Battlegrounds",
        Category::Clip => "Clips",
        Category::Manual => "Manual",
    }
}

/// Mythic+ counts a completed key as a success, everything else a win or
/// kill.
pub open spec fn succeeded(category: Category, outcome: Outcome) -> bool {
    outcome == Outcome::Win || (category == Category::MythicPlus && outcome == Outcome::Complete)
}

pub fn legacy_result(category: Category, outcome: Outcome) -> (result: bool)
    ensures
        result == succeeded(category, outcome),
{
    match category {
        Category::MythicPlus => matches!(outcome, Outcome::Complete | Outcome::Win),
        _ => matches!(outcome, Outcome::Win),
    }
}

/// The cloud knows two flavours.
pub open spec fn flavour_name(flavor: GameFlavor) -> Seq<char> {
    match flavor {
        GameFlavor::Classic | GameFlavor::Era => "Classic"@,
        _ => "Retail"@,
    }
}

pub fn legacy_flavour(flavor: &GameFlavor) -> (name: &'static str)
    ensures
        name@ == flavour_name(*flavor),
{
    match flavor {
        GameFlavor::Classic => "Classic",
        GameFlavor::Era => "Classic",
        GameFlavor::Retail => "Retail",
        GameFlavor::Unknown(_) => "Retail",
    }
}

/// The specialization of the first combatant called `name`, or 0.
pub open spec fn named_spec(combatants: Seq<CombatantSummary>, name: Seq<char>) -> int
    decreases combatants.len(),
{
    if combatants.len() == 0 {
        0
    } else if domain::text_view(combatants[0].name) == Some(name) {
        match combatants[0].spec_id {
            Some(spec_id) => spec_id as int,
            None => 0,
        }
    } else {
        named_spec(combatants.skip(1), name)
    }
}

fn spec_of(combatants: &Vec<CombatantSummary>, name: &str) -> (spec_id: u32)
    ensures
        spec_id == named_spec(combatants@, name@),
{
    let mut i: usize = 0;
    assert(combatants@.skip(0) =~= combatants@);
    while i < combatants.len()
        invariant
            i <= combatants@.len(),
            named_spec(combatants@.skip(i as int), name@) == named_spec(combatants@, name@),
        decreases combatants@.len() - i,
    {
        assert(combatants@.skip(i as int).skip(1) =~= combatants@.skip(i + 1));
        let found = match &combatants[i].name {
            Some(candidate) => same_text(candidate, name),
            None => false,
        };
        if found {
            return match combatants[i].spec_id {
                Some(spec_id) => spec_id,
                None => 0,
            };
        }
        i = i + 1;
    }
    0
}

/// The name a death marker carries.
pub open spec fn marker_name(item: TimelineItem) -> Seq<char> {
    match item.label {
        Some(label) => label@,
        None => Seq::<char>::empty(),
    }
}

/// A moment of a recording on the wall clock, in milliseconds.
pub open spec fn wall_ms(entry: LibraryEntry, offset_ms: u64) -> int {
    entry.start_unix_ms + (offset_ms as i64)
}

/// A death marker as the cloud stores it: media-relative seconds, the
/// wall-clock date, and whether the dead player was on the recorder's side.
pub open spec fn death_record(entry: LibraryEntry, item: TimelineItem) -> JsonView {
    JsonView::Record(
        seq![("name"@, JsonView::Text(marker_name(item)))] + seq![
            ("specId"@, JsonView::Int(named_spec(entry.combatants@, marker_name(item)))),
        ] + seq![
            ("date"@, JsonView::Text(calendar::iso_text(wall_ms(entry, item.start_ms)))),
        ] + seq![("timestamp"@, JsonView::Seconds(item.start_ms as nat))] + seq![
            ("friendly"@, JsonView::Bool(item.outcome != Some(Outcome::Win))),
        ],
    )
}

/// The death markers among `items`, in their order.
pub open spec fn death_records(entry: LibraryEntry, items: Seq<TimelineItem>) -> Seq<JsonView>
    decreases items.len(),
{
    if items.len() == 0 {
        seq![]
    } else if items.last().kind == TimelineKind::Death {
        death_records(entry, items.drop_last()).push(death_record(entry, items.last()))
    } else {
        death_records(entry, items.drop_last())
    }
}

/// A moment's wall-clock time is one that a timestamp can hold.
pub open spec fn moment_fits(entry: LibraryEntry, offset_ms: u64) -> bool {
    i64::MIN <= wall_ms(entry, offset_ms) <= i64::MAX
}

/// The dates that go into a recording's metadata can all be written.
pub open spec fn dates_fit(entry: LibraryEntry) -> bool {
    forall|i: int|
        0 <= i < entry.timeline@.len() ==> {
            let item = #[trigger] entry.timeline@[i];
            &&& item.kind == TimelineKind::Death ==> moment_fits(entry, item.start_ms)
            &&& entry.details is Dungeon && is_segment(item) ==> moment_fits(entry, item.start_ms)
                && moment_fits(entry, item.finish())
        }
}

fn legacy_death(entry: &LibraryEntry, item: &TimelineItem) -> (value: Json)
    requires
        moment_fits(*entry, item.start_ms),
    ensures
        value.model() == death_record(*entry, *item),
{
    let name = match &item.label {
        Some(label) => label.clone(),
        None => String::new(),
    };
    let spec_id: u32 = spec_of(&entry.combatants, &name);
    let date = iso_timestamp(entry.start_unix_ms + item.start_ms as i64);
    let won = match item.outcome {
        Some(Outcome::Win) => true,
        _ => false,
    };
    let mut fields: Vec<Field> = Vec::new();
    put(&mut fields, "name", Json::Text(name));
    put(&mut fields, "specId", Json::Count(spec_id as u64));
    put(&mut fields, "date", Json::Text(date));
    put(&mut fields, "timestamp", Json::Seconds { millis: item.start_ms });
    put(&mut fields, "friendly", Json::Bool(!won));
    proof {
        assert(json::field_models(fields@) =~= death_record(*entry, *item)->Record_0);
    }
    record(fields)
}

fn legacy_deaths(entry: &LibraryEntry) -> (items: Vec<Json>)
    requires
        dates_fit(*entry),
    ensures
        json::models(items@) == death_records(*entry, entry.timeline@),
{
    let mut items: Vec<Json> = Vec::new();
    let mut i: usize = 0;
    assert(json::models(items@) =~= seq![]);
    while i < entry.timeline.len()
        invariant
            i <= entry.timeline@.len(),
            dates_fit(*entry),
            json::models(items@) == death_records(*entry, entry.timeline@.take(i as int)),
        decreases entry.timeline@.len() - i,
    {
        let item = &entry.timeline[i];
        assert(entry.timeline@.take(i + 1).drop_last() =~= entry.timeline@.take(i as int));
        if item.kind == TimelineKind::Death {
            add_item(&mut items, legacy_death(entry, item));
        }
        i = i + 1;
    }
    assert(entry.timeline@.take(i as int) =~= entry.timeline@);
    items
}

/// A boss or trash span.
pub open spec fn is_segment(item: TimelineItem) -> bool {
    item.end_ms is Some && (item.kind == TimelineKind::Encounter || item.kind
        == TimelineKind::Trash)
}

/// A boss or trash span as the cloud stores it.
pub open spec fn segment_record(entry: LibraryEntry, item: TimelineItem) -> JsonView {
    JsonView::Record(
        seq![
            (
                "segmentType"@,
                JsonView::Text(
                    if item.kind == TimelineKind::Encounter {
                        "Boss"@
                    } else {
                        "Trash"@
                    },
                ),
            ),
        ] + seq![
            ("logStart"@, JsonView::Text(calendar::iso_text(wall_ms(entry, item.start_ms)))),
        ] + seq![
            ("logEnd"@, JsonView::Text(calendar::iso_text(wall_ms(entry, item.finish())))),
        ] + seq![("timestamp"@, JsonView::Seconds(item.start_ms as nat))],
    )
}

/// The boss and trash spans among `items`, in their order.
pub open spec fn segment_records(entry: LibraryEntry, items: Seq<TimelineItem>) -> Seq<JsonView>
    decreases items.len(),
{
    if items.len() == 0 {
        seq![]
    } else if is_segment(items.last()) {
        segment_records(entry, items.drop_last()).push(segment_record(entry, items.last()))
    } else {
        segment_records(entry, items.drop_last())
    }
}

fn legacy_segment(entry: &LibraryEntry, item: &TimelineItem, segment_type: &'static str) -> (value:
    Json)
    requires
        moment_fits(*entry, item.start_ms),
        moment_fits(*entry, item.finish()),
        segment_type@ == (if item.kind == TimelineKind::Encounter {
            "Boss"@
        } else {
            "Trash"@
        }),
    ensures
        value.model() == segment_record(*entry, *item),
{
    let end_ms: u64 = match item.end_ms {
        Some(end) => end,
        None => item.start_ms,
    };
    let start = iso_timestamp(entry.start_unix_ms + item.start_ms as i64);
    let end = iso_timestamp(entry.start_unix_ms + end_ms as i64);
    let mut fields: Vec<Field> = Vec::new();
    put(&mut fields, "segmentType", Json::Text(segment_type.to_owned()));
    put(&mut fields, "logStart", Json::Text(start));
    put(&mut fields, "logEnd", Json::Text(end));
    put(&mut fields, "timestamp", Json::Seconds { millis: item.start_ms });
    proof {
        assert(json::field_models(fields@) =~= segment_record(*entry, *item)->Record_0);
    }
    record(fields)
}

fn legacy_segments(entry: &LibraryEntry) -> (items: Vec<Json>)
    requires
        dates_fit(*entry),
        entry.details is Dungeon,
    ensures
        json::models(items@) == segment_records(*entry, entry.timeline@),
{
    let mut items: Vec<Json> = Vec::new();
    let mut i: usize = 0;
    assert(json::models(items@) =~= seq![]);
    while i < entry.timeline.len()
        invariant
            i <= entry.timeline@.len(),
            dates_fit(*entry),
            entry.details is Dungeon,
            json::models(items@) == segment_records(*entry, entry.timeline@.take(i as int)),
        decreases entry.timeline@.len() - i,
    {
        let item = &entry.timeline[i];
        assert(entry.timeline@.take(i + 1).drop_last() =~= entry.timeline@.take(i as int));
        if item.shape() == TimelineShape::Span {
            match item.kind {
                TimelineKind::Encounter => {
                    add_item(&mut items, legacy_segment(entry, item, "Boss"));
                },
                TimelineKind::Trash => {
                    add_item(&mut items, legacy_segment(entry, item, "Trash"));
                },
                _ => {},
            }
        }
        i = i + 1;
    }
    assert(entry.timeline@.take(i as int) =~= entry.timeline@);
    items
}

pub open spec fn player_record(player: PlayerSummary) -> JsonView {
    JsonView::Record(
        json::some_text("_GUID"@, player.guid) + seq![("_name"@, JsonView::Text(player.name@))]
            + json::some_text("_realm"@, player.realm) + json::some_number(
            "_specID"@,
            player.spec_id,
        ),
    )
}

fn legacy_player(player: &PlayerSummary) -> (value: Json)
    ensures
        value.model() == player_record(*player),
{
    let mut fields: Vec<Field> = Vec::new();
    put_some_text(&mut fields, "_GUID", &player.guid);
    put(&mut fields, "_name", Json::Text(player.name.clone()));
    put_some_text(&mut fields, "_realm", &player.realm);
    put_some_number(&mut fields, "_specID", player.spec_id);
    proof {
        assert(json::field_models(fields@) =~= player_record(*player)->Record_0);
    }
    record(fields)
}

pub open spec fn combatant_record(combatant: CombatantSummary) -> JsonView {
    JsonView::Record(
        json::some_text("_GUID"@, combatant.guid) + json::some_number("_teamID"@, combatant.team_id)
            + json::some_number("_specID"@, combatant.spec_id) + json::some_text(
            "_name"@,
            combatant.name,
        ) + json::some_text("_realm"@, combatant.realm) + json::some_text(
            "_region"@,
            combatant.region,
        ),
    )
}

fn legacy_combatant(combatant: &CombatantSummary) -> (value: Json)
    ensures
        value.model() == combatant_record(*combatant),
{
    let mut fields: Vec<Field> = Vec::new();
    put_some_text(&mut fields, "_GUID", &combatant.guid);
    put_some_number(&mut fields, "_teamID", combatant.team_id);
    put_some_number(&mut fields, "_specID", combatant.spec_id);
    put_some_text(&mut fields, "_name", &combatant.name);
    put_some_text(&mut fields, "_realm", &combatant.realm);
    put_some_text(&mut fields, "_region", &combatant.region);
    proof {
        assert(json::field_models(fields@) =~= combatant_record(*combatant)->Record_0);
    }
    record(fields)
}

fn legacy_combatants(combatants: &Vec<CombatantSummary>) -> (items: Vec<Json>)
    ensures
        json::models(items@) == combatants@.map_values(|c: CombatantSummary| combatant_record(c)),
{
    let ghost all = combatants@.map_values(|c: CombatantSummary| combatant_record(c));
    let mut items: Vec<Json> = Vec::new();
    let mut i: usize = 0;
    assert(json::models(items@) =~= all.take(0));
    while i < combatants.len()
        invariant
            i <= combatants@.len(),
            all == combatants@.map_values(|c: CombatantSummary| combatant_record(c)),
            json::models(items@) == all.take(i as int),
        decreases combatants@.len() - i,
    {
        add_item(&mut items, legacy_combatant(&combatants[i]));
        i = i + 1;
        assert(all.take(i as int) =~= all.take(i - 1).push(all[i - 1]));
    }
    assert(all.take(i as int) =~= all);
    items
}

pub open spec fn round_record(round: SoloRound) -> JsonView {
    JsonView::Record(
        seq![("round"@, JsonView::Int(round.round as int))] + seq![
            ("timestamp"@, JsonView::Seconds(round.start_ms as nat)),
        ] + seq![("result"@, JsonView::Bool(round.outcome == Outcome::Win))] + (
        match round.duration_ms {
            Some(duration_ms) => seq![("duration"@, JsonView::Seconds(duration_ms as nat))],
            None => seq![],
        }),
    )
}

fn legacy_round(round: &SoloRound) -> (value: Json)
    ensures
        value.model() == round_record(*round),
{
    let mut fields: Vec<Field> = Vec::new();
    put(&mut fields, "round", Json::Count(round.round as u64));
    put(&mut fields, "timestamp", Json::Seconds { millis: round.start_ms });
    put(&mut fields, "result", Json::Bool(round.outcome == Outcome::Win));
    match round.duration_ms {
        Some(duration_ms) => {
            put(&mut fields, "duration", Json::Seconds { millis: duration_ms });
        },
        None => {},
    }
    proof {
        assert(json::field_models(fields@) =~= round_record(*round)->Record_0);
    }
    record(fields)
}

fn legacy_rounds(rounds: &Vec<SoloRound>) -> (items: Vec<Json>)
    ensures
        json::models(items@) == rounds@.map_values(|r: SoloRound| round_record(r)),
{
    let ghost all = rounds@.map_values(|r: SoloRound| round_record(r));
    let mut items: Vec<Json> = Vec::new();
    let mut i: usize = 0;
    assert(json::models(items@) =~= all.take(0));
    while i < rounds.len()
        invariant
            i <= rounds@.len(),
            all == rounds@.map_values(|r: SoloRound| round_record(r)),
            json::models(items@) == all.take(i as int),
        decreases rounds@.len() - i,
    {
        add_item(&mut items, legacy_round(&rounds[i]));
        i = i + 1;
        assert(all.take(i as int) =~= all.take(i - 1).push(all[i - 1]));
    }
    assert(all.take(i as int) =~= all);
    items
}

fn numbers(values: &Vec<u32>) -> (items: Vec<Json>)
    ensures
        json::models(items@) == values@.map_values(|n: u32| JsonView::Int(n as int)),
{
    let ghost all = values@.map_values(|n: u32| JsonView::Int(n as int));
    let mut items: Vec<Json> = Vec::new();
    let mut i: usize = 0;
    assert(json::models(items@) =~= all.take(0));
    while i < values.len()
        invariant
            i <= values@.len(),
            all == values@.map_values(|n: u32| JsonView::Int(n as int)),
            json::models(items@) == all.take(i as int),
        decreases values@.len() - i,
    {
        add_item(&mut items, Json::Count(values[i] as u64));
        i = i + 1;
        assert(all.take(i as int) =~= all.take(i - 1).push(all[i - 1]));
    }
    assert(all.take(i as int) =~= all);
    items
}

/// The members that only one kind of activity has.
pub open spec fn details_fields(entry: LibraryEntry) -> Seq<(Seq<char>, JsonView)> {
    match entry.details {
        ActivityDetails::Raid {
            zone_id,
            zone_name,
            encounter_id,
            encounter_name,
            difficulty_id,
            difficulty,
            boss_percent,
            ..
        } => json::some_number("zoneID"@, zone_id) + json::some_text("zoneName"@, zone_name)
            + json::some_number("encounterID"@, encounter_id) + json::some_text(
            "encounterName"@,
            encounter_name,
        ) + json::some_number("difficultyID"@, difficulty_id) + json::some_text(
            "difficulty"@,
            difficulty,
        ) + json::some_number("bossPercent"@, boss_percent),
        ActivityDetails::Dungeon {
            zone_id,
            map_id,
            keystone_level,
            affixes,
            upgrade_level,
            ..
        } => json::some_number("zoneID"@, zone_id) + json::some_number("mapID"@, map_id)
            + json::some_number("keystoneLevel"@, keystone_level) + json::some_number(
            "upgradeLevel"@,
            upgrade_level,
        ) + seq![
            (
                "affixes"@,
                JsonView::List(affixes@.map_values(|n: u32| JsonView::Int(n as int))),
            ),
        ] + seq![
            ("challengeModeTimeline"@, JsonView::List(segment_records(entry, entry.timeline@))),
        ],
        ActivityDetails::ArenaOrBattleground { map_id, map_name, team_mmr } => json::some_number(
            "zoneID"@,
            map_id,
        ) + json::some_text("zoneName"@, map_name) + json::some_number("teamMMR"@, team_mmr),
        ActivityDetails::SoloRounds { map_id, map_name, rounds_won, rounds_played, rounds } =>
        json::some_number("zoneID"@, map_id) + json::some_text("zoneName"@, map_name)
            + json::some_number("soloShuffleRoundsWon"@, rounds_won) + json::some_number(
            "soloShuffleRoundsPlayed"@,
            rounds_played,
        ) + seq![
            (
                "soloShuffleTimeline"@,
                JsonView::List(rounds@.map_values(|r: SoloRound| round_record(r))),
            ),
        ],
        ActivityDetails::Clip { .. } | ActivityDetails::Manual => seq![],
    }
}

fn put_details(fields: &mut Vec<Field>, entry: &LibraryEntry)
    requires
        dates_fit(*entry),
    ensures
        json::field_models(final(fields)@) == json::field_models(old(fields)@) + details_fields(
            *entry,
        ),
{
    let mut own: Vec<Field> = Vec::new();
    match &entry.details {
        ActivityDetails::Raid {
            zone_id,
            zone_name,
            encounter_id,
            encounter_name,
            difficulty_id,
            difficulty,
            boss_percent,
            ..
        } => {
            put_some_number(&mut own, "zoneID", *zone_id);
            put_some_text(&mut own, "zoneName", zone_name);
            put_some_number(&mut own, "encounterID", *encounter_id);
            put_some_text(&mut own, "encounterName", encounter_name);
            put_some_number(&mut own, "difficultyID", *difficulty_id);
            put_some_text(&mut own, "difficulty", difficulty);
            put_some_number(&mut own, "bossPercent", *boss_percent);
        },
        ActivityDetails::Dungeon {
            zone_id,
            map_id,
            keystone_level,
            affixes,
            upgrade_level,
            ..
        } => {
            put_some_number(&mut own, "zoneID", *zone_id);
            put_some_number(&mut own, "mapID", *map_id);
            put_some_number(&mut own, "keystoneLevel", *keystone_level);
            put_some_number(&mut own, "upgradeLevel", *upgrade_level);
            put(&mut own, "affixes", list(numbers(affixes)));
            put(&mut own, "challengeModeTimeline", list(legacy_segments(entry)));
        },
        ActivityDetails::ArenaOrBattleground { map_id, map_name, team_mmr } => {
            put_some_number(&mut own, "zoneID", *map_id);
            put_some_text(&mut own, "zoneName", map_name);
            put_some_number(&mut own, "teamMMR", *team_mmr);
        },
        ActivityDetails::SoloRounds { map_id, map_name, rounds_won, rounds_played, rounds } => {
            put_some_number(&mut own, "zoneID", *map_id);
            put_some_text(&mut own, "zoneName", map_name);
            put_some_number(&mut own, "soloShuffleRoundsWon", *rounds_won);
            put_some_number(&mut own, "soloShuffleRoundsPlayed", *rounds_played);
            put(&mut own, "soloShuffleTimeline", list(legacy_rounds(rounds)));
        },
        ActivityDetails::Clip { .. } => {},
        ActivityDetails::Manual => {},
    }
    assert(json::field_models(own@) =~= details_fields(*entry));
    let ghost added = own@;
    fields.append(&mut own);
    assert(json::field_models(fields@) =~= json::field_models(old(fields)@) + json::field_models(
        added,
    ));
}

/// What a recording is scored as: a clip like the recording it was cut from.
pub open spec fn scored_as(entry: LibraryEntry) -> Category {
    match entry.details {
        ActivityDetails::Clip { source_category, .. } => source_category,
        _ => entry.category,
    }
}

/// The members that say what a video shows and when.
pub open spec fn identity_fields(entry: LibraryEntry) -> Seq<(Seq<char>, JsonView)> {
    seq![("category"@, JsonView::Text(category_name(entry.category)))] + (match entry.details {
        ActivityDetails::Clip { source_category, .. } => seq![
            ("parentCategory"@, JsonView::Text(category_name(source_category))),
        ] + seq![("clippedAt"@, JsonView::Int(entry.start_unix_ms as int))],
        _ => seq![],
    }) + seq![("duration"@, JsonView::Seconds(entry.duration_ms as nat))] + seq![
        ("start"@, JsonView::Int(entry.start_unix_ms as int)),
    ]
}

/// The members that say how it went and what the user made of it.
pub open spec fn outcome_fields(entry: LibraryEntry) -> Seq<(Seq<char>, JsonView)> {
    seq![("result"@, JsonView::Bool(succeeded(scored_as(entry), entry.outcome)))] + seq![
        ("flavour"@, JsonView::Text(flavour_name(entry.flavor))),
    ] + seq![("overrun"@, JsonView::Int(0))] + seq![
        ("protected"@, JsonView::Bool(entry.protected)),
    ] + (match entry.tag {
        Some(tag) if text::trim(tag@).len() > 0 => seq![("tag"@, JsonView::Text(tag@))],
        _ => seq![],
    })
}

/// The members that say what was recorded, and of whom.
pub open spec fn content_fields(entry: LibraryEntry, size: u64) -> Seq<(Seq<char>, JsonView)> {
    seq![
        (
            "uniqueHash"@,
            JsonView::Text(
                match entry.activity_hash {
                    Some(hash) => hash@,
                    None => Seq::<char>::empty(),
                },
            ),
        ),
    ] + seq![("size"@, JsonView::Int(size as int))] + (match entry.player {
        Some(player) => seq![("player"@, player_record(player))],
        None => seq![],
    }) + seq![
        (
            "combatants"@,
            JsonView::List(
                entry.combatants@.map_values(|c: CombatantSummary| combatant_record(c)),
            ),
        ),
    ] + seq![("deaths"@, JsonView::List(death_records(entry, entry.timeline@)))]
}

/// The members of a video's metadata, in the order they are written.
pub open spec fn metadata_fields(entry: LibraryEntry, size: u64) -> Seq<(Seq<char>, JsonView)> {
    identity_fields(entry) + outcome_fields(entry) + content_fields(entry, size) + details_fields(
        entry,
    )
}

/// The video's metadata in the shape the cloud API stores, carrying only the
/// keys it knows: the API maps them onto table columns, so an unknown key is
/// a failed insert.
#[verifier::spinoff_prover]
#[verifier::rlimit(50)]
pub fn cloud_metadata(entry: &LibraryEntry, size: u64) -> (metadata: Json)
    requires
        dates_fit(*entry),
    ensures
        metadata.model() == JsonView::Record(metadata_fields(*entry, size)),
{
    let mut fields: Vec<Field> = Vec::new();
    let parent = match &entry.details {
        ActivityDetails::Clip { source_category, .. } => Some(*source_category),
        _ => None,
    };
    let scored = match parent {
        Some(category) => category,
        None => entry.category,
    };
    put(&mut fields, "category", Json::Text(legacy_category(entry.category).to_owned()));
    match parent {
        Some(category) => {
            put(&mut fields, "parentCategory", Json::Text(legacy_category(category).to_owned()));
            put(&mut fields, "clippedAt", Json::Int(entry.start_unix_ms));
        },
        None => {},
    }
    put(&mut fields, "duration", Json::Seconds { millis: entry.duration_ms });
    put(&mut fields, "start", Json::Int(entry.start_unix_ms));
    assert(json::field_models(fields@) =~= identity_fields(*entry));
    put(&mut fields, "result", Json::Bool(legacy_result(scored, entry.outcome)));
    put(&mut fields, "flavour", Json::Text(legacy_flavour(&entry.flavor).to_owned()));
    put(&mut fields, "overrun", Json::Int(0));
    put(&mut fields, "protected", Json::Bool(entry.protected));
    match &entry.tag {
        Some(tag) => if !is_blank(tag) {
            put(&mut fields, "tag", Json::Text(tag.clone()));
        },
        None => {},
    }
    assert(json::field_models(fields@) =~= identity_fields(*entry) + outcome_fields(*entry));
    let hash = match &entry.activity_hash {
        Some(hash) => hash.clone(),
        None => String::new(),
    };
    put(&mut fields, "uniqueHash", Json::Text(hash));
    put(&mut fields, "size", Json::Count(size));
    match &entry.player {
        Some(player) => {
            put(&mut fields, "player", legacy_player(player));
        },
        None => {},
    }
    put(&mut fields, "combatants", list(legacy_combatants(&entry.combatants)));
    put(&mut fields, "deaths", list(legacy_deaths(entry)));
    assert(json::field_models(fields@) =~= identity_fields(*entry) + outcome_fields(*entry)
        + content_fields(*entry, size));
    put_details(&mut fields, entry);
    record(fields)
}

/// Whether the dates of a recording's metadata can all be written.
pub fn metadata_dates_fit(entry: &LibraryEntry) -> (fit: bool)
    ensures
        fit == dates_fit(*entry),
{
    let dungeon = match &entry.details {
        ActivityDetails::Dungeon { .. } => true,
        _ => false,
    };
    let mut i: usize = 0;
    while i < entry.timeline.len()
        invariant
            i <= entry.timeline@.len(),
            dungeon == (entry.details is Dungeon),
            forall|j: int|
                0 <= j < i ==> {
                    let item = #[trigger] entry.timeline@[j];
                    &&& item.kind == TimelineKind::Death ==> moment_fits(*entry, item.start_ms)
                    &&& entry.details is Dungeon && is_segment(item) ==> moment_fits(
                        *entry,
                        item.start_ms,
                    ) && moment_fits(*entry, item.finish())
                },
        decreases entry.timeline@.len() - i,
    {
        let item = &entry.timeline[i];
        let death = item.kind == TimelineKind::Death;
        let segment = item.shape() == TimelineShape::Span && (item.kind == TimelineKind::Encounter
            || item.kind == TimelineKind::Trash);
        let end_ms: u64 = match item.end_ms {
            Some(end) => end,
            None => item.start_ms,
        };
        let start_fits = entry.start_unix_ms.checked_add(item.start_ms as i64).is_some();
        let end_fits = entry.start_unix_ms.checked_add(end_ms as i64).is_some();
        if (death && !start_fits) || (dungeon && segment && !(start_fits && end_fits)) {
            assert(item == entry.timeline@[i as int]);
            return false;
        }
        i = i + 1;
    }
    true
}

pub const API_URL: &'static str = "https://api.warcraftrecorder.com/api";

pub const WEBSITE_URL: &'static str = "https://warcraftrecorder.com";

/// Files at or above this size go up in parts of this size.
pub const PART_BYTES: u64 = 104_857_600;

/// Direct-to-bucket PUTs are tried this many times.
pub const PUT_ATTEMPTS: u32 = 5;

/// How much is sent between two progress reports.
pub const PROGRESS_STEP_BYTES: u64 = 1_048_576;

/// Why the cloud did not do what it was asked.
#[derive(Debug, PartialEq, Eq)]
pub enum CloudError {
    /// The API rejected the account name or password.
    Unauthorized,
    NotAffiliated(String),
    NoWritePermission(String),
    /// The guild moved to Warcraft Logs; the old API no longer accepts it.
    Migrated(String),
    Http { status: u16, body: String },
    Transport(String),
    Io(String),
    InvalidResponse(String),
}

/// A text in quotes, with what is special in it escaped, as `{:?}` writes it.
pub uninterp spec fn quoted(text: Seq<char>) -> Seq<char>;

/// `Debug` of `str`, which puts the text in quotes and escapes what is
/// special in it.
#[verifier::external_body]
fn quote(value: &str) -> (out: String)
    ensures
        out@ == quoted(value@),
{
    format!("{:?}", value)
}

impl CloudError {
    /// The guild an error is about.
    pub open spec fn guild(self) -> Seq<char> {
        match self {
            CloudError::NotAffiliated(guild) => guild@,
            CloudError::NoWritePermission(guild) => guild@,
            CloudError::Migrated(guild) => guild@,
            _ => Seq::<char>::empty(),
        }
    }

    /// The error in words, with the guild it is about in quotes.
    pub open spec fn words(self, guild: Seq<char>) -> Seq<char> {
        match self {
            CloudError::Unauthorized => "the cloud account name or password was rejected"@,
            CloudError::NotAffiliated(_) => "the cloud account is not a member of guild "@ + guild,
            CloudError::NoWritePermission(_) => "the cloud account may not upload to guild "@
                + guild,
            CloudError::Migrated(_) => "guild "@ + guild
                + " has been migrated and no longer accepts uploads from this API"@,
            CloudError::Http { status, body } => if body@.len() == 0 {
                "the cloud API answered HTTP "@ + text::decimal(status as nat)
            } else {
                "the cloud API answered HTTP "@ + text::decimal(status as nat) + ": "@ + body@
            },
            CloudError::Transport(error) => "network error: "@ + error@,
            CloudError::Io(error) => "could not read the recording: "@ + error@,
            CloudError::InvalidResponse(error) => "unexpected cloud API response: "@ + error@,
        }
    }

    /// Describe the error, for a guild that is in quotes already.
    pub fn describe(&self, guild: &str) -> (out: String)
        ensures
            out@ == self.words(guild@),
    {
        match self {
            CloudError::Unauthorized =>
                "the cloud account name or password was rejected".to_owned(),
            CloudError::NotAffiliated(_) => {
                let mut out = "the cloud account is not a member of guild ".to_owned();
                out.append(guild);
                out
            },
            CloudError::NoWritePermission(_) => {
                let mut out = "the cloud account may not upload to guild ".to_owned();
                out.append(guild);
                out
            },
            CloudError::Migrated(_) => {
                let mut out = "guild ".to_owned();
                out.append(guild);
                out.append(" has been migrated and no longer accepts uploads from this API");
                out
            },
            CloudError::Http { status, body } => {
                let mut out = "the cloud API answered HTTP ".to_owned();
                push_decimal(&mut out, *status as u64);
                if !body.as_str().is_empty() {
                    out.append(": ");
                    out.append(body);
                }
                out
            },
            CloudError::Transport(error) => {
                let mut out = "network error: ".to_owned();
                out.append(error);
                out
            },
            CloudError::Io(error) => {
                let mut out = "could not read the recording: ".to_owned();
                out.append(error);
                out
            },
            CloudError::InvalidResponse(error) => {
                let mut out = "unexpected cloud API response: ".to_owned();
                out.append(error);
                out
            },
        }
    }

    /// The error in words.
    pub fn message(&self) -> (out: String)
        ensures
            out@ == self.words(quoted(self.guild())),
    {
        let guild = match self {
            CloudError::NotAffiliated(guild) => quote(guild),
            CloudError::NoWritePermission(guild) => quote(guild),
            CloudError::Migrated(guild) => quote(guild),
            _ => String::new(),
        };
        self.describe(&guild)
    }
}

/// What an answer's status means.
pub open spec fn means(status: u16, body: Seq<char>, error: Option<CloudError>) -> bool {
    &&& 200 <= status <= 299 <==> error is None
    &&& status == 401 ==> error == Some(CloudError::Unauthorized)
    &&& !(200 <= status <= 299) && status != 401 ==> (error matches Some(CloudError::Http {
        status: s,
        body: b,
    }) && s == status && b@ == text::trim(body))
}

/// What a status means: nothing for a success, or the error with the answer's
/// trimmed body.
pub fn status_error(status: u16, body: &str) -> (error: Option<CloudError>)
    ensures
        means(status, body@, error),
{
    if 200 <= status && status <= 299 {
        None
    } else if status == 401 {
        Some(CloudError::Unauthorized)
    } else {
        Some(CloudError::Http { status, body: trimmed(body) })
    }
}

/// A guild the account belongs to, and whether it may upload there.
#[derive(Clone, Debug, PartialEq, Eq)]
pub struct Affiliation {
    pub guild_name: String,
    pub write: bool,
}

#[derive(Clone, Copy, Debug, PartialEq, Eq, Structural)]
pub enum Method {
    Get,
    Post,
}

/// A call of the API. Every call carries the account's authorization.
#[derive(Debug, PartialEq, Eq)]
pub struct Request {
    pub method: Method,
    pub url: String,
    pub authorization: String,
    pub body: Option<Json>,
}

/// Whether `key` is what a recording is stored under.
pub open spec fn is_key(entry: LibraryEntry, key: Result<String, CloudError>) -> bool {
    match text::file_name(entry.media_path@) {
        Some(name) => key matches Ok(k) && k@ == name,
        None => key matches Err(CloudError::Io(error)) && error@
            == "the recording has no file name"@,
    }
}

/// Whether `name` is what a recording is called in the cloud.
pub open spec fn is_name(entry: LibraryEntry, name: Result<String, CloudError>) -> bool {
    match text::file_name(entry.media_path@) {
        Some(file) => name matches Ok(n) && n@ == text::without_suffix(file, ".mp4"@),
        None => name matches Err(CloudError::Io(error)) && error@
            == "the recording has no file name"@,
    }
}

/// The key a recording is stored under: its file's name.
pub fn video_key(entry: &LibraryEntry) -> (key: Result<String, CloudError>)
    ensures
        is_key(*entry, key),
{
    match file_name_of(&entry.media_path) {
        Some(name) => Ok(name),
        None => Err(CloudError::Io("the recording has no file name".to_owned())),
    }
}

/// The name a recording has in the cloud: its key without `.mp4`.
pub fn video_name(entry: &LibraryEntry) -> (name: Result<String, CloudError>)
    ensures
        is_name(*entry, name),
{
    match video_key(entry) {
        Ok(key) => Ok(strip_ending(&key, ".mp4")),
        Err(error) => Err(error),
    }
}

/// What kind of file a key names.
pub fn content_type(key: &str) -> (kind: &'static str)
    ensures
        kind@ == (if text::has_suffix(key@, ".png"@) {
            "image/png"@
        } else {
            "video/mp4"@
        }),
{
    if ends_with(key, ".png") {
        "image/png"
    } else {
        "video/mp4"
    }
}

/// One account's view of the cloud: where it is, who calls and for which
/// guild.
#[derive(Clone, Debug, PartialEq, Eq)]
pub struct CloudClient {
    pub api: String,
    pub website: String,
    pub auth: String,
    pub guild: String,
    pub part_bytes: u64,
}

/// The first affiliation with a guild of this name.
pub open spec fn find_affiliation(affiliations: Seq<Affiliation>, guild: Seq<char>) -> Option<
    Affiliation,
>
    decreases affiliations.len(),
{
    if affiliations.len() == 0 {
        None
    } else if affiliations[0].guild_name@ == guild {
        Some(affiliations[0])
    } else {
        find_affiliation(affiliations.skip(1), guild)
    }
}

/// The error names this guild.
pub open spec fn names_guild(error: CloudError, guild: String) -> bool {
    match error {
        CloudError::NotAffiliated(name) => name == guild,
        CloudError::NoWritePermission(name) => name == guild,
        CloudError::Migrated(name) => name == guild,
        _ => false,
    }
}

/// The id of a share link, as the API answers it.
#[derive(Debug, PartialEq, Eq)]
pub enum LinkId {
    Text(String),
    Number(String),
    /// Anything else, in the JSON it came as.
    Other(String),
}

impl CloudClient {
    /// Parts are never empty.
    pub open spec fn wf(self) -> bool {
        self.part_bytes > 0
    }

    pub fn new(credentials: &CloudCredentials) -> (client: Self)
        ensures
            client.wf(),
            client.serves(*credentials, API_URL@, WEBSITE_URL@),
    {
        CloudClient::with_urls(credentials, API_URL, WEBSITE_URL)
    }

    /// A client for an account, at these addresses.
    pub open spec fn serves(
        self,
        credentials: CloudCredentials,
        api: Seq<char>,
        website: Seq<char>,
    ) -> bool {
        &&& self.api@ == text::trim_end_char(api, '/')
        &&& self.website@ == text::trim_end_char(website, '/')
        &&& self.auth@ == encoding::basic_auth_text(credentials.user@, credentials.password@)
        &&& self.guild == credentials.guild
        &&& self.part_bytes == PART_BYTES
    }

    /// Point the client at another API.
    pub fn with_urls(credentials: &CloudCredentials, api: &str, website: &str) -> (client: Self)
        ensures
            client.wf(),
            client.serves(*credentials, api@, website@),
    {
        CloudClient {
            api: trimmed_end(api, '/'),
            website: trimmed_end(website, '/'),
            auth: basic_auth(&credentials.user, &credentials.password),
            guild: credentials.guild.clone(),
            part_bytes: PART_BYTES,
        }
    }

    /// Override the multipart threshold and part size.
    pub fn with_part_bytes(self, part_bytes: u64) -> (client: Self)
        ensures
            client.wf(),
            client == (CloudClient {
                part_bytes: if part_bytes == 0 {
                    1
                } else {
                    part_bytes
                },
                ..self
            }),
    {
        CloudClient {
            api: self.api,
            website: self.website,
            auth: self.auth,
            guild: self.guild,
            part_bytes: if part_bytes == 0 {
                1
            } else {
                part_bytes
            },
        }
    }

    /// The URL of something that belongs to the guild.
    pub open spec fn guild_path(self, suffix: Seq<char>) -> Seq<char> {
        self.api@ + "/guild/"@ + encoding::percent_text(vstd::utf8::encode_utf8(self.guild@))
            + suffix
    }

    pub fn guild_url(&self, suffix: &str) -> (url: String)
        ensures
            url@ == self.guild_path(suffix@),
    {
        let mut url = self.api.clone();
        url.append("/guild/");
        url.append(&encode_component(&self.guild));
        url.append(suffix);
        url
    }

    /// Whether `request` is this account's call of `url`.
    pub open spec fn calls(
        self,
        request: Request,
        method: Method,
        url: Seq<char>,
        body: Option<JsonView>,
    ) -> bool {
        &&& request.method == method
        &&& request.url@ == url
        &&& request.authorization == self.auth
        &&& match request.body {
            Some(json) => body == Some(json.model()),
            None => body is None,
        }
    }

    /// Ask which guilds the account belongs to.
    pub fn affiliations_request(&self) -> (request: Request)
        ensures
            self.calls(request, Method::Get, self.api@ + "/user/affiliations"@, None),
    {
        let mut url = self.api.clone();
        url.append("/user/affiliations");
        Request { method: Method::Get, url, authorization: self.auth.clone(), body: None }
    }

    /// Ask about the guild.
    pub fn guild_request(&self) -> (request: Request)
        ensures
            self.calls(request, Method::Get, self.guild_path(""@), None),
    {
        Request {
            method: Method::Get,
            url: self.guild_url(""),
            authorization: self.auth.clone(),
            body: None,
        }
    }

    /// The account must belong to the guild and may upload to it.
    pub fn check_affiliations(&self, affiliations: &Vec<Affiliation>) -> (checked: Result<
        (),
        CloudError,
    >)
        ensures
            match find_affiliation(affiliations@, self.guild@) {
                None => checked == Err::<(), CloudError>(CloudError::NotAffiliated(self.guild)),
                Some(affiliation) => if affiliation.write {
                    checked is Ok
                } else {
                    checked == Err::<(), CloudError>(CloudError::NoWritePermission(self.guild))
                },
            },
    {
        let mut i: usize = 0;
        assert(affiliations@.skip(0) =~= affiliations@);
        while i < affiliations.len()
            invariant
                i <= affiliations@.len(),
                find_affiliation(affiliations@.skip(i as int), self.guild@) == find_affiliation(
                    affiliations@,
                    self.guild@,
                ),
            decreases affiliations@.len() - i,
        {
            assert(affiliations@.skip(i as int).skip(1) =~= affiliations@.skip(i + 1));
            if same_text(&affiliations[i].guild_name, &self.guild) {
                if affiliations[i].write {
                    return Ok(());
                }
                return Err(CloudError::NoWritePermission(self.guild.clone()));
            }
            i = i + 1;
        }
        Err(CloudError::NotAffiliated(self.guild.clone()))
    }

    /// A guild that has moved takes no uploads.
    pub fn check_migration(&self, migrated: bool) -> (checked: Result<(), CloudError>)
        ensures
            checked == (if migrated {
                Err::<(), CloudError>(CloudError::Migrated(self.guild))
            } else {
                Ok(())
            }),
    {
        if migrated {
            Err(CloudError::Migrated(self.guild.clone()))
        } else {
            Ok(())
        }
    }

    /// Whether the account can upload to the configured guild, from what the
    /// API says about the account and the guild.
    pub fn check_access(&self, affiliations: &Vec<Affiliation>, migrated: bool) -> (checked: Result<
        (),
        CloudError,
    >)
        ensures
            checked is Ok <==> (find_affiliation(affiliations@, self.guild@) matches Some(a)
                && a.write) && !migrated,
            checked matches Err(error) ==> names_guild(error, self.guild) && match error {
                CloudError::NotAffiliated(_) => find_affiliation(affiliations@, self.guild@)
                    is None,
                CloudError::NoWritePermission(_) => find_affiliation(
                    affiliations@,
                    self.guild@,
                ) matches Some(a) && !a.write,
                _ => find_affiliation(affiliations@, self.guild@) matches Some(a) && a.write
                    && migrated,
            },
    {
        match self.check_affiliations(affiliations) {
            Err(error) => Err(error),
            Ok(_) => self.check_migration(migrated),
        }
    }

    /// Whether `request` asks for the link to a recording.
    pub open spec fn asks_for_link(
        self,
        entry: LibraryEntry,
        request: Result<Request, CloudError>,
    ) -> bool {
        match text::file_name(entry.media_path@) {
            Some(file) => request matches Ok(r) && self.calls(
                r,
                Method::Post,
                self.guild_path(
                    "/video/"@ + encoding::percent_text(
                        vstd::utf8::encode_utf8(text::without_suffix(file, ".mp4"@)),
                    ) + "/link"@,
                ),
                None,
            ),
            None => request matches Err(CloudError::Io(error)) && error@
                == "the recording has no file name"@,
        }
    }

    /// Whether `link` is the public link with this id.
    pub open spec fn links_to(self, id: LinkId, link: Result<String, CloudError>) -> bool {
        match id {
            LinkId::Text(text) => link matches Ok(l) && l@ == self.website@ + "/link/"@ + text@,
            LinkId::Number(text) => link matches Ok(l) && l@ == self.website@ + "/link/"@ + text@,
            LinkId::Other(json) => link matches Err(CloudError::InvalidResponse(error)) && error@
                == "link id is not a string or number: "@ + json@,
        }
    }

    /// Ask for a public link to an uploaded video.
    pub fn link_request(&self, entry: &LibraryEntry) -> (request: Result<Request, CloudError>)
        ensures
            self.asks_for_link(*entry, request),
    {
        match video_name(entry) {
            Ok(name) => {
                let mut suffix = "/video/".to_owned();
                suffix.append(&encode_component(&name));
                suffix.append("/link");
                Ok(
                    Request {
                        method: Method::Post,
                        url: self.guild_url(&suffix),
                        authorization: self.auth.clone(),
                        body: None,
                    },
                )
            },
            Err(error) => Err(error),
        }
    }

    /// The public link with this id.
    pub fn share_link(&self, id: LinkId) -> (link: Result<String, CloudError>)
        ensures
            self.links_to(id, link),
    {
        let text = match id {
            LinkId::Text(text) => text,
            LinkId::Number(text) => text,
            LinkId::Other(json) => {
                let mut error = "link id is not a string or number: ".to_owned();
                error.append(&json);
                return Err(CloudError::InvalidResponse(error));
            },
        };
        let mut link = self.website.clone();
        link.append("/link/");
        link.append(&text);
        Ok(link)
    }
}

} // verus!
