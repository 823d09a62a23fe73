//! The keys of a video's metadata: the cloud API maps them onto table columns,
//! so a key that it does not know, or one that comes twice, is a failed insert.
use vstd::prelude::*;

use crate::cloud;
use crate::domain::{ActivityDetails, LibraryEntry, SoloRound};
use crate::json;
use crate::json::JsonView;

verus! {

/// Where a key stands among those that the API knows; negative for any other.
pub open spec fn key_place(key: Seq<char>) -> int {
    if key == "category"@ {
        0
    } else if key == "parentCategory"@ {
        1
    } else if key == "clippedAt"@ {
        2
    } else if key == "duration"@ {
        3
    } else if key == "start"@ {
        4
    } else if key == "result"@ {
        5
    } else if key == "flavour"@ {
        6
    } else if key == "overrun"@ {
        7
    } else if key == "protected"@ {
        8
    } else if key == "tag"@ {
        9
    } else if key == "uniqueHash"@ {
        10
    } else if key == "size"@ {
        11
    } else if key == "player"@ {
        12
    } else if key == "combatants"@ {
        13
    } else if key == "deaths"@ {
        14
    } else if key == "zoneID"@ {
        15
    } else if key == "zoneName"@ {
        16
    } else if key == "encounterID"@ {
        17
    } else if key == "encounterName"@ {
        18
    } else if key == "difficultyID"@ {
        19
    } else if key == "difficulty"@ {
        20
    } else if key == "bossPercent"@ {
        21
    } else if key == "mapID"@ {
        22
    } else if key == "keystoneLevel"@ {
        23
    } else if key == "upgradeLevel"@ {
        24
    } else if key == "affixes"@ {
        25
    } else if key == "challengeModeTimeline"@ {
        26
    } else if key == "teamMMR"@ {
        27
    } else if key == "soloShuffleRoundsWon"@ {
        28
    } else if key == "soloShuffleRoundsPlayed"@ {
        29
    } else if key == "soloShuffleTimeline"@ {
        30
    } else {
        -1
    }
}

/// The API has a column for the key.
pub open spec fn known_key(key: Seq<char>) -> bool {
    key_place(key) >= 0
}

/// The members stand in the API's order, from place `low` up to but without
/// `high`.
spec fn ordered(fields: Seq<(Seq<char>, JsonView)>, low: int, high: int) -> bool {
    &&& low <= high
    &&& forall|i: int|
        0 <= i < fields.len() ==> low <= key_place((#[trigger] fields[i]).0) < high
    &&& forall|i: int, j: int|
        0 <= i < j < fields.len() ==> key_place((#[trigger] fields[i]).0) < key_place(
            (#[trigger] fields[j]).0,
        )
}

proof fn lemma_ordered_behind(
    front: Seq<(Seq<char>, JsonView)>,
    back: Seq<(Seq<char>, JsonView)>,
    low: int,
    middle: int,
    high: int,
)
    requires
        ordered(front, low, middle),
        ordered(back, middle, high),
    ensures
        ordered(front + back, low, high),
{
    let all = front + back;
    assert forall|i: int| 0 <= i < all.len() implies low <= key_place((#[trigger] all[i]).0)
        < high by {
        if i < front.len() {
            assert(all[i] == front[i]);
        } else {
            assert(all[i] == back[i - front.len()]);
        }
    }
    assert forall|i: int, j: int| 0 <= i < j < all.len() implies key_place((#[trigger] all[i]).0)
        < key_place((#[trigger] all[j]).0) by {
        if i < front.len() {
            assert(all[i] == front[i]);
        } else {
            assert(all[i] == back[i - front.len()]);
        }
        if j < front.len() {
            assert(all[j] == front[j]);
        } else {
            assert(all[j] == back[j - front.len()]);
        }
    }
}

proof fn lemma_one(key: Seq<char>, value: JsonView)
    requires
        known_key(key),
    ensures
        ordered(seq![(key, value)], key_place(key), key_place(key) + 1),
{
}

proof fn lemma_places()
    ensures
        key_place("category"@) == 0,
        key_place("parentCategory"@) == 1,
        key_place("clippedAt"@) == 2,
        key_place("duration"@) == 3,
        key_place("start"@) == 4,
        key_place("result"@) == 5,
        key_place("flavour"@) == 6,
        key_place("overrun"@) == 7,
        key_place("protected"@) == 8,
        key_place("tag"@) == 9,
        key_place("uniqueHash"@) == 10,
        key_place("size"@) == 11,
        key_place("player"@) == 12,
        key_place("combatants"@) == 13,
        key_place("deaths"@) == 14,
        key_place("zoneID"@) == 15,
        key_place("zoneName"@) == 16,
        key_place("encounterID"@) == 17,
        key_place("encounterName"@) == 18,
        key_place("difficultyID"@) == 19,
        key_place("difficulty"@) == 20,
        key_place("bossPercent"@) == 21,
        key_place("mapID"@) == 22,
        key_place("keystoneLevel"@) == 23,
        key_place("upgradeLevel"@) == 24,
        key_place("affixes"@) == 25,
        key_place("challengeModeTimeline"@) == 26,
        key_place("teamMMR"@) == 27,
        key_place("soloShuffleRoundsWon"@) == 28,
        key_place("soloShuffleRoundsPlayed"@) == 29,
        key_place("soloShuffleTimeline"@) == 30,
{
    reveal_strlit("category");
    reveal_strlit("parentCategory");
    reveal_strlit("clippedAt");
    reveal_strlit("duration");
    reveal_strlit("start");
    reveal_strlit("result");
    reveal_strlit("flavour");
    reveal_strlit("overrun");
    reveal_strlit("protected");
    reveal_strlit("tag");
    reveal_strlit("uniqueHash");
    reveal_strlit("size");
    reveal_strlit("player");
    reveal_strlit("combatants");
    reveal_strlit("deaths");
    reveal_strlit("zoneID");
    reveal_strlit("zoneName");
    reveal_strlit("encounterID");
    reveal_strlit("encounterName");
    reveal_strlit("difficultyID");
    reveal_strlit("difficulty");
    reveal_strlit("bossPercent");
    reveal_strlit("mapID");
    reveal_strlit("keystoneLevel");
    reveal_strlit("upgradeLevel");
    reveal_strlit("affixes");
    reveal_strlit("challengeModeTimeline");
    reveal_strlit("teamMMR");
    reveal_strlit("soloShuffleRoundsWon");
    reveal_strlit("soloShuffleRoundsPlayed");
    reveal_strlit("soloShuffleTimeline");
    assert("category"@.len() == 8);
    assert("parentCategory"@.len() == 14);
    assert("clippedAt"@.len() == 9);
    assert("duration"@.len() == 8);
    assert("start"@.len() == 5);
    assert("result"@.len() == 6);
    assert("flavour"@.len() == 7);
    assert("overrun"@.len() == 7);
    assert("protected"@.len() == 9);
    assert("tag"@.len() == 3);
    assert("uniqueHash"@.len() == 10);
    assert("size"@.len() == 4);
    assert("player"@.len() == 6);
    assert("combatants"@.len() == 10);
    assert("deaths"@.len() == 6);
    assert("zoneID"@.len() == 6);
    assert("zoneName"@.len() == 8);
    assert("encounterID"@.len() == 11);
    assert("encounterName"@.len() == 13);
    assert("difficultyID"@.len() == 12);
    assert("difficulty"@.len() == 10);
    assert("bossPercent"@.len() == 11);
    assert("mapID"@.len() == 5);
    assert("keystoneLevel"@.len() == 13);
    assert("upgradeLevel"@.len() == 12);
    assert("affixes"@.len() == 7);
    assert("challengeModeTimeline"@.len() == 21);
    assert("teamMMR"@.len() == 7);
    assert("soloShuffleRoundsWon"@.len() == 20);
    assert("soloShuffleRoundsPlayed"@.len() == 23);
    assert("soloShuffleTimeline"@.len() == 19);
    assert("duration"@[0] == 'd');
    assert("category"@[0] == 'c');
    assert("overrun"@[0] == 'o');
    assert("flavour"@[0] == 'f');
    assert("protected"@[0] == 'p');
    assert("clippedAt"@[0] == 'c');
    assert("player"@[0] == 'p');
    assert("result"@[0] == 'r');
    assert("combatants"@[0] == 'c');
    assert("uniqueHash"@[0] == 'u');
    assert("deaths"@[0] == 'd');
    assert("zoneID"@[0] == 'z');
    assert("zoneName"@[0] == 'z');
    assert("difficulty"@[0] == 'd');
    assert("bossPercent"@[0] == 'b');
    assert("encounterID"@[0] == 'e');
    assert("mapID"@[0] == 'm');
    assert("start"@[0] == 's');
    assert("keystoneLevel"@[0] == 'k');
    assert("encounterName"@[0] == 'e');
    assert("upgradeLevel"@[0] == 'u');
    assert("difficultyID"@[0] == 'd');
    assert("affixes"@[0] == 'a');
    assert("teamMMR"@[0] == 't');
}

proof fn lemma_some_number(key: Seq<char>, value: Option<u32>)
    requires
        known_key(key),
    ensures
        ordered(json::some_number(key, value), key_place(key), key_place(key) + 1),
{
}

proof fn lemma_some_text(key: Seq<char>, value: Option<String>)
    requires
        known_key(key),
    ensures
        ordered(json::some_text(key, value), key_place(key), key_place(key) + 1),
{
}

proof fn lemma_identity(entry: LibraryEntry)
    ensures
        ordered(cloud::identity_fields(entry), 0, 5),
{
    lemma_places();
    let fields = cloud::identity_fields(entry);
    if entry.details is Clip {
        assert(fields.len() == 5);
        assert(fields[1].0 == "parentCategory"@);
        assert(fields[2].0 == "clippedAt"@);
        assert(fields[3].0 == "duration"@);
        assert(fields[4].0 == "start"@);
    } else {
        assert(fields.len() == 3);
        assert(fields[1].0 == "duration"@);
        assert(fields[2].0 == "start"@);
    }
    assert(fields[0].0 == "category"@);
}

proof fn lemma_outcome(entry: LibraryEntry)
    ensures
        ordered(cloud::outcome_fields(entry), 5, 10),
{
    lemma_places();
    let fields = cloud::outcome_fields(entry);
    assert(4 <= fields.len() <= 5);
    assert(fields[0].0 == "result"@);
    assert(fields[1].0 == "flavour"@);
    assert(fields[2].0 == "overrun"@);
    assert(fields[3].0 == "protected"@);
    assert(fields.len() == 5 ==> fields[4].0 == "tag"@);
}

proof fn lemma_content(entry: LibraryEntry, size: u64)
    ensures
        ordered(cloud::content_fields(entry, size), 10, 15),
{
    lemma_places();
    let fields = cloud::content_fields(entry, size);
    if entry.player is Some {
        assert(fields.len() == 5);
        assert(fields[2].0 == "player"@);
        assert(fields[3].0 == "combatants"@);
        assert(fields[4].0 == "deaths"@);
    } else {
        assert(fields.len() == 4);
        assert(fields[2].0 == "combatants"@);
        assert(fields[3].0 == "deaths"@);
    }
    assert(fields[0].0 == "uniqueHash"@);
    assert(fields[1].0 == "size"@);
}

/// A group of members with one more behind it.
proof fn lemma_and_then(
    front: Seq<(Seq<char>, JsonView)>,
    piece: Seq<(Seq<char>, JsonView)>,
    low: int,
    middle: int,
    place: int,
)
    requires
        ordered(front, low, middle),
        ordered(piece, place, place + 1),
        middle <= place,
    ensures
        ordered(front + piece, low, place + 1),
{
    lemma_ordered_behind(front, piece, low, place, place + 1);
}

proof fn lemma_details(entry: LibraryEntry)
    ensures
        ordered(cloud::details_fields(entry), 15, 31),
{
    lemma_places();
    match entry.details {
        ActivityDetails::Raid {
            zone_id,
            zone_name,
            encounter_id,
            encounter_name,
            difficulty_id,
            difficulty,
            boss_percent,
            ..
        } => {
            let a = json::some_number("zoneID"@, zone_id);
            let b = a + json::some_text("zoneName"@, zone_name);
            let c = b + json::some_number("encounterID"@, encounter_id);
            let d = c + json::some_text("encounterName"@, encounter_name);
            let e = d + json::some_number("difficultyID"@, difficulty_id);
            let f = e + json::some_text("difficulty"@, difficulty);
            lemma_some_number("zoneID"@, zone_id);
            lemma_some_text("zoneName"@, zone_name);
            lemma_some_number("encounterID"@, encounter_id);
            lemma_some_text("encounterName"@, encounter_name);
            lemma_some_number("difficultyID"@, difficulty_id);
            lemma_some_text("difficulty"@, difficulty);
            lemma_some_number("bossPercent"@, boss_percent);
            lemma_and_then(a, json::some_text("zoneName"@, zone_name), 15, 16, 16);
            lemma_and_then(b, json::some_number("encounterID"@, encounter_id), 15, 17, 17);
            lemma_and_then(c, json::some_text("encounterName"@, encounter_name), 15, 18, 18);
            lemma_and_then(d, json::some_number("difficultyID"@, difficulty_id), 15, 19, 19);
            lemma_and_then(e, json::some_text("difficulty"@, difficulty), 15, 20, 20);
            lemma_and_then(f, json::some_number("bossPercent"@, boss_percent), 15, 21, 21);
        },
        ActivityDetails::Dungeon {
            zone_id,
            map_id,
            keystone_level,
            affixes,
            upgrade_level,
            ..
        } => {
            let affix_list = JsonView::List(affixes@.map_values(|n: u32| JsonView::Int(n as int)));
            let segments = JsonView::List(cloud::segment_records(entry, entry.timeline@));
            let a = json::some_number("zoneID"@, zone_id);
            let b = a + json::some_number("mapID"@, map_id);
            let c = b + json::some_number("keystoneLevel"@, keystone_level);
            let d = c + json::some_number("upgradeLevel"@, upgrade_level);
            let e = d + seq![("affixes"@, affix_list)];
            lemma_some_number("zoneID"@, zone_id);
            lemma_some_number("mapID"@, map_id);
            lemma_some_number("keystoneLevel"@, keystone_level);
            lemma_some_number("upgradeLevel"@, upgrade_level);
            lemma_one("affixes"@, affix_list);
            lemma_one("challengeModeTimeline"@, segments);
            lemma_and_then(a, json::some_number("mapID"@, map_id), 15, 16, 22);
            lemma_and_then(b, json::some_number("keystoneLevel"@, keystone_level), 15, 23, 23);
            lemma_and_then(c, json::some_number("upgradeLevel"@, upgrade_level), 15, 24, 24);
            lemma_and_then(d, seq![("affixes"@, affix_list)], 15, 25, 25);
            lemma_and_then(e, seq![("challengeModeTimeline"@, segments)], 15, 26, 26);
        },
        ActivityDetails::ArenaOrBattleground { map_id, map_name, team_mmr } => {
            let a = json::some_number("zoneID"@, map_id);
            let b = a + json::some_text("zoneName"@, map_name);
            lemma_some_number("zoneID"@, map_id);
            lemma_some_text("zoneName"@, map_name);
            lemma_some_number("teamMMR"@, team_mmr);
            lemma_and_then(a, json::some_text("zoneName"@, map_name), 15, 16, 16);
            lemma_and_then(b, json::some_number("teamMMR"@, team_mmr), 15, 17, 27);
        },
        ActivityDetails::SoloRounds { map_id, map_name, rounds_won, rounds_played, rounds } => {
            let timeline = JsonView::List(
                rounds@.map_values(|r: SoloRound| cloud::round_record(r)),
            );
            let a = json::some_number("zoneID"@, map_id);
            let b = a + json::some_text("zoneName"@, map_name);
            let c = b + json::some_number("soloShuffleRoundsWon"@, rounds_won);
            let d = c + json::some_number("soloShuffleRoundsPlayed"@, rounds_played);
            lemma_some_number("zoneID"@, map_id);
            lemma_some_text("zoneName"@, map_name);
            lemma_some_number("soloShuffleRoundsWon"@, rounds_won);
            lemma_some_number("soloShuffleRoundsPlayed"@, rounds_played);
            lemma_one("soloShuffleTimeline"@, timeline);
            lemma_and_then(a, json::some_text("zoneName"@, map_name), 15, 16, 16);
            lemma_and_then(b, json::some_number("soloShuffleRoundsWon"@, rounds_won), 15, 17, 28);
            lemma_and_then(
                c,
                json::some_number("soloShuffleRoundsPlayed"@, rounds_played),
                15,
                29,
                29,
            );
            lemma_and_then(d, seq![("soloShuffleTimeline"@, timeline)], 15, 30, 30);
        },
        _ => {},
    }
}

/// A video's metadata carries only keys that the API has columns for, and
/// each of them once.
pub proof fn metadata_holds_known_keys_once(entry: LibraryEntry, size: u64)
    ensures
        forall|i: int|
            0 <= i < cloud::metadata_fields(entry, size).len() ==> known_key(
                (#[trigger] cloud::metadata_fields(entry, size)[i]).0,
            ),
        forall|i: int, j: int|
            0 <= i < j < cloud::metadata_fields(entry, size).len() ==> (
            #[trigger] cloud::metadata_fields(entry, size)[i]).0 != (
            #[trigger] cloud::metadata_fields(entry, size)[j]).0,
{
    lemma_identity(entry);
    lemma_outcome(entry);
    lemma_content(entry, size);
    lemma_details(entry);
    let first = cloud::identity_fields(entry);
    let second = first + cloud::outcome_fields(entry);
    let third = second + cloud::content_fields(entry, size);
    lemma_ordered_behind(first, cloud::outcome_fields(entry), 0, 5, 10);
    lemma_ordered_behind(second, cloud::content_fields(entry, size), 0, 10, 15);
    lemma_ordered_behind(third, cloud::details_fields(entry), 0, 15, 31);
    assert(ordered(cloud::metadata_fields(entry, size), 0, 31));
}

} // verus!
