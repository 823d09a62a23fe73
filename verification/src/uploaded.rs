//! What the website learns of a recording from its metadata.
use vstd::prelude::*;

use crate::calendar;
use crate::cloud;
use crate::cloud::Affiliation;
use crate::domain::{
    ActivityDetails, Category, CombatantSummary, LibraryEntry, Outcome, PlayerSummary, SoloRound,
    TimelineItem, TimelineKind,
};
use crate::json::JsonView;
use crate::metadata;
use crate::text;

verus! {

/// A record has this member.
pub open spec fn holds(record: JsonView, key: Seq<char>, value: JsonView) -> bool {
    record matches JsonView::Record(fields) && fields.contains((key, value))
}

/// A record has no member of this name.
pub open spec fn lacks(record: JsonView, key: Seq<char>) -> bool {
    record matches JsonView::Record(fields) && forall|value: JsonView|
        !(#[trigger] fields.contains((key, value)))
}

/// A recording's metadata has this value under a key, and no other.
pub open spec fn says(entry: LibraryEntry, size: u64, key: Seq<char>, value: JsonView) -> bool {
    &&& cloud::metadata_fields(entry, size).contains((key, value))
    &&& forall|other: JsonView|
        #[trigger] cloud::metadata_fields(entry, size).contains((key, other)) ==> other == value
}

proof fn lemma_says(entry: LibraryEntry, size: u64, key: Seq<char>, value: JsonView)
    requires
        cloud::metadata_fields(entry, size).contains((key, value)),
    ensures
        says(entry, size, key, value),
{
    let fields = cloud::metadata_fields(entry, size);
    metadata::metadata_holds_known_keys_once(entry, size);
    let i = choose|i: int| 0 <= i < fields.len() && fields[i] == (key, value);
    assert forall|other: JsonView| #[trigger] fields.contains((key, other)) implies other
        == value by {
        let j = choose|j: int| 0 <= j < fields.len() && fields[j] == (key, other);
        assert(fields[i].0 == fields[j].0);
    }
}

/// The website learns when a recording was made, how long it is, how large its
/// file is, and whether the user protects it.
pub proof fn the_website_learns_when_and_how_long(entry: LibraryEntry, size: u64)
    ensures
        says(entry, size, "start"@, JsonView::Int(entry.start_unix_ms as int)),
        says(entry, size, "duration"@, JsonView::Seconds(entry.duration_ms as nat)),
        says(entry, size, "size"@, JsonView::Int(size as int)),
        says(entry, size, "protected"@, JsonView::Bool(entry.protected)),
        says(entry, size, "overrun"@, JsonView::Int(0)),
        entry.activity_hash matches Some(hash) ==> says(
            entry,
            size,
            "uniqueHash"@,
            JsonView::Text(hash@),
        ),
{
    text::lemma_members::<(Seq<char>, JsonView)>();
    lemma_says(entry, size, "start"@, JsonView::Int(entry.start_unix_ms as int));
    lemma_says(entry, size, "duration"@, JsonView::Seconds(entry.duration_ms as nat));
    lemma_says(entry, size, "size"@, JsonView::Int(size as int));
    lemma_says(entry, size, "protected"@, JsonView::Bool(entry.protected));
    lemma_says(entry, size, "overrun"@, JsonView::Int(0));
    if entry.activity_hash is Some {
        lemma_says(entry, size, "uniqueHash"@, JsonView::Text(entry.activity_hash->0@));
    }
}

/// A recording counts as a success exactly if it was won, or was a completed
/// key; a clip counts as what it was cut from.
pub proof fn the_website_learns_how_it_went(entry: LibraryEntry, size: u64)
    ensures
        ({
            let kind = match entry.details {
                ActivityDetails::Clip { source_category, .. } => source_category,
                _ => entry.category,
            };
            &&& entry.outcome == Outcome::Win ==> says(
                entry,
                size,
                "result"@,
                JsonView::Bool(true),
            )
            &&& entry.outcome == Outcome::Complete ==> says(
                entry,
                size,
                "result"@,
                JsonView::Bool(kind == Category::MythicPlus),
            )
            &&& entry.outcome == Outcome::Loss || entry.outcome == Outcome::Abandoned
                || entry.outcome == Outcome::Unknown ==> says(
                entry,
                size,
                "result"@,
                JsonView::Bool(false),
            )
        }),
{
    text::lemma_members::<(Seq<char>, JsonView)>();
    let result = JsonView::Bool(cloud::succeeded(cloud::scored_as(entry), entry.outcome));
    assert(cloud::outcome_fields(entry).contains(("result"@, result)));
    lemma_says(entry, size, "result"@, result);
}

/// The website learns the category, by the name it has there, and of a clip
/// also that of its source and when it was cut.
pub proof fn the_website_learns_the_category(entry: LibraryEntry, size: u64)
    ensures
        entry.category == Category::TwoVTwo ==> says(entry, size, "category"@, JsonView::Text("2v2"@)),
        entry.category == Category::ThreeVThree ==> says(
            entry,
            size,
            "category"@,
            JsonView::Text("3v3"@),
        ),
        entry.category == Category::FiveVFive ==> says(
            entry,
            size,
            "category"@,
            JsonView::Text("5v5"@),
        ),
        entry.category == Category::Skirmish ==> says(
            entry,
            size,
            "category"@,
            JsonView::Text("Skirmish"@),
        ),
        entry.category == Category::SoloShuffle ==> says(
            entry,
            size,
            "category"@,
            JsonView::Text("Solo Shuffle"@),
        ),
        entry.category == Category::MythicPlus ==> says(
            entry,
            size,
            "category"@,
            JsonView::Text("Mythic+"@),
        ),
        entry.category == Category::Raids ==> says(
            entry,
            size,
            "category"@,
            JsonView::Text("Raids"@),
        ),
        entry.category == Category::Battlegrounds ==> says(
            entry,
            size,
            "category"@,
            JsonView::Text("Battlegrounds"@),
        ),
        entry.category == Category::Clip ==> says(entry, size, "category"@, JsonView::Text("Clips"@)),
        entry.category == Category::Manual ==> says(
            entry,
            size,
            "category"@,
            JsonView::Text("Manual"@),
        ),
        entry.details matches ActivityDetails::Clip { source_category, .. } ==> {
            &&& says(
                entry,
                size,
                "parentCategory"@,
                JsonView::Text(cloud::category_name(source_category)),
            )
            &&& says(entry, size, "clippedAt"@, JsonView::Int(entry.start_unix_ms as int))
        },
{
    text::lemma_members::<(Seq<char>, JsonView)>();
    let category = JsonView::Text(cloud::category_name(entry.category));
    assert(cloud::identity_fields(entry).contains(("category"@, category)));
    lemma_says(entry, size, "category"@, category);
    if let ActivityDetails::Clip { source_category, .. } = entry.details {
        let parent = JsonView::Text(cloud::category_name(source_category));
        lemma_says(entry, size, "parentCategory"@, parent);
        lemma_says(entry, size, "clippedAt"@, JsonView::Int(entry.start_unix_ms as int));
    }
}

/// No two categories have one name on the website.
pub proof fn categories_have_names_of_their_own(a: Category, b: Category)
    requires
        cloud::category_name(a) == cloud::category_name(b),
    ensures
        a == b,
{
    reveal_strlit("2v2");
    reveal_strlit("3v3");
    reveal_strlit("5v5");
    reveal_strlit("Skirmish");
    reveal_strlit("Solo Shuffle");
    reveal_strlit("Mythic+");
    reveal_strlit("Raids");
    reveal_strlit("Battlegrounds");
    reveal_strlit("Clips");
    reveal_strlit("Manual");
    let first = cloud::category_name(a)[0];
    let second = cloud::category_name(a)[1];
    assert(cloud::category_name(b)[0] == first);
    assert(cloud::category_name(b)[1] == second);
}

/// The website knows classic from retail: classic and era are the one,
/// everything else the other.
pub proof fn the_website_learns_the_flavour(entry: LibraryEntry, size: u64)
    ensures
        entry.flavor is Classic || entry.flavor is Era ==> says(
            entry,
            size,
            "flavour"@,
            JsonView::Text("Classic"@),
        ),
        !(entry.flavor is Classic || entry.flavor is Era) ==> says(
            entry,
            size,
            "flavour"@,
            JsonView::Text("Retail"@),
        ),
{
    text::lemma_members::<(Seq<char>, JsonView)>();
    let flavour = JsonView::Text(cloud::flavour_name(entry.flavor));
    assert(cloud::outcome_fields(entry).contains(("flavour"@, flavour)));
    lemma_says(entry, size, "flavour"@, flavour);
}

/// A tag goes up as the user wrote it, unless there is nothing in it.
pub proof fn the_website_learns_the_tag(entry: LibraryEntry, size: u64, tag: String)
    requires
        entry.tag == Some(tag),
    ensures
        text::trim(tag@).len() > 0 ==> says(entry, size, "tag"@, JsonView::Text(tag@)),
        text::trim(tag@).len() == 0 ==> lacks(
            JsonView::Record(cloud::outcome_fields(entry)),
            "tag"@,
        ),
{
    text::lemma_members::<(Seq<char>, JsonView)>();
    if text::trim(tag@).len() > 0 {
        lemma_says(entry, size, "tag"@, JsonView::Text(tag@));
    } else {
        lemma_untagged(entry);
    }
}

/// Without a tag, none goes up.
pub proof fn untagged_recordings_go_up_untagged(entry: LibraryEntry)
    requires
        entry.tag is None,
    ensures
        lacks(JsonView::Record(cloud::outcome_fields(entry)), "tag"@),
{
    lemma_untagged(entry);
}

proof fn lemma_untagged(entry: LibraryEntry)
    requires
        entry.tag matches Some(tag) ==> text::trim(tag@).len() == 0,
    ensures
        lacks(JsonView::Record(cloud::outcome_fields(entry)), "tag"@),
{
    text::lemma_members::<(Seq<char>, JsonView)>();
    reveal_strlit("tag");
    reveal_strlit("result");
    reveal_strlit("flavour");
    reveal_strlit("overrun");
    reveal_strlit("protected");
    assert("tag"@.len() == 3);
}

// --- the guild ---

/// An account belongs to a guild exactly if one of its memberships is of that
/// name, and the first of them says what it may do there.
pub proof fn the_first_membership_counts(affiliations: Seq<Affiliation>, guild: Seq<char>)
    ensures
        cloud::find_affiliation(affiliations, guild) is None <==> forall|i: int|
            0 <= i < affiliations.len() ==> (#[trigger] affiliations[i]).guild_name@ != guild,
        cloud::find_affiliation(affiliations, guild) matches Some(found) ==> exists|i: int|
            {
                &&& 0 <= i < affiliations.len()
                &&& #[trigger] affiliations[i] == found
                &&& found.guild_name@ == guild
                &&& forall|j: int|
                    0 <= j < i ==> (#[trigger] affiliations[j]).guild_name@ != guild
            },
    decreases affiliations.len(),
{
    if affiliations.len() > 0 {
        let rest = affiliations.skip(1);
        the_first_membership_counts(rest, guild);
        if affiliations[0].guild_name@ != guild {
            assert forall|i: int| 0 <= i < rest.len() implies #[trigger] rest[i] == affiliations[i
                + 1] by {}
            if cloud::find_affiliation(rest, guild) is Some {
                let found = cloud::find_affiliation(rest, guild)->0;
                let i = choose|i: int|
                    {
                        &&& 0 <= i < rest.len()
                        &&& #[trigger] rest[i] == found
                        &&& found.guild_name@ == guild
                        &&& forall|j: int|
                            0 <= j < i ==> (#[trigger] rest[j]).guild_name@ != guild
                    };
                assert(affiliations[i + 1] == found);
                assert forall|j: int| 0 <= j < i + 1 implies (
                #[trigger] affiliations[j]).guild_name@ != guild by {
                    if j > 0 {
                        assert(rest[j - 1] == affiliations[j]);
                    }
                }
            } else {
                assert forall|j: int| 0 <= j < affiliations.len() implies (
                #[trigger] affiliations[j]).guild_name@ != guild by {
                    if j > 0 {
                        assert(rest[j - 1] == affiliations[j]);
                    }
                }
            }
        }
    }
}

// --- solo shuffle ---

/// How many rounds were won.
pub open spec fn rounds_won(rounds: Seq<SoloRound>) -> nat
    decreases rounds.len(),
{
    if rounds.len() == 0 {
        0
    } else {
        rounds_won(rounds.drop_last()) + (if rounds.last().outcome == Outcome::Win {
            1nat
        } else {
            0nat
        })
    }
}

/// How many records say that they are a win.
pub open spec fn records_won(records: Seq<JsonView>) -> nat
    decreases records.len(),
{
    if records.len() == 0 {
        0
    } else {
        records_won(records.drop_last()) + (if holds(
            records.last(),
            "result"@,
            JsonView::Bool(true),
        ) {
            1nat
        } else {
            0nat
        })
    }
}

/// A round goes up as a win exactly if it was won, with its number, when it
/// began and, where that is known, how long it took.
pub proof fn rounds_go_up_as_they_went(round: SoloRound)
    ensures
        holds(cloud::round_record(round), "result"@, JsonView::Bool(true)) <==> round.outcome
            == Outcome::Win,
        holds(cloud::round_record(round), "result"@, JsonView::Bool(false)) <==> round.outcome
            != Outcome::Win,
        holds(cloud::round_record(round), "round"@, JsonView::Int(round.round as int)),
        holds(cloud::round_record(round), "timestamp"@, JsonView::Seconds(round.start_ms as nat)),
        round.duration_ms matches Some(length) ==> holds(
            cloud::round_record(round),
            "duration"@,
            JsonView::Seconds(length as nat),
        ),
{
    text::lemma_members::<(Seq<char>, JsonView)>();
}

/// The rounds of a solo shuffle go up in their order, each with its own
/// result: as many wins go up as rounds were won.
pub proof fn won_rounds_go_up_as_won(
    entry: LibraryEntry,
    size: u64,
    map_id: Option<u32>,
    map_name: Option<String>,
    won: Option<u32>,
    played: Option<u32>,
    rounds: Vec<SoloRound>,
)
    requires
        entry.details == (ActivityDetails::SoloRounds {
            map_id,
            map_name,
            rounds_won: won,
            rounds_played: played,
            rounds,
        }),
    ensures
        exists|records: Seq<JsonView>|
            {
                &&& #[trigger] says(entry, size, "soloShuffleTimeline"@, JsonView::List(records))
                &&& records.len() == rounds@.len()
                &&& forall|k: int|
                    0 <= k < records.len() ==> (holds(
                        #[trigger] records[k],
                        "result"@,
                        JsonView::Bool(true),
                    ) <==> rounds@[k].outcome == Outcome::Win)
                &&& forall|k: int|
                    0 <= k < records.len() ==> holds(
                        #[trigger] records[k],
                        "timestamp"@,
                        JsonView::Seconds(rounds@[k].start_ms as nat),
                    )
                &&& records_won(records) == rounds_won(rounds@)
            },
        won matches Some(count) ==> says(
            entry,
            size,
            "soloShuffleRoundsWon"@,
            JsonView::Int(count as int),
        ),
        played matches Some(count) ==> says(
            entry,
            size,
            "soloShuffleRoundsPlayed"@,
            JsonView::Int(count as int),
        ),
        map_id matches Some(id) ==> says(entry, size, "zoneID"@, JsonView::Int(id as int)),
        map_name matches Some(name) ==> says(entry, size, "zoneName"@, JsonView::Text(name@)),
{
    text::lemma_members::<(Seq<char>, JsonView)>();
    let records = rounds@.map_values(|r: SoloRound| cloud::round_record(r));
    assert(cloud::details_fields(entry).contains(
        ("soloShuffleTimeline"@, JsonView::List(records)),
    ));
    lemma_says(entry, size, "soloShuffleTimeline"@, JsonView::List(records));
    assert forall|k: int| 0 <= k < records.len() implies (holds(
        #[trigger] records[k],
        "result"@,
        JsonView::Bool(true),
    ) <==> rounds@[k].outcome == Outcome::Win) by {
        rounds_go_up_as_they_went(rounds@[k]);
    }
    assert forall|k: int| 0 <= k < records.len() implies holds(
        #[trigger] records[k],
        "timestamp"@,
        JsonView::Seconds(rounds@[k].start_ms as nat),
    ) by {
        rounds_go_up_as_they_went(rounds@[k]);
    }
    lemma_as_many_won(rounds@);
    if let Some(count) = won {
        lemma_says(entry, size, "soloShuffleRoundsWon"@, JsonView::Int(count as int));
    }
    if let Some(count) = played {
        lemma_says(entry, size, "soloShuffleRoundsPlayed"@, JsonView::Int(count as int));
    }
    if let Some(id) = map_id {
        lemma_says(entry, size, "zoneID"@, JsonView::Int(id as int));
    }
    if let Some(name) = map_name {
        lemma_says(entry, size, "zoneName"@, JsonView::Text(name@));
    }
}

proof fn lemma_as_many_won(rounds: Seq<SoloRound>)
    ensures
        records_won(rounds.map_values(|r: SoloRound| cloud::round_record(r))) == rounds_won(rounds),
    decreases rounds.len(),
{
    let records = rounds.map_values(|r: SoloRound| cloud::round_record(r));
    if rounds.len() > 0 {
        let front = rounds.drop_last();
        lemma_as_many_won(front);
        rounds_go_up_as_they_went(rounds.last());
        assert(records.drop_last() =~= front.map_values(|r: SoloRound| cloud::round_record(r)));
    }
}

// --- raids, dungeons and arenas ---

/// What is known of a raid encounter goes up under its own name.
pub proof fn the_website_learns_the_encounter(
    entry: LibraryEntry,
    size: u64,
    zone_id: Option<u32>,
    zone_name: Option<String>,
    encounter_id: Option<u32>,
    encounter_name: Option<String>,
    difficulty_id: Option<u32>,
    difficulty: Option<String>,
    pull: Option<u32>,
    boss_percent: Option<u32>,
)
    requires
        entry.details == (ActivityDetails::Raid {
            zone_id,
            zone_name,
            encounter_id,
            encounter_name,
            difficulty_id,
            difficulty,
            pull,
            boss_percent,
        }),
    ensures
        zone_id matches Some(id) ==> says(entry, size, "zoneID"@, JsonView::Int(id as int)),
        zone_name matches Some(name) ==> says(entry, size, "zoneName"@, JsonView::Text(name@)),
        encounter_id matches Some(id) ==> says(
            entry,
            size,
            "encounterID"@,
            JsonView::Int(id as int),
        ),
        encounter_name matches Some(name) ==> says(
            entry,
            size,
            "encounterName"@,
            JsonView::Text(name@),
        ),
        difficulty_id matches Some(id) ==> says(
            entry,
            size,
            "difficultyID"@,
            JsonView::Int(id as int),
        ),
        difficulty matches Some(name) ==> says(
            entry,
            size,
            "difficulty"@,
            JsonView::Text(name@),
        ),
        boss_percent matches Some(percent) ==> says(
            entry,
            size,
            "bossPercent"@,
            JsonView::Int(percent as int),
        ),
{
    text::lemma_members::<(Seq<char>, JsonView)>();
    if let Some(id) = zone_id {
        lemma_says(entry, size, "zoneID"@, JsonView::Int(id as int));
    }
    if let Some(name) = zone_name {
        lemma_says(entry, size, "zoneName"@, JsonView::Text(name@));
    }
    if let Some(id) = encounter_id {
        lemma_says(entry, size, "encounterID"@, JsonView::Int(id as int));
    }
    if let Some(name) = encounter_name {
        lemma_says(entry, size, "encounterName"@, JsonView::Text(name@));
    }
    if let Some(id) = difficulty_id {
        lemma_says(entry, size, "difficultyID"@, JsonView::Int(id as int));
    }
    if let Some(name) = difficulty {
        lemma_says(entry, size, "difficulty"@, JsonView::Text(name@));
    }
    if let Some(percent) = boss_percent {
        lemma_says(entry, size, "bossPercent"@, JsonView::Int(percent as int));
    }
}

/// What is known of a keystone goes up under its own name: its place, level
/// and upgrade, and its affixes in their order.
pub proof fn the_website_learns_the_keystone(
    entry: LibraryEntry,
    size: u64,
    zone_id: Option<u32>,
    dungeon_name: Option<String>,
    map_id: Option<u32>,
    keystone_level: Option<u32>,
    affixes: Vec<u32>,
    upgrade_level: Option<u32>,
)
    requires
        entry.details == (ActivityDetails::Dungeon {
            zone_id,
            dungeon_name,
            map_id,
            keystone_level,
            affixes,
            upgrade_level,
        }),
    ensures
        zone_id matches Some(id) ==> says(entry, size, "zoneID"@, JsonView::Int(id as int)),
        map_id matches Some(id) ==> says(entry, size, "mapID"@, JsonView::Int(id as int)),
        keystone_level matches Some(level) ==> says(
            entry,
            size,
            "keystoneLevel"@,
            JsonView::Int(level as int),
        ),
        upgrade_level matches Some(level) ==> says(
            entry,
            size,
            "upgradeLevel"@,
            JsonView::Int(level as int),
        ),
        exists|numbers: Seq<JsonView>|
            {
                &&& #[trigger] says(entry, size, "affixes"@, JsonView::List(numbers))
                &&& numbers.len() == affixes@.len()
                &&& forall|k: int|
                    0 <= k < numbers.len() ==> #[trigger] numbers[k] == JsonView::Int(
                        affixes@[k] as int,
                    )
            },
{
    text::lemma_members::<(Seq<char>, JsonView)>();
    if let Some(id) = zone_id {
        lemma_says(entry, size, "zoneID"@, JsonView::Int(id as int));
    }
    if let Some(id) = map_id {
        lemma_says(entry, size, "mapID"@, JsonView::Int(id as int));
    }
    if let Some(level) = keystone_level {
        lemma_says(entry, size, "keystoneLevel"@, JsonView::Int(level as int));
    }
    if let Some(level) = upgrade_level {
        lemma_says(entry, size, "upgradeLevel"@, JsonView::Int(level as int));
    }
    let numbers = affixes@.map_values(|n: u32| JsonView::Int(n as int));
    assert(cloud::details_fields(entry).contains(("affixes"@, JsonView::List(numbers))));
    lemma_says(entry, size, "affixes"@, JsonView::List(numbers));
}

/// What is known of an arena or battleground goes up under its own name.
pub proof fn the_website_learns_the_arena(
    entry: LibraryEntry,
    size: u64,
    map_id: Option<u32>,
    map_name: Option<String>,
    team_mmr: Option<u32>,
)
    requires
        entry.details == (ActivityDetails::ArenaOrBattleground { map_id, map_name, team_mmr }),
    ensures
        map_id matches Some(id) ==> says(entry, size, "zoneID"@, JsonView::Int(id as int)),
        map_name matches Some(name) ==> says(entry, size, "zoneName"@, JsonView::Text(name@)),
        team_mmr matches Some(rating) ==> says(
            entry,
            size,
            "teamMMR"@,
            JsonView::Int(rating as int),
        ),
{
    text::lemma_members::<(Seq<char>, JsonView)>();
    if let Some(id) = map_id {
        lemma_says(entry, size, "zoneID"@, JsonView::Int(id as int));
    }
    if let Some(name) = map_name {
        lemma_says(entry, size, "zoneName"@, JsonView::Text(name@));
    }
    if let Some(rating) = team_mmr {
        lemma_says(entry, size, "teamMMR"@, JsonView::Int(rating as int));
    }
}

// --- players ---

/// A player goes up as far as they are known.
pub proof fn players_go_up_as_they_are(player: PlayerSummary)
    ensures
        holds(cloud::player_record(player), "_name"@, JsonView::Text(player.name@)),
        player.guid matches Some(guid) ==> holds(
            cloud::player_record(player),
            "_GUID"@,
            JsonView::Text(guid@),
        ),
        player.realm matches Some(realm) ==> holds(
            cloud::player_record(player),
            "_realm"@,
            JsonView::Text(realm@),
        ),
        player.spec_id matches Some(spec_id) ==> holds(
            cloud::player_record(player),
            "_specID"@,
            JsonView::Int(spec_id as int),
        ),
{
    text::lemma_members::<(Seq<char>, JsonView)>();
}

/// A combatant goes up as far as they are known: who they are, on which side,
/// and as what they played.
pub proof fn combatants_go_up_as_they_are(combatant: CombatantSummary)
    ensures
        combatant.guid matches Some(guid) ==> holds(
            cloud::combatant_record(combatant),
            "_GUID"@,
            JsonView::Text(guid@),
        ),
        combatant.team_id matches Some(team) ==> holds(
            cloud::combatant_record(combatant),
            "_teamID"@,
            JsonView::Int(team as int),
        ),
        combatant.spec_id matches Some(spec_id) ==> holds(
            cloud::combatant_record(combatant),
            "_specID"@,
            JsonView::Int(spec_id as int),
        ),
        combatant.name matches Some(name) ==> holds(
            cloud::combatant_record(combatant),
            "_name"@,
            JsonView::Text(name@),
        ),
        combatant.realm matches Some(realm) ==> holds(
            cloud::combatant_record(combatant),
            "_realm"@,
            JsonView::Text(realm@),
        ),
        combatant.region matches Some(region) ==> holds(
            cloud::combatant_record(combatant),
            "_region"@,
            JsonView::Text(region@),
        ),
{
    text::lemma_members::<(Seq<char>, JsonView)>();
}

/// Everyone who took part goes up, in their order, and the player whose
/// recording it is.
pub proof fn everyone_goes_up(entry: LibraryEntry, size: u64)
    ensures
        exists|records: Seq<JsonView>|
            {
                &&& #[trigger] says(entry, size, "combatants"@, JsonView::List(records))
                &&& records.len() == entry.combatants@.len()
                &&& forall|k: int|
                    0 <= k < records.len() ==> (entry.combatants@[k].name matches Some(name)
                        ==> holds(#[trigger] records[k], "_name"@, JsonView::Text(name@)))
            },
        entry.player matches Some(player) ==> says(
            entry,
            size,
            "player"@,
            cloud::player_record(player),
        ),
{
    text::lemma_members::<(Seq<char>, JsonView)>();
    let records = entry.combatants@.map_values(|c: CombatantSummary| cloud::combatant_record(c));
    assert(cloud::content_fields(entry, size).contains(("combatants"@, JsonView::List(records))));
    lemma_says(entry, size, "combatants"@, JsonView::List(records));
    assert forall|k: int| 0 <= k < records.len() implies (entry.combatants@[k].name matches Some(name)
        ==> holds(#[trigger] records[k], "_name"@, JsonView::Text(name@))) by {
        combatants_go_up_as_they_are(entry.combatants@[k]);
    }
    if let Some(player) = entry.player {
        lemma_says(entry, size, "player"@, cloud::player_record(player));
    }
}

// --- deaths and segments ---

/// A death goes up with who died, when in the video and on the clock, and as
/// one of the player's own side unless it was counted as a win.
pub proof fn deaths_go_up_as_they_happened(entry: LibraryEntry, item: TimelineItem)
    requires
        item.start_ms <= i64::MAX,
    ensures
        item.label matches Some(name) ==> holds(
            cloud::death_record(entry, item),
            "name"@,
            JsonView::Text(name@),
        ),
        holds(cloud::death_record(entry, item), "timestamp"@, JsonView::Seconds(item.start_ms as nat)),
        holds(
            cloud::death_record(entry, item),
            "date"@,
            JsonView::Text(calendar::iso_text(entry.start_unix_ms + item.start_ms)),
        ),
        holds(cloud::death_record(entry, item), "friendly"@, JsonView::Bool(false))
            <==> item.outcome == Some(Outcome::Win),
        holds(cloud::death_record(entry, item), "friendly"@, JsonView::Bool(true)) <==> item.outcome
            != Some(Outcome::Win),
{
    text::lemma_members::<(Seq<char>, JsonView)>();
}

/// A death goes up with the specialization of the combatant of that name.
pub proof fn deaths_go_up_with_their_specialization(
    entry: LibraryEntry,
    item: TimelineItem,
    name: String,
    at: int,
    spec_id: u32,
)
    requires
        item.label == Some(name),
        0 <= at < entry.combatants@.len(),
        entry.combatants@[at].name matches Some(own) && own@ == name@,
        entry.combatants@[at].spec_id == Some(spec_id),
        forall|k: int|
            0 <= k < at ==> ((#[trigger] entry.combatants@[k]).name matches Some(other) ==> other@
                != name@),
    ensures
        holds(cloud::death_record(entry, item), "specId"@, JsonView::Int(spec_id as int)),
{
    text::lemma_members::<(Seq<char>, JsonView)>();
    lemma_named_spec(entry.combatants@, name@, at);
}

proof fn lemma_named_spec(combatants: Seq<CombatantSummary>, name: Seq<char>, at: int)
    requires
        0 <= at < combatants.len(),
        combatants[at].name matches Some(own) && own@ == name,
        combatants[at].spec_id is Some,
        forall|k: int|
            0 <= k < at ==> ((#[trigger] combatants[k]).name matches Some(other) ==> other@ != name),
    ensures
        cloud::named_spec(combatants, name) == combatants[at].spec_id->0,
    decreases at,
{
    if at > 0 {
        let rest = combatants.skip(1);
        assert(combatants[0].name matches Some(other) ==> other@ != name);
        assert(rest[at - 1] == combatants[at]);
        assert forall|k: int| 0 <= k < at - 1 implies ((#[trigger] rest[k]).name matches Some(other)
            ==> other@ != name) by {
            assert(rest[k] == combatants[k + 1]);
        }
        lemma_named_spec(rest, name, at - 1);
    }
}

/// How many markers are of a kind.
pub open spec fn of_kind(items: Seq<TimelineItem>, kind: TimelineKind) -> nat
    decreases items.len(),
{
    if items.len() == 0 {
        0
    } else {
        of_kind(items.drop_last(), kind) + (if items.last().kind == kind {
            1nat
        } else {
            0nat
        })
    }
}

/// Every death of the timeline goes up, and nothing else as one.
pub proof fn every_death_goes_up(entry: LibraryEntry, size: u64)
    ensures
        exists|records: Seq<JsonView>|
            {
                &&& #[trigger] says(entry, size, "deaths"@, JsonView::List(records))
                &&& records.len() == of_kind(entry.timeline@, TimelineKind::Death)
                &&& forall|i: int|
                    0 <= i < entry.timeline@.len() && (#[trigger] entry.timeline@[i]).kind
                        == TimelineKind::Death ==> records.contains(
                        cloud::death_record(entry, entry.timeline@[i]),
                    )
            },
{
    text::lemma_members::<(Seq<char>, JsonView)>();
    let records = cloud::death_records(entry, entry.timeline@);
    assert(cloud::content_fields(entry, size).contains(("deaths"@, JsonView::List(records))));
    lemma_says(entry, size, "deaths"@, JsonView::List(records));
    lemma_deaths(entry, entry.timeline@);
}

proof fn lemma_deaths(entry: LibraryEntry, items: Seq<TimelineItem>)
    ensures
        cloud::death_records(entry, items).len() == of_kind(items, TimelineKind::Death),
        forall|i: int|
            0 <= i < items.len() && (#[trigger] items[i]).kind == TimelineKind::Death
                ==> cloud::death_records(entry, items).contains(cloud::death_record(entry, items[i])),
    decreases items.len(),
{
    if items.len() > 0 {
        let front = items.drop_last();
        lemma_deaths(entry, front);
        let before = cloud::death_records(entry, front);
        let records = cloud::death_records(entry, items);
        assert forall|i: int|
            0 <= i < items.len() && (#[trigger] items[i]).kind
                == TimelineKind::Death implies records.contains(
            cloud::death_record(entry, items[i]),
        ) by {
            if i < front.len() {
                assert(front[i] == items[i]);
                let record = cloud::death_record(entry, items[i]);
                let at = choose|at: int| 0 <= at < before.len() && before[at] == record;
                assert(records[at] == record);
            } else {
                assert(records[before.len() as int] == cloud::death_record(entry, items[i]));
            }
        }
    }
}

/// A boss or trash span goes up as such, with when it began in the video and
/// when it began and ended on the clock.
pub proof fn segments_go_up_as_they_happened(entry: LibraryEntry, item: TimelineItem, end_ms: u64)
    requires
        item.end_ms == Some(end_ms),
        item.start_ms <= end_ms <= i64::MAX,
    ensures
        item.kind == TimelineKind::Encounter ==> holds(
            cloud::segment_record(entry, item),
            "segmentType"@,
            JsonView::Text("Boss"@),
        ),
        item.kind == TimelineKind::Trash ==> holds(
            cloud::segment_record(entry, item),
            "segmentType"@,
            JsonView::Text("Trash"@),
        ),
        holds(
            cloud::segment_record(entry, item),
            "timestamp"@,
            JsonView::Seconds(item.start_ms as nat),
        ),
        holds(
            cloud::segment_record(entry, item),
            "logStart"@,
            JsonView::Text(calendar::iso_text(entry.start_unix_ms + item.start_ms)),
        ),
        holds(
            cloud::segment_record(entry, item),
            "logEnd"@,
            JsonView::Text(calendar::iso_text(entry.start_unix_ms + end_ms)),
        ),
{
    text::lemma_members::<(Seq<char>, JsonView)>();
}

/// How many markers are boss or trash spans.
pub open spec fn segments(items: Seq<TimelineItem>) -> nat
    decreases items.len(),
{
    if items.len() == 0 {
        0
    } else {
        segments(items.drop_last()) + (if items.last().end_ms is Some && (items.last().kind
            == TimelineKind::Encounter || items.last().kind == TimelineKind::Trash) {
            1nat
        } else {
            0nat
        })
    }
}

/// Every boss and trash span of a dungeon goes up, and nothing else as one.
pub proof fn every_segment_goes_up(entry: LibraryEntry, size: u64)
    requires
        entry.details is Dungeon,
    ensures
        exists|records: Seq<JsonView>|
            {
                &&& #[trigger] says(entry, size, "challengeModeTimeline"@, JsonView::List(records))
                &&& records.len() == segments(entry.timeline@)
                &&& forall|i: int|
                    0 <= i < entry.timeline@.len() && (#[trigger] entry.timeline@[i]).end_ms is Some
                        && entry.timeline@[i].kind == TimelineKind::Encounter
                        ==> records.contains(cloud::segment_record(entry, entry.timeline@[i]))
                &&& forall|i: int|
                    0 <= i < entry.timeline@.len() && (#[trigger] entry.timeline@[i]).end_ms is Some
                        && entry.timeline@[i].kind == TimelineKind::Trash ==> records.contains(
                        cloud::segment_record(entry, entry.timeline@[i]),
                    )
            },
{
    text::lemma_members::<(Seq<char>, JsonView)>();
    let records = cloud::segment_records(entry, entry.timeline@);
    assert(cloud::details_fields(entry).contains(
        ("challengeModeTimeline"@, JsonView::List(records)),
    ));
    lemma_says(entry, size, "challengeModeTimeline"@, JsonView::List(records));
    lemma_segments(entry, entry.timeline@);
}

proof fn lemma_segments(entry: LibraryEntry, items: Seq<TimelineItem>)
    ensures
        cloud::segment_records(entry, items).len() == segments(items),
        forall|i: int|
            0 <= i < items.len() && (#[trigger] items[i]).end_ms is Some && (items[i].kind
                == TimelineKind::Encounter || items[i].kind == TimelineKind::Trash)
                ==> cloud::segment_records(entry, items).contains(
                cloud::segment_record(entry, items[i]),
            ),
    decreases items.len(),
{
    if items.len() > 0 {
        let front = items.drop_last();
        lemma_segments(entry, front);
        let before = cloud::segment_records(entry, front);
        let records = cloud::segment_records(entry, items);
        assert forall|i: int|
            0 <= i < items.len() && (#[trigger] items[i]).end_ms is Some && (items[i].kind
                == TimelineKind::Encounter || items[i].kind
                == TimelineKind::Trash) implies records.contains(
            cloud::segment_record(entry, items[i]),
        ) by {
            let record = cloud::segment_record(entry, items[i]);
            if i < front.len() {
                assert(front[i] == items[i]);
                let at = choose|at: int| 0 <= at < before.len() && before[at] == record;
                assert(records[at] == record);
            } else {
                assert(records[before.len() as int] == record);
            }
        }
    }
}

} // verus!
