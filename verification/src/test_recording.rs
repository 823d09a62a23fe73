//! Test recordings: the minimum parsed events that drive one category through
//! the activity engine.
use vstd::prelude::*;

use crate::domain::{Category, GameFlavor, GameFlavorView};
use crate::parser;
use crate::parser::{
    CombatEvent, CombatEventView, ParsedEvent, ParsedEventView, PlayerObservationKind,
};

verus! {

pub const GUID: &'static str = "Player-1092-0A70E103";

pub const NAME: &'static str = "Testplayer-Testrealm";

/// Affiliation mine, friendly, player-controlled, player type.
pub const SELF_FLAGS: u64 = 0x511;

pub const ALLY_GUID: &'static str = "Player-1092-0B80F204";

pub const ALLY_NAME: &'static str = "Testmage-Testrealm";

pub const ALLY_FLAGS: u64 = 0x512;

pub const HOSTILE_FLAGS: u64 = 0xa48;

pub const ENEMY_GUID: &'static str = "Creature-0-TEST";

pub const ENEMY_NAME: &'static str = "Test Target";

/// An event of the retail log.
pub open spec fn retail_event(event: CombatEventView, at_ms: int) -> ParsedEventView {
    ParsedEventView { flavor: GameFlavorView::Retail, occurred_at_ms: at_ms, event }
}

/// How long the test runs.
pub open spec fn test_length(start_ms: int, end_ms: int) -> int {
    if end_ms > start_ms {
        end_ms - start_ms
    } else {
        0
    }
}

/// When the events of a quarter of the test happen.
pub open spec fn quarter_ms(start_ms: int, end_ms: int, quarter: int) -> int {
    start_ms + test_length(start_ms, end_ms) * quarter / 4
}

/// How the activity of a category starts and ends; not every category has a
/// test recording.
pub open spec fn test_frame(category: Category, start_ms: int, end_ms: int) -> Option<
    (CombatEventView, CombatEventView),
> {
    let arena_end = CombatEventView::ArenaEnded {
        winning_team_id: 0,
        team_0_mmr: 1673,
        team_1_mmr: 1668,
    };
    match category {
        Category::TwoVTwo => Some(
            (CombatEventView::ArenaStarted { zone_id: 2547, match_type: "2v2"@ }, arena_end),
        ),
        Category::ThreeVThree => Some(
            (CombatEventView::ArenaStarted { zone_id: 980, match_type: "3v3"@ }, arena_end),
        ),
        Category::SoloShuffle => Some(
            (
                CombatEventView::ArenaStarted { zone_id: 2547, match_type: "Rated Solo Shuffle"@ },
                arena_end,
            ),
        ),
        Category::Raids => Some(
            (
                CombatEventView::EncounterStarted {
                    encounter_id: 2820,
                    name: "Test Encounter"@,
                    difficulty_id: 16,
                    group_size: 20,
                    instance_id: 2549,
                },
                CombatEventView::EncounterEnded {
                    encounter_id: 2820,
                    name: "Test Encounter"@,
                    difficulty_id: 16,
                    group_size: 20,
                    success: true,
                },
            ),
        ),
        Category::Battlegrounds => Some(
            (
                CombatEventView::ZoneChanged {
                    zone_id: 30,
                    name: "Alterac Valley"@,
                    instance_id: 30,
                },
                CombatEventView::ZoneChanged {
                    zone_id: 0,
                    name: Seq::<char>::empty(),
                    instance_id: 0,
                },
            ),
        ),
        Category::MythicPlus => Some(
            (
                CombatEventView::ChallengeStarted {
                    name: "Test Dungeon"@,
                    zone_id: 2286,
                    map_id: 377,
                    level: 10,
                    affixes: seq![9u32, 6u32, 3u32],
                },
                CombatEventView::ChallengeEnded {
                    zone_id: 2286,
                    success: true,
                    duration_ms: test_length(start_ms, end_ms) as u64,
                },
            ),
        ),
        _ => None,
    }
}

/// The player, an ally, and the player seen for the first time.
pub open spec fn test_players(start_ms: int) -> Seq<ParsedEventView> {
    seq![
        retail_event(
            CombatEventView::Combatant {
                guid: GUID@,
                team_id: Some(0),
                spec_id: Some(577),
            },
            start_ms,
        ),
        retail_event(
            CombatEventView::Combatant {
                guid: ALLY_GUID@,
                team_id: Some(0),
                spec_id: Some(63),
            },
            start_ms,
        ),
        retail_event(
            CombatEventView::PlayerObserved {
                kind: PlayerObservationKind::AuraApplied,
                aura_type: None,
                spell_id: 0,
                guid: GUID@,
                name: NAME@,
                flags: SELF_FLAGS,
                target_guid: GUID@,
                target_name: NAME@,
                target_flags: SELF_FLAGS,
                spell_name: "Test Recording"@,
                owner_guid: None,
            },
            start_ms,
        ),
    ]
}

/// One hit on a target.
pub open spec fn damage_view(
    source: (Seq<char>, Seq<char>, u64),
    target: (Seq<char>, Seq<char>, u64),
    spell: Seq<char>,
    amount: u64,
) -> CombatEventView {
    CombatEventView::Damage {
        source_guid: source.0,
        source_name: source.1,
        source_flags: source.2,
        source_owner_guid: None,
        dest_guid: target.0,
        dest_name: target.1,
        dest_flags: target.2,
        dest_raid_marker: 0,
        spell_name: spell,
        amount,
        dest_current_hp: None,
        dest_max_hp: None,
    }
}

/// What happens in one quarter of the test: the player and the ally hit the
/// enemy, the enemy hits the ally, and the player heals the ally.
pub open spec fn quarter_events(
    at_ms: int,
    quarter: int,
    player_amount: u64,
    ally_amount: u64,
) -> Seq<ParsedEventView> {
    seq![
        retail_event(
            damage_view(
                (GUID@, NAME@, SELF_FLAGS),
                (ENEMY_GUID@, ENEMY_NAME@, HOSTILE_FLAGS),
                "Annihilation"@,
                player_amount,
            ),
            at_ms,
        ),
        retail_event(
            damage_view(
                (ALLY_GUID@, ALLY_NAME@, ALLY_FLAGS),
                (ENEMY_GUID@, ENEMY_NAME@, HOSTILE_FLAGS),
                "Pyroblast"@,
                ally_amount,
            ),
            at_ms,
        ),
        retail_event(
            damage_view(
                (ENEMY_GUID@, ENEMY_NAME@, HOSTILE_FLAGS),
                (ALLY_GUID@, ALLY_NAME@, ALLY_FLAGS),
                "Void Strike"@,
                (180_000 * quarter) as u64,
            ),
            at_ms,
        ),
        retail_event(
            CombatEventView::Heal {
                source_guid: GUID@,
                source_name: NAME@,
                source_flags: SELF_FLAGS,
                dest_guid: ALLY_GUID@,
                dest_name: ALLY_NAME@,
                dest_flags: ALLY_FLAGS,
                dest_raid_marker: 0,
                spell_name: "Soul Mend"@,
                dest_current_hp: None,
                dest_max_hp: None,
                amount: (120_000 * quarter) as u64,
                overheal: 0,
            },
            at_ms + 1,
        ),
    ]
}

/// The ally's death just before the end.
pub open spec fn ally_death(end_ms: int) -> ParsedEventView {
    retail_event(
        CombatEventView::UnitDied {
            guid: ALLY_GUID@,
            name: ALLY_NAME@,
            flags: ALLY_FLAGS,
            unconscious: false,
        },
        end_ms - 1,
    )
}

/// The events that start a test recording, up to its end.
pub open spec fn test_start_events(start: CombatEventView, start_ms: int, end_ms: int) -> Seq<
    ParsedEventView,
> {
    seq![retail_event(start, start_ms)] + test_players(start_ms) + quarter_events(
        quarter_ms(start_ms, end_ms, 1),
        1,
        1_000_000,
        800_000,
    ) + quarter_events(quarter_ms(start_ms, end_ms, 2), 2, 1_500_000, 1_100_000) + quarter_events(
        quarter_ms(start_ms, end_ms, 3),
        3,
        2_000_000,
        1_400_000,
    ) + seq![ally_death(end_ms)]
}

/// The times of a test recording can all be written.
pub open spec fn test_times_fit(start_ms: i64, end_ms: i64) -> bool {
    &&& i64::MIN <= end_ms - start_ms
    &&& (end_ms - start_ms) * 3 <= i64::MAX
    &&& quarter_ms(start_ms as int, end_ms as int, 3) < i64::MAX
    &&& end_ms > i64::MIN
}

fn retail(event: CombatEvent, at_ms: i64) -> (parsed: ParsedEvent)
    ensures
        parsed@ == retail_event(event@, at_ms as int),
{
    ParsedEvent { flavor: GameFlavor::Retail, occurred_at_ms: at_ms, event }
}

fn add_event(events: &mut Vec<ParsedEvent>, event: CombatEvent, at_ms: i64)
    ensures
        parser::event_views(final(events)@) == parser::event_views(old(events)@).push(
            retail_event(event@, at_ms as int),
        ),
{
    let parsed = retail(event, at_ms);
    events.push(parsed);
    assert(parser::event_views(events@) =~= parser::event_views(old(events)@).push(
        retail_event(event@, at_ms as int),
    ));
}

fn damage(
    source: (&str, &str, u64),
    target: (&str, &str, u64),
    spell: &str,
    amount: u64,
) -> (event: CombatEvent)
    ensures
        event@ == damage_view(
            (source.0@, source.1@, source.2),
            (target.0@, target.1@, target.2),
            spell@,
            amount,
        ),
{
    CombatEvent::Damage {
        source_guid: source.0.to_owned(),
        source_name: source.1.to_owned(),
        source_flags: source.2,
        source_owner_guid: None,
        dest_guid: target.0.to_owned(),
        dest_name: target.1.to_owned(),
        dest_flags: target.2,
        dest_raid_marker: 0,
        spell_name: spell.to_owned(),
        amount,
        dest_current_hp: None,
        dest_max_hp: None,
    }
}

fn add_quarter(
    events: &mut Vec<ParsedEvent>,
    at_ms: i64,
    quarter: u64,
    player_amount: u64,
    ally_amount: u64,
)
    requires
        quarter <= 3,
        at_ms < i64::MAX,
    ensures
        parser::event_views(final(events)@) == parser::event_views(old(events)@) + quarter_events(
            at_ms as int,
            quarter as int,
            player_amount,
            ally_amount,
        ),
{
    let enemy = (ENEMY_GUID, ENEMY_NAME, HOSTILE_FLAGS);
    let ally = (ALLY_GUID, ALLY_NAME, ALLY_FLAGS);
    add_event(
        events,
        damage((GUID, NAME, SELF_FLAGS), enemy, "Annihilation", player_amount),
        at_ms,
    );
    add_event(events, damage(ally, enemy, "Pyroblast", ally_amount), at_ms);
    add_event(events, damage(enemy, ally, "Void Strike", 180_000 * quarter), at_ms);
    add_event(
        events,
        CombatEvent::Heal {
            source_guid: GUID.to_owned(),
            source_name: NAME.to_owned(),
            source_flags: SELF_FLAGS,
            dest_guid: ALLY_GUID.to_owned(),
            dest_name: ALLY_NAME.to_owned(),
            dest_flags: ALLY_FLAGS,
            dest_raid_marker: 0,
            spell_name: "Soul Mend".to_owned(),
            dest_current_hp: None,
            dest_max_hp: None,
            amount: 120_000 * quarter,
            overheal: 0,
        },
        at_ms + 1,
    );
    assert(parser::event_views(events@) =~= parser::event_views(old(events)@) + quarter_events(
        at_ms as int,
        quarter as int,
        player_amount,
        ally_amount,
    ));
}

fn add_players(events: &mut Vec<ParsedEvent>, start_ms: i64)
    ensures
        parser::event_views(final(events)@) == parser::event_views(old(events)@) + test_players(
            start_ms as int,
        ),
{
    add_event(
        events,
        CombatEvent::Combatant { guid: GUID.to_owned(), team_id: Some(0), spec_id: Some(577) },
        start_ms,
    );
    add_event(
        events,
        CombatEvent::Combatant { guid: ALLY_GUID.to_owned(), team_id: Some(0), spec_id: Some(63) },
        start_ms,
    );
    add_event(
        events,
        CombatEvent::PlayerObserved {
            kind: PlayerObservationKind::AuraApplied,
            aura_type: None,
            spell_id: 0,
            guid: GUID.to_owned(),
            name: NAME.to_owned(),
            flags: SELF_FLAGS,
            target_guid: GUID.to_owned(),
            target_name: NAME.to_owned(),
            target_flags: SELF_FLAGS,
            spell_name: "Test Recording".to_owned(),
            owner_guid: None,
        },
        start_ms,
    );
    assert(parser::event_views(events@) =~= parser::event_views(old(events)@) + test_players(
        start_ms as int,
    ));
}

fn arena(zone_id: u32, match_type: &str) -> (event: CombatEvent)
    ensures
        event@ == (CombatEventView::ArenaStarted { zone_id, match_type: match_type@ }),
{
    CombatEvent::ArenaStarted { zone_id, match_type: match_type.to_owned() }
}

fn arena_end() -> (event: CombatEvent)
    ensures
        event@ == (CombatEventView::ArenaEnded {
            winning_team_id: 0,
            team_0_mmr: 1673,
            team_1_mmr: 1668,
        }),
{
    CombatEvent::ArenaEnded { winning_team_id: 0, team_0_mmr: 1673, team_1_mmr: 1668 }
}

fn frame(category: Category, start_ms: i64, end_ms: i64) -> (events: Option<
    (CombatEvent, CombatEvent),
>)
    requires
        test_frame(category, start_ms as int, end_ms as int) is Some ==> test_times_fit(
            start_ms,
            end_ms,
        ),
    ensures
        test_frame(category, start_ms as int, end_ms as int) == (match events {
            Some((start, end)) => Some((start@, end@)),
            None => None::<(CombatEventView, CombatEventView)>,
        }),
{
    match category {
        Category::TwoVTwo => Some((arena(2547, "2v2"), arena_end())),
        Category::ThreeVThree => Some((arena(980, "3v3"), arena_end())),
        Category::SoloShuffle => Some((arena(2547, "Rated Solo Shuffle"), arena_end())),
        Category::Raids => Some(
            (
                CombatEvent::EncounterStarted {
                    encounter_id: 2820,
                    name: "Test Encounter".to_owned(),
                    difficulty_id: 16,
                    group_size: 20,
                    instance_id: 2549,
                },
                CombatEvent::EncounterEnded {
                    encounter_id: 2820,
                    name: "Test Encounter".to_owned(),
                    difficulty_id: 16,
                    group_size: 20,
                    success: true,
                },
            ),
        ),
        Category::Battlegrounds => Some(
            (
                CombatEvent::ZoneChanged {
                    zone_id: 30,
                    name: "Alterac Valley".to_owned(),
                    instance_id: 30,
                },
                CombatEvent::ZoneChanged { zone_id: 0, name: String::new(), instance_id: 0 },
            ),
        ),
        Category::MythicPlus => {
            let length: i64 = end_ms - start_ms;
            let duration_ms: u64 = if length > 0 {
                length as u64
            } else {
                0
            };
            let mut affixes: Vec<u32> = Vec::new();
            affixes.push(9);
            affixes.push(6);
            affixes.push(3);
            assert(affixes@ =~= seq![9u32, 6u32, 3u32]);
            Some(
                (
                    CombatEvent::ChallengeStarted {
                        name: "Test Dungeon".to_owned(),
                        zone_id: 2286,
                        map_id: 377,
                        level: 10,
                        affixes,
                    },
                    CombatEvent::ChallengeEnded { zone_id: 2286, success: true, duration_ms },
                ),
            )
        },
        _ => None,
    }
}

/// The events that start a test recording of a category at `start_ms`, and
/// the one that ends it at `end_ms`. Some categories have none.
pub fn test_events(category: Category, start_ms: i64, end_ms: i64) -> (events: Option<
    (Vec<ParsedEvent>, ParsedEvent),
>)
    requires
        test_frame(category, start_ms as int, end_ms as int) is Some ==> test_times_fit(
            start_ms,
            end_ms,
        ),
    ensures
        match test_frame(category, start_ms as int, end_ms as int) {
            None => events is None,
            Some((start, end)) => events matches Some((start_events, end_event))
                && parser::event_views(start_events@) == test_start_events(
                start,
                start_ms as int,
                end_ms as int,
            ) && end_event@ == retail_event(end, end_ms as int),
        },
{
    let (start, end) = match frame(category, start_ms, end_ms) {
        Some(pair) => pair,
        None => {
            return None;
        },
    };
    let ghost start_view = start@;
    let mut events: Vec<ParsedEvent> = Vec::new();
    add_event(&mut events, start, start_ms);
    assert(parser::event_views(events@) =~= seq![retail_event(start_view, start_ms as int)]);
    add_players(&mut events, start_ms);
    let length: i64 = end_ms - start_ms;
    let duration_ms: i64 = if length > 0 {
        length
    } else {
        0
    };
    add_quarter(&mut events, start_ms + duration_ms * 1 / 4, 1, 1_000_000, 800_000);
    add_quarter(&mut events, start_ms + duration_ms * 2 / 4, 2, 1_500_000, 1_100_000);
    add_quarter(&mut events, start_ms + duration_ms * 3 / 4, 3, 2_000_000, 1_400_000);
    let ghost before = parser::event_views(events@);
    add_event(
        &mut events,
        CombatEvent::UnitDied {
            guid: ALLY_GUID.to_owned(),
            name: ALLY_NAME.to_owned(),
            flags: ALLY_FLAGS,
            unconscious: false,
        },
        end_ms - 1,
    );
    assert(parser::event_views(events@) =~= before + seq![ally_death(end_ms as int)]);
    Some((events, retail(end, end_ms)))
}

} // verus!
