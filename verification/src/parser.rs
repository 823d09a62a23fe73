//! Combat log events, as far as the coordinator makes them up itself.
use vstd::prelude::*;

use crate::domain;
use crate::domain::{GameFlavor, GameFlavorView};

verus! {

#[derive(Clone, Copy, Debug, PartialEq, Eq, Structural)]
pub enum PlayerObservationKind {
    AuraApplied,
}

/// One event of a combat log.
#[derive(Clone, Debug, PartialEq, Eq)]
pub enum CombatEvent {
    ArenaStarted { zone_id: u32, match_type: String },
    ArenaEnded { winning_team_id: u32, team_0_mmr: u32, team_1_mmr: u32 },
    EncounterStarted {
        encounter_id: u32,
        name: String,
        difficulty_id: u32,
        group_size: u32,
        instance_id: u32,
    },
    EncounterEnded {
        encounter_id: u32,
        name: String,
        difficulty_id: u32,
        group_size: u32,
        success: bool,
    },
    ZoneChanged { zone_id: u32, name: String, instance_id: u32 },
    ChallengeStarted { name: String, zone_id: u32, map_id: u32, level: u32, affixes: Vec<u32> },
    ChallengeEnded { zone_id: u32, success: bool, duration_ms: u64 },
    Combatant { guid: String, team_id: Option<u32>, spec_id: Option<u32> },
    PlayerObserved {
        kind: PlayerObservationKind,
        aura_type: Option<String>,
        spell_id: u32,
        guid: String,
        name: String,
        flags: u64,
        target_guid: String,
        target_name: String,
        target_flags: u64,
        spell_name: String,
        owner_guid: Option<String>,
    },
    Damage {
        source_guid: String,
        source_name: String,
        source_flags: u64,
        source_owner_guid: Option<String>,
        dest_guid: String,
        dest_name: String,
        dest_flags: u64,
        dest_raid_marker: u32,
        spell_name: String,
        amount: u64,
        dest_current_hp: Option<u64>,
        dest_max_hp: Option<u64>,
    },
    Heal {
        source_guid: String,
        source_name: String,
        source_flags: u64,
        dest_guid: String,
        dest_name: String,
        dest_flags: u64,
        dest_raid_marker: u32,
        spell_name: String,
        dest_current_hp: Option<u64>,
        dest_max_hp: Option<u64>,
        amount: u64,
        overheal: u64,
    },
    UnitDied { guid: String, name: String, flags: u64, unconscious: bool },
}

/// A combat log event, with its texts as characters.
pub enum CombatEventView {
    ArenaStarted { zone_id: u32, match_type: Seq<char> },
    ArenaEnded { winning_team_id: u32, team_0_mmr: u32, team_1_mmr: u32 },
    EncounterStarted {
        encounter_id: u32,
        name: Seq<char>,
        difficulty_id: u32,
        group_size: u32,
        instance_id: u32,
    },
    EncounterEnded {
        encounter_id: u32,
        name: Seq<char>,
        difficulty_id: u32,
        group_size: u32,
        success: bool,
    },
    ZoneChanged { zone_id: u32, name: Seq<char>, instance_id: u32 },
    ChallengeStarted { name: Seq<char>, zone_id: u32, map_id: u32, level: u32, affixes: Seq<u32> },
    ChallengeEnded { zone_id: u32, success: bool, duration_ms: u64 },
    Combatant { guid: Seq<char>, team_id: Option<u32>, spec_id: Option<u32> },
    PlayerObserved {
        kind: PlayerObservationKind,
        aura_type: Option<Seq<char>>,
        spell_id: u32,
        guid: Seq<char>,
        name: Seq<char>,
        flags: u64,
        target_guid: Seq<char>,
        target_name: Seq<char>,
        target_flags: u64,
        spell_name: Seq<char>,
        owner_guid: Option<Seq<char>>,
    },
    Damage {
        source_guid: Seq<char>,
        source_name: Seq<char>,
        source_flags: u64,
        source_owner_guid: Option<Seq<char>>,
        dest_guid: Seq<char>,
        dest_name: Seq<char>,
        dest_flags: u64,
        dest_raid_marker: u32,
        spell_name: Seq<char>,
        amount: u64,
        dest_current_hp: Option<u64>,
        dest_max_hp: Option<u64>,
    },
    Heal {
        source_guid: Seq<char>,
        source_name: Seq<char>,
        source_flags: u64,
        dest_guid: Seq<char>,
        dest_name: Seq<char>,
        dest_flags: u64,
        dest_raid_marker: u32,
        spell_name: Seq<char>,
        dest_current_hp: Option<u64>,
        dest_max_hp: Option<u64>,
        amount: u64,
        overheal: u64,
    },
    UnitDied { guid: Seq<char>, name: Seq<char>, flags: u64, unconscious: bool },
}

impl View for CombatEvent {
    type V = CombatEventView;

    open spec fn view(&self) -> CombatEventView {
        match *self {
            CombatEvent::ArenaStarted { zone_id, match_type } => CombatEventView::ArenaStarted {
                zone_id,
                match_type: match_type@,
            },
            CombatEvent::ArenaEnded { winning_team_id, team_0_mmr, team_1_mmr } =>
            CombatEventView::ArenaEnded { winning_team_id, team_0_mmr, team_1_mmr },
            CombatEvent::EncounterStarted {
                encounter_id,
                name,
                difficulty_id,
                group_size,
                instance_id,
            } => CombatEventView::EncounterStarted {
                encounter_id,
                name: name@,
                difficulty_id,
                group_size,
                instance_id,
            },
            CombatEvent::EncounterEnded {
                encounter_id,
                name,
                difficulty_id,
                group_size,
                success,
            } => CombatEventView::EncounterEnded {
                encounter_id,
                name: name@,
                difficulty_id,
                group_size,
                success,
            },
            CombatEvent::ZoneChanged { zone_id, name, instance_id } =>
            CombatEventView::ZoneChanged { zone_id, name: name@, instance_id },
            CombatEvent::ChallengeStarted { name, zone_id, map_id, level, affixes } =>
            CombatEventView::ChallengeStarted {
                name: name@,
                zone_id,
                map_id,
                level,
                affixes: affixes@,
            },
            CombatEvent::ChallengeEnded { zone_id, success, duration_ms } =>
            CombatEventView::ChallengeEnded { zone_id, success, duration_ms },
            CombatEvent::Combatant { guid, team_id, spec_id } => CombatEventView::Combatant {
                guid: guid@,
                team_id,
                spec_id,
            },
            CombatEvent::PlayerObserved {
                kind,
                aura_type,
                spell_id,
                guid,
                name,
                flags,
                target_guid,
                target_name,
                target_flags,
                spell_name,
                owner_guid,
            } => CombatEventView::PlayerObserved {
                kind,
                aura_type: domain::text_view(aura_type),
                spell_id,
                guid: guid@,
                name: name@,
                flags,
                target_guid: target_guid@,
                target_name: target_name@,
                target_flags,
                spell_name: spell_name@,
                owner_guid: domain::text_view(owner_guid),
            },
            CombatEvent::Damage {
                source_guid,
                source_name,
                source_flags,
                source_owner_guid,
                dest_guid,
                dest_name,
                dest_flags,
                dest_raid_marker,
                spell_name,
                amount,
                dest_current_hp,
                dest_max_hp,
            } => CombatEventView::Damage {
                source_guid: source_guid@,
                source_name: source_name@,
                source_flags,
                source_owner_guid: domain::text_view(source_owner_guid),
                dest_guid: dest_guid@,
                dest_name: dest_name@,
                dest_flags,
                dest_raid_marker,
                spell_name: spell_name@,
                amount,
                dest_current_hp,
                dest_max_hp,
            },
            CombatEvent::Heal {
                source_guid,
                source_name,
                source_flags,
                dest_guid,
                dest_name,
                dest_flags,
                dest_raid_marker,
                spell_name,
                dest_current_hp,
                dest_max_hp,
                amount,
                overheal,
            } => CombatEventView::Heal {
                source_guid: source_guid@,
                source_name: source_name@,
                source_flags,
                dest_guid: dest_guid@,
                dest_name: dest_name@,
                dest_flags,
                dest_raid_marker,
                spell_name: spell_name@,
                dest_current_hp,
                dest_max_hp,
                amount,
                overheal,
            },
            CombatEvent::UnitDied { guid, name, flags, unconscious } => CombatEventView::UnitDied {
                guid: guid@,
                name: name@,
                flags,
                unconscious,
            },
        }
    }
}

/// A combat log event with the flavour it comes from and when it happened.
#[derive(Clone, Debug, PartialEq, Eq)]
pub struct ParsedEvent {
    pub flavor: GameFlavor,
    pub occurred_at_ms: i64,
    pub event: CombatEvent,
}

/// A parsed event, with its texts as characters.
pub struct ParsedEventView {
    pub flavor: GameFlavorView,
    pub occurred_at_ms: int,
    pub event: CombatEventView,
}

impl View for ParsedEvent {
    type V = ParsedEventView;

    open spec fn view(&self) -> ParsedEventView {
        ParsedEventView {
            flavor: self.flavor@,
            occurred_at_ms: self.occurred_at_ms as int,
            event: self.event@,
        }
    }
}

/// What a list of parsed events says.
pub open spec fn event_views(events: Seq<ParsedEvent>) -> Seq<ParsedEventView> {
    events.map_values(|event: ParsedEvent| event@)
}

} // verus!
