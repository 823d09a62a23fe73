//! The vocabulary the recorder shares: what was recorded, what it is doing and
//! what went wrong.
//!
//! Paths are held as text, the way the configuration file stores them.
use std::sync::Arc;

use vstd::prelude::*;

use crate::text::same_text;

verus! {

#[derive(Clone, Copy, Debug, PartialEq, Eq, Structural, Hash)]
pub enum Category {
    TwoVTwo,
    ThreeVThree,
    FiveVFive,
    Skirmish,
    SoloShuffle,
    MythicPlus,
    Raids,
    Battlegrounds,
    Clip,
    Manual,
}

/// A game flavour, or the name of one this build does not know.
#[derive(Clone, Debug, PartialEq, Eq)]
pub enum GameFlavor {
    Retail,
    Classic,
    Era,
    Unknown(String),
}

/// What a flavour is, with the unknown name as characters.
pub enum GameFlavorView {
    Retail,
    Classic,
    Era,
    Unknown(Seq<char>),
}

impl View for GameFlavor {
    type V = GameFlavorView;

    open spec fn view(&self) -> GameFlavorView {
        match self {
            GameFlavor::Retail => GameFlavorView::Retail,
            GameFlavor::Classic => GameFlavorView::Classic,
            GameFlavor::Era => GameFlavorView::Era,
            GameFlavor::Unknown(name) => GameFlavorView::Unknown(name@),
        }
    }
}

impl GameFlavor {
    /// Whether the two are one flavour.
    pub fn same_as(&self, other: &GameFlavor) -> (same: bool)
        ensures
            same == (self@ == other@),
    {
        match (self, other) {
            (GameFlavor::Retail, GameFlavor::Retail) => true,
            (GameFlavor::Classic, GameFlavor::Classic) => true,
            (GameFlavor::Era, GameFlavor::Era) => true,
            (GameFlavor::Unknown(a), GameFlavor::Unknown(b)) => same_text(a, b),
            _ => false,
        }
    }

    /// A copy of the flavour.
    pub fn duplicate(&self) -> (copy: GameFlavor)
        ensures
            copy == *self,
    {
        match self {
            GameFlavor::Retail => GameFlavor::Retail,
            GameFlavor::Classic => GameFlavor::Classic,
            GameFlavor::Era => GameFlavor::Era,
            GameFlavor::Unknown(name) => GameFlavor::Unknown(name.clone()),
        }
    }
}

#[derive(Clone, Copy, Debug, PartialEq, Eq, Structural)]
pub enum Outcome {
    Win,
    Loss,
    Complete,
    Abandoned,
    Unknown,
}

#[derive(Clone, Copy, Debug, PartialEq, Eq, Structural)]
pub enum Codec {
    H264,
    Hevc,
    Av1,
}

#[derive(Clone, Copy, Debug, PartialEq, Eq, Structural)]
pub enum ReplayStorage {
    Ram,
    Disk,
}

#[derive(Clone, Copy, Debug, PartialEq, Eq, Structural)]
pub enum RaidDifficulty {
    Lfr,
    Normal,
    Heroic,
    Mythic,
}

#[derive(Clone, Copy, Debug, PartialEq, Eq, Structural)]
pub enum DeathMarkerVisibility {
    Hidden,
    Own,
    All,
}

#[derive(Clone, Copy, Debug, PartialEq, Eq, Structural)]
pub enum MarkerVisibility {
    Hidden,
    Visible,
}

/// The size the library may grow to.
#[derive(Clone, Copy, Debug, PartialEq, Eq, Structural)]
pub enum StorageLimit {
    Unlimited,
    Gib(u64),
}

impl StorageLimit {
    /// A limit in GiB is never zero.
    pub open spec fn wf(self) -> bool {
        self matches StorageLimit::Gib(gib) ==> gib > 0
    }

    /// The limit a number of GiB stands for; zero lifts it.
    pub fn from_gib(gib: u64) -> (limit: StorageLimit)
        ensures
            limit.wf(),
            limit == (if gib == 0 {
                StorageLimit::Unlimited
            } else {
                StorageLimit::Gib(gib)
            }),
    {
        if gib == 0 {
            StorageLimit::Unlimited
        } else {
            StorageLimit::Gib(gib)
        }
    }

    /// The number of GiB that stands for the limit; zero where there is none.
    pub fn gib(self) -> (gib: u64)
        ensures
            gib == (match self {
                StorageLimit::Unlimited => 0u64,
                StorageLimit::Gib(gib) => gib,
            }),
    {
        match self {
            StorageLimit::Unlimited => 0,
            StorageLimit::Gib(gib) => gib,
        }
    }
}

/// A limit survives being shown as a number and read back.
pub proof fn storage_limits_round_trip(limit: StorageLimit, gib: u64)
    requires
        limit.wf(),
        gib == (match limit {
            StorageLimit::Unlimited => 0u64,
            StorageLimit::Gib(gib) => gib,
        }),
    ensures
        limit == (if gib == 0 {
            StorageLimit::Unlimited
        } else {
            StorageLimit::Gib(gib)
        }),
{
}

/// Names one recording in the library.
#[derive(Clone, Debug, PartialEq, Eq, Hash)]
pub struct RecordingId {
    name: String,
}

impl View for RecordingId {
    type V = Seq<char>;

    closed spec fn view(&self) -> Seq<char> {
        self.name@
    }
}

impl RecordingId {
    /// The identity of a recording known by its media file's name.
    pub fn from_media_name(name: &str) -> (id: RecordingId)
        ensures
            id@ == name@,
    {
        RecordingId { name: name.to_owned() }
    }

    /// The identity as text.
    pub fn as_str(&self) -> (text: &str)
        ensures
            text@ == self@,
    {
        self.name.as_str()
    }

    /// Whether the two name one recording.
    pub fn same_as(&self, other: &RecordingId) -> (same: bool)
        ensures
            same == (self@ == other@),
    {
        same_text(&self.name, &other.name)
    }

    /// A copy of the identity.
    pub fn duplicate(&self) -> (copy: RecordingId)
        ensures
            copy == *self,
    {
        RecordingId { name: self.name.clone() }
    }
}

/// A copy of an optional text.
pub fn copy_text(value: &Option<String>) -> (copy: Option<String>)
    ensures
        copy == *value,
{
    match value {
        Some(inner) => Some(inner.clone()),
        None => None,
    }
}

/// An optional text as characters.
pub open spec fn text_view(value: Option<String>) -> Option<Seq<char>> {
    match value {
        Some(inner) => Some(inner@),
        None => None,
    }
}

/// One round of a solo shuffle.
#[derive(Clone, Copy, Debug, PartialEq, Eq, Structural)]
pub struct SoloRound {
    pub round: u32,
    pub start_ms: u64,
    pub outcome: Outcome,
    pub duration_ms: Option<u64>,
}

/// What kind of activity a recording shows.
#[derive(Clone, Debug, PartialEq, Eq)]
pub enum ActivityDetails {
    Raid {
        zone_id: Option<u32>,
        zone_name: Option<String>,
        encounter_id: Option<u32>,
        encounter_name: Option<String>,
        difficulty_id: Option<u32>,
        difficulty: Option<String>,
        pull: Option<u32>,
        boss_percent: Option<u32>,
    },
    Dungeon {
        zone_id: Option<u32>,
        dungeon_name: Option<String>,
        map_id: Option<u32>,
        keystone_level: Option<u32>,
        affixes: Vec<u32>,
        upgrade_level: Option<u32>,
    },
    ArenaOrBattleground { map_id: Option<u32>, map_name: Option<String>, team_mmr: Option<u32> },
    SoloRounds {
        map_id: Option<u32>,
        map_name: Option<String>,
        rounds_won: Option<u32>,
        rounds_played: Option<u32>,
        rounds: Vec<SoloRound>,
    },
    Clip {
        source_recording: RecordingId,
        source_category: Category,
        source_title: Option<String>,
    },
    Manual,
}

#[derive(Clone, Copy, Debug, PartialEq, Eq, Structural)]
pub enum TimelineKind {
    Death,
    Encounter,
    Trash,
    Round,
}

#[derive(Clone, Copy, Debug, PartialEq, Eq, Structural)]
pub enum TimelineShape {
    Point,
    Span,
}

/// A marker on a recording's timeline: a point, or a span with an end.
/// Offsets are milliseconds into the media.
#[derive(Clone, Debug, PartialEq, Eq)]
pub struct TimelineItem {
    pub kind: TimelineKind,
    pub start_ms: u64,
    pub end_ms: Option<u64>,
    pub label: Option<String>,
    pub outcome: Option<Outcome>,
    pub player_reference: Option<String>,
}

impl TimelineItem {
    /// A span does not end before it starts.
    pub open spec fn wf(self) -> bool {
        self.end_ms matches Some(end) ==> self.start_ms <= end
    }

    /// A marker at one moment.
    pub fn point(
        kind: TimelineKind,
        start_ms: u64,
        label: Option<String>,
        outcome: Option<Outcome>,
        player_reference: Option<String>,
    ) -> (item: TimelineItem)
        ensures
            item == (TimelineItem { kind, start_ms, end_ms: None, label, outcome, player_reference }),
            item.wf(),
    {
        TimelineItem { kind, start_ms, end_ms: None, label, outcome, player_reference }
    }

    /// A marker from `start_ms` to `end_ms`; one that would end before it
    /// starts is refused.
    pub fn span(
        kind: TimelineKind,
        start_ms: u64,
        end_ms: u64,
        label: Option<String>,
        outcome: Option<Outcome>,
        player_reference: Option<String>,
    ) -> (item: Result<TimelineItem, InvalidSpan>)
        ensures
            item is Ok <==> start_ms <= end_ms,
            item matches Ok(item) ==> item.wf() && item == (TimelineItem {
                kind,
                start_ms,
                end_ms: Some(end_ms),
                label,
                outcome,
                player_reference,
            }),
            item matches Err(refused) ==> refused == (InvalidSpan { start_ms, end_ms }),
    {
        if end_ms < start_ms {
            Err(InvalidSpan { start_ms, end_ms })
        } else {
            Ok(
                TimelineItem {
                    kind,
                    start_ms,
                    end_ms: Some(end_ms),
                    label,
                    outcome,
                    player_reference,
                },
            )
        }
    }

    /// Whether the marker has an end.
    pub open spec fn spec_shape(self) -> TimelineShape {
        if self.end_ms is Some {
            TimelineShape::Span
        } else {
            TimelineShape::Point
        }
    }

    pub fn shape(&self) -> (shape: TimelineShape)
        ensures
            shape == self.spec_shape(),
    {
        match self.end_ms {
            Some(_) => TimelineShape::Span,
            None => TimelineShape::Point,
        }
    }

    /// Where the marker ends; a point ends where it starts.
    pub open spec fn finish(self) -> u64 {
        match self.end_ms {
            Some(end) => end,
            None => self.start_ms,
        }
    }

    pub fn start_ms(&self) -> (start: u64)
        ensures
            start == self.start_ms,
    {
        self.start_ms
    }

    pub fn end_ms(&self) -> (end: Option<u64>)
        ensures
            end == self.end_ms,
    {
        self.end_ms
    }
}

/// A span was asked for that would end before it starts.
#[derive(Clone, Copy, Debug, PartialEq, Eq, Structural)]
pub struct InvalidSpan {
    pub start_ms: u64,
    pub end_ms: u64,
}

#[derive(Clone, Copy, Debug, PartialEq, Eq)]
pub struct MediaFacts {
    pub fps: Option<u32>,
    pub width: Option<u32>,
    pub height: Option<u32>,
    pub codec: Option<Codec>,
    pub has_content: bool,
}

#[derive(Clone, Debug, PartialEq, Eq)]
pub struct MeterFight {
    pub label: String,
    pub start_ms: u64,
    pub end_ms: u64,
    pub first_event_ms: Option<u64>,
    pub active_ms: u64,
    pub ambient: bool,
}

/// The combat meter's fights, aggregated over the whole recording.
#[derive(Clone, Debug, PartialEq, Eq)]
pub struct MeterData {
    pub fights: Vec<MeterFight>,
}

impl Default for MeterData {
    fn default() -> (data: Self)
        ensures
            data.fights@.len() == 0,
    {
        MeterData { fights: Vec::new() }
    }
}

/// The player a recording belongs to.
#[derive(Debug, PartialEq, Eq)]
pub struct PlayerSummary {
    pub guid: Option<String>,
    pub name: String,
    pub realm: Option<String>,
    pub spec_id: Option<u32>,
}

impl Clone for PlayerSummary {
    fn clone(&self) -> (copy: Self)
        ensures
            copy == *self,
    {
        PlayerSummary {
            guid: copy_text(&self.guid),
            name: self.name.clone(),
            realm: copy_text(&self.realm),
            spec_id: self.spec_id,
        }
    }
}

/// Another player seen in a recording.
#[derive(Debug, PartialEq, Eq)]
pub struct CombatantSummary {
    pub guid: Option<String>,
    pub team_id: Option<u32>,
    pub spec_id: Option<u32>,
    pub name: Option<String>,
    pub realm: Option<String>,
    pub region: Option<String>,
}

impl Clone for CombatantSummary {
    fn clone(&self) -> (copy: Self)
        ensures
            copy == *self,
    {
        CombatantSummary {
            guid: copy_text(&self.guid),
            team_id: self.team_id,
            spec_id: self.spec_id,
            name: copy_text(&self.name),
            realm: copy_text(&self.realm),
            region: copy_text(&self.region),
        }
    }
}

/// One recording in the library.
#[derive(Clone, Debug, PartialEq, Eq)]
pub struct LibraryEntry {
    pub id: RecordingId,
    pub media_path: String,
    pub sidecar_path: String,
    pub category: Category,
    pub flavor: GameFlavor,
    pub title: String,
    pub start_unix_ms: i64,
    pub duration_ms: u64,
    pub outcome: Outcome,
    pub protected: bool,
    pub tag: Option<String>,
    pub activity_hash: Option<String>,
    pub player: Option<PlayerSummary>,
    pub combatants: Vec<CombatantSummary>,
    pub details: ActivityDetails,
    pub timeline: Vec<TimelineItem>,
    pub media: MediaFacts,
    pub meter: MeterData,
}

/// `Arc::clone` hands out another owner of the same value.
#[verifier::external_body]
pub(crate) fn share<T>(value: &Arc<T>) -> (shared: Arc<T>)
    ensures
        shared == *value,
{
    Arc::clone(value)
}

/// Recordings of one activity from several points of view.
#[derive(Clone, Debug, PartialEq, Eq)]
pub struct CorrelatedActivity {
    pub primary_id: RecordingId,
    pub local_pov_ids: Vec<RecordingId>,
}

#[derive(Clone, Copy, Debug, PartialEq, Eq, Structural)]
pub enum RecoveryAction {
    OpenSettings,
    ReselectCaptureTarget,
    Retry,
    OpenLogs,
    Quit,
}

/// Something the user should know about, and what they can do about it.
#[derive(Debug, PartialEq, Eq)]
pub struct Problem {
    pub summary: String,
    pub safe_detail: Option<String>,
    pub occurred_unix_ms: i64,
    pub recovery_action: Option<RecoveryAction>,
}

/// A problem, with its texts as characters.
pub struct ProblemView {
    pub summary: Seq<char>,
    pub safe_detail: Option<Seq<char>>,
    pub occurred_unix_ms: i64,
    pub recovery_action: Option<RecoveryAction>,
}

impl View for Problem {
    type V = ProblemView;

    open spec fn view(&self) -> ProblemView {
        ProblemView {
            summary: self.summary@,
            safe_detail: text_view(self.safe_detail),
            occurred_unix_ms: self.occurred_unix_ms,
            recovery_action: self.recovery_action,
        }
    }
}

impl Clone for Problem {
    fn clone(&self) -> (copy: Self)
        ensures
            copy == *self,
    {
        Problem {
            summary: self.summary.clone(),
            safe_detail: copy_text(&self.safe_detail),
            occurred_unix_ms: self.occurred_unix_ms,
            recovery_action: self.recovery_action,
        }
    }
}

#[derive(Clone, Debug, PartialEq, Eq)]
pub enum RecorderStatus {
    SetupRequired,
    WaitingForWow,
    Reconfiguring,
    Ready,
    Buffering,
    Recording {
        category: Category,
        title: String,
        started_unix_ms: i64,
        manual: bool,
        test: bool,
    },
    Overrunning { title: String, started_unix_ms: i64 },
    Finalizing { title: String },
    Fatal { problem: Problem },
}

#[derive(Clone, Copy, Debug, PartialEq, Eq, Structural)]
pub enum WorkKind {
    Finalize,
    Clip,
}

/// How far the media worker has got.
#[derive(Clone, Copy, Debug, PartialEq, Eq, Structural)]
pub struct WorkProgress {
    pub kind: WorkKind,
    pub completed: u64,
    pub total: Option<u64>,
}

} // verus!
