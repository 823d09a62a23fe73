//! The recording an activity in the game asks for.
use vstd::prelude::*;

use crate::domain::{
    ActivityDetails, Category, CombatantSummary, GameFlavor, MeterData, Outcome, PlayerSummary,
    RecordingId, TimelineItem,
};

verus! {

/// A recording that is being made, as far as it is known.
#[derive(Clone, Debug, PartialEq, Eq)]
pub struct RecordingDraft {
    pub id: RecordingId,
    pub category: Category,
    pub flavor: GameFlavor,
    pub started_at_ms: i64,
    pub overrun_ms: u64,
    pub details: ActivityDetails,
    pub player: Option<PlayerSummary>,
    pub combatants: Vec<CombatantSummary>,
    pub timeline: Vec<TimelineItem>,
    pub outcome: Option<Outcome>,
    pub ended_at_ms: Option<i64>,
    pub duration_ms: Option<u64>,
    pub title: Option<String>,
    pub activity_hash: Option<String>,
    pub meter: MeterData,
}

/// What the activity engine makes of the log.
pub enum ActivityEvent {
    Begin { draft: Box<RecordingDraft>, detected_at_ms: i64 },
    Update { id: RecordingId, item: TimelineItem },
    /// The activity ended, completed or abandoned; `known` is what the engine
    /// knows of it by then.
    Finished { id: RecordingId, known: Option<Box<RecordingDraft>> },
    Discard { id: RecordingId },
}

} // verus!
