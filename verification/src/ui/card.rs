//! What the status card has on show, and what a new snapshot changes of it.
//! Rebuilding the warnings and problems with every snapshot would collapse any
//! problem row the user had expanded, so unchanged lists keep their rows.
use vstd::prelude::*;

use crate::config::same_optional_text;
use crate::coordinator;
use crate::coordinator::AppSnapshot;
use crate::domain::{Problem, RecoveryAction};
use crate::snapshot::copy_problems;
use crate::text;
use crate::text::{push_decimal, same_text};
use crate::ui::status;
use crate::ui::status::{
    advanced_logging_warnings, cloud_line, elapsed_label, recovery_label, view, StatusView, Tone,
};

verus! {

/// One problem as a row: its summary, its technical detail and the offer to do
/// something about it.
pub struct ProblemRow {
    pub problem: Problem,
    pub offer: Option<&'static str>,
}

/// The rows of the problem list and what stands above them.
pub struct ProblemList {
    pub label: String,
    pub shown: bool,
    pub rows: Vec<ProblemRow>,
}

/// What changes on the card.
pub struct CardUpdate {
    pub view: StatusView,
    /// The status light takes another tone.
    pub tone_changed: bool,
    /// The cloud line; empty where there is nothing to say.
    pub cloud: String,
    /// The elapsed time, where it is on show.
    pub elapsed: Option<String>,
    /// The clock has to be started.
    pub start_clock: bool,
    /// The warnings to show in place of those that are on show.
    pub warnings: Option<Vec<String>>,
    /// The problems to show in place of those that are on show.
    pub problems: Option<ProblemList>,
}

/// The status card: what it was last built from.
pub struct StatusCard {
    pub tone: Option<Tone>,
    pub warnings: Vec<String>,
    pub problems: Vec<Problem>,
    pub elapsed_anchor_ms: Option<i64>,
    pub clock_runs: bool,
    /// Without a tray, closing the window quits, and the card says so.
    pub tray_note: bool,
}

/// What stands above the problem list.
pub open spec fn problems_label(count: nat) -> Seq<char> {
    "Problems ("@ + text::decimal(count) + ")"@
}

/// The list shows these problems, each with its offer.
pub open spec fn lists(list: ProblemList, problems: Seq<Problem>) -> bool {
    &&& list.label@ == problems_label(problems.len())
    &&& list.shown == (problems.len() > 0)
    &&& list.rows@.len() == problems.len()
    &&& forall|i: int|
        0 <= i < problems.len() ==> {
            &&& (#[trigger] list.rows@[i]).problem == problems[i]
            &&& offers(list.rows@[i].offer, problems[i].recovery_action)
        }
}

/// What a row offers for a recovery action.
pub open spec fn offers(offer: Option<&'static str>, action: Option<RecoveryAction>) -> bool {
    match (offer, action) {
        (Some(label), Some(action)) => label@ == status::recovery_words(action),
        (None, None) => true,
        _ => false,
    }
}

impl StatusCard {
    pub fn new() -> (card: Self)
        ensures
            card.tone is None,
            card.warnings@.len() == 0,
            card.problems@.len() == 0,
            card.elapsed_anchor_ms is None,
            !card.clock_runs,
            !card.tray_note,
    {
        StatusCard {
            tone: None,
            warnings: Vec::new(),
            problems: Vec::new(),
            elapsed_anchor_ms: None,
            clock_runs: false,
            tray_note: false,
        }
    }

    /// What a snapshot changes.
    pub open spec fn changes(
        self,
        snapshot: AppSnapshot,
        now_unix_ms: i64,
        after: StatusCard,
        update: CardUpdate,
    ) -> bool {
        let shown = status::card(snapshot);
        let warnings = status::logging_warnings(snapshot.advanced_logging@);
        &&& update.view@ == shown
        &&& update.tone_changed == (self.tone != Some(shown.tone))
        &&& update.cloud@ == status::cloud_words(snapshot.cloud)
        &&& match shown.elapsed_anchor_ms {
            Some(anchor) => update.elapsed matches Some(label) && label@ == status::clock(
                status::elapsed_seconds(anchor, now_unix_ms),
            ),
            None => update.elapsed is None,
        }
        &&& update.start_clock == (shown.elapsed_anchor_ms is Some && !self.clock_runs)
        &&& match update.warnings {
            Some(list) => text::texts(self.warnings@) != warnings && text::texts(list@) == warnings,
            None => text::texts(self.warnings@) == warnings,
        }
        &&& match update.problems {
            Some(list) => coordinator::problem_views(self.problems@) != coordinator::problem_views(
                snapshot.problems@,
            ) && lists(list, snapshot.problems@),
            None => coordinator::problem_views(self.problems@) == coordinator::problem_views(
                snapshot.problems@,
            ),
        }
        &&& after.tone == Some(shown.tone)
        &&& text::texts(after.warnings@) == warnings
        &&& coordinator::problem_views(after.problems@) == coordinator::problem_views(
            snapshot.problems@,
        )
        &&& after.elapsed_anchor_ms == shown.elapsed_anchor_ms
        &&& after.clock_runs == (self.clock_runs || shown.elapsed_anchor_ms is Some)
        &&& after.tray_note == self.tray_note
    }

    /// Take in a snapshot and say what changes on the card.
    pub fn apply(&mut self, snapshot: &AppSnapshot, now_unix_ms: i64) -> (update: CardUpdate)
        ensures
            old(self).changes(*snapshot, now_unix_ms, *final(self), update),
    {
        let shown = view(snapshot);
        let tone_changed = match self.tone {
            Some(tone) => tone != shown.tone,
            None => true,
        };
        self.tone = Some(shown.tone);
        let elapsed = match shown.elapsed_anchor_ms {
            Some(anchor) => Some(elapsed_label(anchor, now_unix_ms)),
            None => None,
        };
        self.elapsed_anchor_ms = shown.elapsed_anchor_ms;
        let start_clock = shown.elapsed_anchor_ms.is_some() && !self.clock_runs;
        if start_clock {
            self.clock_runs = true;
        }
        let warnings = advanced_logging_warnings(snapshot);
        let warnings = if same_texts(&self.warnings, &warnings) {
            None
        } else {
            self.warnings = copy_texts(&warnings);
            Some(warnings)
        };
        let problems = if same_problems(&self.problems, &snapshot.problems) {
            None
        } else {
            self.problems = copy_problems(&snapshot.problems);
            Some(problem_list(&snapshot.problems))
        };
        CardUpdate {
            view: shown,
            tone_changed,
            cloud: cloud_line(snapshot),
            elapsed,
            start_clock,
            warnings,
            problems,
        }
    }

    /// What a second that has passed changes and shows.
    pub open spec fn ticks(self, now_unix_ms: i64, after: StatusCard, label: Option<String>) -> bool {
        match self.elapsed_anchor_ms {
            Some(anchor) => {
                &&& label matches Some(text) && text@ == status::clock(
                    status::elapsed_seconds(anchor, now_unix_ms),
                )
                &&& after == self
            },
            None => label is None && after == (StatusCard { clock_runs: false, ..self }),
        }
    }

    /// A second has passed: the elapsed time to show. Where there is none the
    /// clock stops.
    pub fn tick(&mut self, now_unix_ms: i64) -> (label: Option<String>)
        ensures
            old(self).ticks(now_unix_ms, *final(self), label),
    {
        match self.elapsed_anchor_ms {
            Some(anchor) => Some(elapsed_label(anchor, now_unix_ms)),
            None => {
                self.clock_runs = false;
                None
            },
        }
    }

    pub fn set_tray_available(&mut self, available: bool)
        ensures
            *final(self) == (StatusCard { tray_note: !available, ..*old(self) }),
    {
        self.tray_note = !available;
    }
}

fn same_texts(a: &Vec<String>, b: &Vec<String>) -> (same: bool)
    ensures
        same == (text::texts(a@) == text::texts(b@)),
{
    if a.len() != b.len() {
        assert(text::texts(a@).len() != text::texts(b@).len());
        return false;
    }
    let mut i: usize = 0;
    while i < a.len()
        invariant
            i <= a@.len(),
            a@.len() == b@.len(),
            forall|j: int| 0 <= j < i ==> (#[trigger] a@[j])@ == b@[j]@,
        decreases a@.len() - i,
    {
        if !same_text(&a[i], &b[i]) {
            assert(text::texts(a@)[i as int] != text::texts(b@)[i as int]);
            return false;
        }
        i = i + 1;
    }
    assert(text::texts(a@) =~= text::texts(b@));
    true
}

fn copy_texts(list: &Vec<String>) -> (copy: Vec<String>)
    ensures
        text::texts(copy@) == text::texts(list@),
{
    let mut copy: Vec<String> = Vec::new();
    let mut i: usize = 0;
    while i < list.len()
        invariant
            i <= list@.len(),
            text::texts(copy@) == text::texts(list@).take(i as int),
        decreases list@.len() - i,
    {
        let ghost before = copy@;
        copy.push(list[i].clone());
        assert(text::texts(copy@) =~= text::texts(before).push(list@[i as int]@));
        i = i + 1;
        assert(text::texts(list@).take(i as int) =~= text::texts(list@).take(i - 1).push(
            text::texts(list@)[i - 1],
        ));
    }
    assert(text::texts(list@).take(i as int) =~= text::texts(list@));
    copy
}

fn same_problem(a: &Problem, b: &Problem) -> (same: bool)
    ensures
        same == (a@ == b@),
{
    same_text(&a.summary, &b.summary) && same_optional_text(&a.safe_detail, &b.safe_detail)
        && a.occurred_unix_ms == b.occurred_unix_ms && a.recovery_action == b.recovery_action
}

fn same_problems(a: &Vec<Problem>, b: &Vec<Problem>) -> (same: bool)
    ensures
        same == (coordinator::problem_views(a@) == coordinator::problem_views(b@)),
{
    if a.len() != b.len() {
        assert(coordinator::problem_views(a@).len() != coordinator::problem_views(b@).len());
        return false;
    }
    let mut i: usize = 0;
    while i < a.len()
        invariant
            i <= a@.len(),
            a@.len() == b@.len(),
            forall|j: int| 0 <= j < i ==> (#[trigger] a@[j])@ == b@[j]@,
        decreases a@.len() - i,
    {
        if !same_problem(&a[i], &b[i]) {
            assert(coordinator::problem_views(a@)[i as int] != coordinator::problem_views(
                b@,
            )[i as int]);
            return false;
        }
        i = i + 1;
    }
    assert(coordinator::problem_views(a@) =~= coordinator::problem_views(b@));
    true
}

fn problem_list(problems: &Vec<Problem>) -> (list: ProblemList)
    ensures
        lists(list, problems@),
{
    let mut rows: Vec<ProblemRow> = Vec::new();
    let mut i: usize = 0;
    while i < problems.len()
        invariant
            i <= problems@.len(),
            rows@.len() == i,
            forall|j: int|
                0 <= j < i ==> {
                    &&& (#[trigger] rows@[j]).problem == problems@[j]
                    &&& offers(rows@[j].offer, problems@[j].recovery_action)
                },
        decreases problems@.len() - i,
    {
        let offer = match problems[i].recovery_action {
            Some(action) => Some(recovery_label(action)),
            None => None,
        };
        rows.push(ProblemRow { problem: problems[i].clone(), offer });
        i = i + 1;
    }
    let mut label = "Problems (".to_owned();
    push_decimal(&mut label, problems.len() as u64);
    label.append(")");
    ProblemList { label, shown: problems.len() > 0, rows }
}

/// A snapshot that says the same as the last one rebuilds nothing, so an
/// expanded problem stays expanded, and there is only ever one clock.
pub proof fn the_same_snapshot_rebuilds_nothing(
    before: StatusCard,
    snapshot: AppSnapshot,
    now_unix_ms: i64,
    once: StatusCard,
    first: CardUpdate,
    later_unix_ms: i64,
    twice: StatusCard,
    second: CardUpdate,
)
    requires
        before.changes(snapshot, now_unix_ms, once, first),
        once.changes(snapshot, later_unix_ms, twice, second),
    ensures
        !second.tone_changed,
        second.warnings is None,
        second.problems is None,
        !second.start_clock,
{
}

} // verus!
