//! The library as the coordinator keeps it: looking recordings up, folding
//! changes in, and counting what they take.
use std::sync::Arc;

use vstd::prelude::*;

use crate::coordinator;
use crate::coordinator::{Coordinator, LibraryState};
use crate::domain::{
    share, Category, CorrelatedActivity, LibraryEntry, ProblemView, RecordingId, RecoveryAction,
    StorageLimit,
};
use crate::queues;

verus! {

/// The entries with the first one of this identity replaced.
pub open spec fn with_entry(
    entries: Seq<Arc<LibraryEntry>>,
    id: Seq<char>,
    entry: LibraryEntry,
) -> Seq<Arc<LibraryEntry>>
    decreases entries.len(),
{
    if entries.len() == 0 {
        entries
    } else if entries[0].id@ == id {
        entries.update(0, Arc::new(entry))
    } else {
        seq![entries[0]] + with_entry(entries.skip(1), id, entry)
    }
}

proof fn lemma_with_entry(
    entries: Seq<Arc<LibraryEntry>>,
    id: Seq<char>,
    entry: LibraryEntry,
    at: int,
)
    requires
        0 <= at <= entries.len(),
        forall|j: int| 0 <= j < at ==> (#[trigger] entries[j]).id@ != id,
        at < entries.len() ==> entries[at].id@ == id,
    ensures
        with_entry(entries, id, entry) == (if at < entries.len() {
            entries.update(at, Arc::new(entry))
        } else {
            entries
        }),
    decreases entries.len(),
{
    if entries.len() > 0 && at > 0 {
        let rest = entries.skip(1);
        assert forall|j: int| 0 <= j < at - 1 implies (#[trigger] rest[j]).id@ != id by {
            assert(rest[j] == entries[j + 1]);
        }
        lemma_with_entry(rest, id, entry, at - 1);
        assert(entries[0].id@ != id);
        assert(seq![entries[0]] + rest =~= entries);
        if at < entries.len() {
            assert(seq![entries[0]] + rest.update(at - 1, Arc::new(entry)) =~= entries.update(
                at,
                Arc::new(entry),
            ));
        }
    }
}

/// What enforcing the storage limit did.
pub struct LimitOutcome {
    pub protected_over_limit: bool,
    /// A sidecar outlived its media; only a rescan can reconcile.
    pub partially_deleted: bool,
    pub evicted: Vec<RecordingId>,
    pub remaining_bytes: u64,
}

/// What the caller does about the library after that.
pub enum LimitReaction {
    Nothing,
    Rescan,
    /// Take these recordings out of the library.
    Remove(Vec<RecordingId>),
}

/// The sum of all sizes, as far as it can be counted.
pub open spec fn saturating_total(sizes: Seq<(u64, u64)>) -> int
    decreases sizes.len(),
{
    if sizes.len() == 0 {
        0
    } else {
        let (media, sidecar) = sizes.last();
        let own = if media + sidecar > u64::MAX {
            u64::MAX as int
        } else {
            media + sidecar
        };
        let sum = saturating_total(sizes.drop_last()) + own;
        if sum > u64::MAX {
            u64::MAX as int
        } else {
            sum
        }
    }
}

/// What media and sidecars take together.
pub fn total_bytes(sizes: &Vec<(u64, u64)>) -> (total: u64)
    ensures
        total == saturating_total(sizes@),
{
    let mut total: u64 = 0;
    let mut i: usize = 0;
    while i < sizes.len()
        invariant
            i <= sizes@.len(),
            total == saturating_total(sizes@.take(i as int)),
        decreases sizes@.len() - i,
    {
        assert(sizes@.take(i + 1).drop_last() =~= sizes@.take(i as int));
        total = total.saturating_add(sizes[i].0.saturating_add(sizes[i].1));
        i = i + 1;
    }
    assert(sizes@.take(i as int) =~= sizes@);
    total
}

impl Coordinator {
    /// A selected recording is found, or the user is told that it is gone.
    pub open spec fn selects_one(
        self,
        id: Seq<char>,
        now_ms: i64,
        after: Coordinator,
        entry: Option<Arc<LibraryEntry>>,
    ) -> bool {
        &&& entry == queues::find_entry(self.library.entries@, id)
        &&& match entry {
            Some(_) => after == self,
            None => self.complains(
                after,
                "A selected recording is no longer in the library."@,
                Some(id),
                Some(RecoveryAction::Retry),
                now_ms,
            ),
        }
    }

    /// The entry a command selected; where it is gone, the user is told.
    pub fn selected_entry(&mut self, id: &RecordingId, now_ms: i64) -> (entry: Option<
        Arc<LibraryEntry>,
    >)
        requires
            old(self).wf(),
        ensures
            final(self).wf(),
            old(self).selects_one(id@, now_ms, *final(self), entry),
    {
        match self.entry(id) {
            Some(entry) => Some(entry),
            None => {
                self.push_problem(
                    "A selected recording is no longer in the library.",
                    Some(id.as_str().to_owned()),
                    Some(RecoveryAction::Retry),
                    now_ms,
                );
                None
            },
        }
    }

    /// An entry was updated on disk: it takes its place in the library, or the
    /// user is told.
    pub open spec fn takes_update(
        self,
        entry: LibraryEntry,
        outcome: Result<LibraryEntry, String>,
        now_ms: i64,
        after: Coordinator,
    ) -> bool {
        match outcome {
            Ok(updated) => {
                &&& after.library.entries@ == with_entry(self.library.entries@, entry.id@, updated)
                &&& after == (Coordinator {
                    library: LibraryState { entries: after.library.entries, ..self.library },
                    ..self
                })
            },
            Err(error) => self.complains(
                after,
                "\""@ + entry.title@ + "\" could not be updated."@,
                Some(error@),
                Some(RecoveryAction::Retry),
                now_ms,
            ),
        }
    }

    /// An entry was updated on disk: it takes its place in the library, or
    /// the user is told. A tag or protect flag cannot move an entry between
    /// groups, so nothing else changes.
    pub fn entry_updated(
        &mut self,
        entry: &LibraryEntry,
        outcome: Result<LibraryEntry, String>,
        now_ms: i64,
    )
        requires
            old(self).wf(),
        ensures
            final(self).wf(),
            old(self).takes_update(*entry, outcome, now_ms, *final(self)),
    {
        match outcome {
            Ok(updated) => {
                let ghost fresh = updated;
                let mut slot = Some(Arc::new(updated));
                let mut entries: Vec<Arc<LibraryEntry>> = Vec::new();
                let ghost all = self.library.entries@;
                let ghost mut at: int = all.len() as int;
                let mut i: usize = 0;
                while i < self.library.entries.len()
                    invariant
                        i <= self.library.entries@.len(),
                        *self == *old(self),
                        all == self.library.entries@,
                        0 <= at <= all.len(),
                        slot matches Some(arc) ==> arc == Arc::new(fresh) && at == all.len(),
                        forall|j: int|
                            0 <= j < i && j < at ==> (#[trigger] all[j]).id@ != entry.id@,
                        slot is None ==> at < i && all[at].id@ == entry.id@,
                        entries@ == (if slot is None {
                            all.update(at, Arc::new(fresh))
                        } else {
                            all
                        }).take(i as int),
                    decreases self.library.entries@.len() - i,
                {
                    if slot.is_some() && self.library.entries[i].id.same_as(&entry.id) {
                        match slot.take() {
                            Some(arc) => {
                                entries.push(arc);
                                proof {
                                    at = i as int;
                                }
                                assert(entries@ =~= all.update(at, Arc::new(fresh)).take(i + 1));
                            },
                            None => {},
                        }
                    } else {
                        entries.push(share(&self.library.entries[i]));
                        assert(entries@ =~= (if slot is None {
                            all.update(at, Arc::new(fresh))
                        } else {
                            all
                        }).take(i + 1));
                    }
                    i = i + 1;
                }
                proof {
                    lemma_with_entry(all, entry.id@, fresh, at);
                    assert(all.take(all.len() as int) =~= all);
                    if at < all.len() {
                        let changed = all.update(at, Arc::new(fresh));
                        assert(changed.take(all.len() as int) =~= changed);
                    }
                }
                self.library.entries = Arc::new(entries);
            },
            Err(error) => {
                let mut summary = "\"".to_owned();
                summary.append(&entry.title);
                summary.append("\" could not be updated.");
                self.push_problem(&summary, Some(error), Some(RecoveryAction::Retry), now_ms);
            },
        }
    }

    /// A recording could not be deleted; the user is told by its title, or by
    /// its identity where it is gone from the library.
    pub fn delete_failed(&mut self, id: &RecordingId, error: String, now_ms: i64)
        requires
            old(self).wf(),
        ensures
            final(self).wf(),
            old(self).complains(
                *final(self),
                "\""@ + deleted_title(old(self).library.entries@, id@)
                    + "\" could not be deleted."@,
                Some(error@),
                Some(RecoveryAction::Retry),
                now_ms,
            ),
    {
        let mut summary = "\"".to_owned();
        match self.entry(id) {
            Some(entry) => summary.append(&entry.title),
            None => summary.append(id.as_str()),
        }
        summary.append("\" could not be deleted.");
        self.push_problem(&summary, Some(error), Some(RecoveryAction::Retry), now_ms);
    }

    /// The library was read again, or entries were folded in or out.
    pub fn library_changed(
        &mut self,
        entries: Arc<Vec<Arc<LibraryEntry>>>,
        correlations: Arc<Vec<CorrelatedActivity>>,
        used_bytes: u64,
    )
        ensures
            old(self).wf() ==> final(self).wf(),
            *final(self) == (Coordinator {
                library: LibraryState {
                    entries,
                    correlations,
                    used_bytes,
                    ..old(self).library
                },
                dirty: true,
                ..*old(self)
            }),
    {
        self.library.entries = entries;
        self.library.correlations = correlations;
        self.library.used_bytes = used_bytes;
        self.dirty = true;
    }

    /// The limit that the library is held to; without one nothing can be over
    /// it.
    pub open spec fn limits(self, after: Coordinator, limit: Option<StorageLimit>) -> bool {
        match self.config.storage.limit {
            StorageLimit::Unlimited => {
                &&& limit is None
                &&& after == (Coordinator {
                    library: LibraryState { protected_over_limit: false, ..self.library },
                    ..self
                })
            },
            StorageLimit::Gib(_) => {
                &&& limit == Some(self.config.storage.limit)
                &&& after == self
            },
        }
    }

    /// Whether the library has a limit to enforce. Without one nothing can be
    /// over it.
    pub fn limit_to_enforce(&mut self) -> (limit: Option<StorageLimit>)
        ensures
            old(self).wf() ==> final(self).wf(),
            old(self).limits(*final(self), limit),
    {
        match self.config.storage.limit {
            StorageLimit::Unlimited => {
                self.library.protected_over_limit = false;
                None
            },
            StorageLimit::Gib(_) => Some(self.config.storage.limit),
        }
    }

    /// What enforcing the storage limit leaves, and what is to be done.
    pub open spec fn enforces(
        self,
        outcome: LimitOutcome,
        after: Coordinator,
        reaction: LimitReaction,
    ) -> bool {
        let noted = LibraryState {
            protected_over_limit: outcome.protected_over_limit,
            ..self.library
        };
        if outcome.partially_deleted {
            reaction is Rescan && after == (Coordinator { library: noted, ..self })
        } else if outcome.evicted@.len() == 0 {
            reaction is Nothing && after == (Coordinator { library: noted, ..self })
        } else {
            reaction == LimitReaction::Remove(outcome.evicted) && after == (Coordinator {
                library: LibraryState { used_bytes: outcome.remaining_bytes, ..noted },
                dirty: true,
                ..self
            })
        }
    }

    /// The storage limit was enforced.
    pub fn limit_enforced(&mut self, outcome: LimitOutcome) -> (reaction: LimitReaction)
        ensures
            old(self).wf() ==> final(self).wf(),
            old(self).enforces(outcome, *final(self), reaction),
    {
        self.library.protected_over_limit = outcome.protected_over_limit;
        if outcome.partially_deleted {
            return LimitReaction::Rescan;
        }
        if outcome.evicted.len() == 0 {
            return LimitReaction::Nothing;
        }
        self.library.used_bytes = outcome.remaining_bytes;
        self.dirty = true;
        LimitReaction::Remove(outcome.evicted)
    }
}

/// A recording that could not be deleted, and why.
pub struct DeleteFailure {
    pub id: RecordingId,
    pub error: String,
}

/// What deleting recordings did.
pub struct DeleteOutcome {
    pub deleted: Vec<RecordingId>,
    pub failures: Vec<DeleteFailure>,
    /// A sidecar outlived its media; only a rescan can reconcile.
    pub partially_deleted: bool,
}

/// What the caller does about the library after that.
pub enum DeleteReaction {
    Rescan,
    /// Take these recordings out of the library and count what is left.
    Remove(Vec<RecordingId>),
}

/// The recordings among `ids` that the library has, in their order.
pub open spec fn found_entries(entries: Seq<Arc<LibraryEntry>>, ids: Seq<RecordingId>) -> Seq<
    Arc<LibraryEntry>,
>
    decreases ids.len(),
{
    if ids.len() == 0 {
        seq![]
    } else {
        let before = found_entries(entries, ids.drop_last());
        match queues::find_entry(entries, ids.last()@) {
            Some(entry) => before.push(entry),
            None => before,
        }
    }
}

/// The problem of a recording that was selected and is gone.
pub open spec fn gone_problem(id: Seq<char>, now_ms: i64) -> ProblemView {
    ProblemView {
        summary: "A selected recording is no longer in the library."@,
        safe_detail: Some(id),
        occurred_unix_ms: now_ms,
        recovery_action: Some(RecoveryAction::Retry),
    }
}

/// The problems with one more for each of `ids` that the library has not.
pub open spec fn with_gone(
    problems: Seq<ProblemView>,
    entries: Seq<Arc<LibraryEntry>>,
    ids: Seq<RecordingId>,
    now_ms: i64,
) -> Seq<ProblemView>
    decreases ids.len(),
{
    if ids.len() == 0 {
        problems
    } else {
        let before = with_gone(problems, entries, ids.drop_last(), now_ms);
        match queues::find_entry(entries, ids.last()@) {
            Some(_) => before,
            None => coordinator::with_problem(before, gone_problem(ids.last()@, now_ms)),
        }
    }
}

/// What a recording that could not be deleted is called: its title, or its
/// identity where it is gone from the library.
pub open spec fn deleted_title(entries: Seq<Arc<LibraryEntry>>, id: Seq<char>) -> Seq<char> {
    match queues::find_entry(entries, id) {
        Some(entry) => entry.title@,
        None => id,
    }
}

/// The problem of a recording that could not be deleted.
pub open spec fn undeleted_problem(
    entries: Seq<Arc<LibraryEntry>>,
    failure: DeleteFailure,
    now_ms: i64,
) -> ProblemView {
    ProblemView {
        summary: "\""@ + deleted_title(entries, failure.id@) + "\" could not be deleted."@,
        safe_detail: Some(failure.error@),
        occurred_unix_ms: now_ms,
        recovery_action: Some(RecoveryAction::Retry),
    }
}

/// The problems with one more for each failure.
pub open spec fn with_failures(
    problems: Seq<ProblemView>,
    entries: Seq<Arc<LibraryEntry>>,
    failures: Seq<DeleteFailure>,
    now_ms: i64,
) -> Seq<ProblemView>
    decreases failures.len(),
{
    if failures.len() == 0 {
        problems
    } else {
        coordinator::with_problem(
            with_failures(problems, entries, failures.drop_last(), now_ms),
            undeleted_problem(entries, failures.last(), now_ms),
        )
    }
}

impl Coordinator {
    /// Selected recordings are found, and the user is told of each that is
    /// gone.
    pub open spec fn selects_all(
        self,
        ids: Seq<RecordingId>,
        now_ms: i64,
        after: Coordinator,
        entries: Seq<Arc<LibraryEntry>>,
    ) -> bool {
        &&& entries == found_entries(self.library.entries@, ids)
        &&& coordinator::problem_views(after.problems@) == with_gone(
            coordinator::problem_views(self.problems@),
            self.library.entries@,
            ids,
            now_ms,
        )
        &&& after == (Coordinator {
            problems: after.problems,
            dirty: self.dirty || entries.len() < ids.len(),
            ..self
        })
    }

    /// The recordings a command selected; the user is told of each that is
    /// gone.
    pub fn selected_entries(&mut self, ids: &Vec<RecordingId>, now_ms: i64) -> (entries: Vec<
        Arc<LibraryEntry>,
    >)
        requires
            old(self).wf(),
        ensures
            final(self).wf(),
            old(self).selects_all(ids@, now_ms, *final(self), entries@),
    {
        let mut entries: Vec<Arc<LibraryEntry>> = Vec::new();
        let mut i: usize = 0;
        while i < ids.len()
            invariant
                i <= ids@.len(),
                self.wf(),
                entries@.len() <= i,
                entries@ == found_entries(old(self).library.entries@, ids@.take(i as int)),
                coordinator::problem_views(self.problems@) == with_gone(
                    coordinator::problem_views(old(self).problems@),
                    old(self).library.entries@,
                    ids@.take(i as int),
                    now_ms,
                ),
                *self == (Coordinator {
                    problems: self.problems,
                    dirty: old(self).dirty || entries@.len() < i,
                    ..*old(self)
                }),
            decreases ids@.len() - i,
        {
            assert(ids@.take(i + 1).drop_last() =~= ids@.take(i as int));
            match self.selected_entry(&ids[i], now_ms) {
                Some(entry) => entries.push(entry),
                None => {},
            }
            i = i + 1;
        }
        assert(ids@.take(i as int) =~= ids@);
        entries
    }

    /// What deleting recordings leaves, and what is to be done: the user is
    /// told of each that is still there.
    pub open spec fn deletes(
        self,
        outcome: DeleteOutcome,
        now_ms: i64,
        after: Coordinator,
        reaction: DeleteReaction,
    ) -> bool {
        &&& reaction == (if outcome.partially_deleted {
            DeleteReaction::Rescan
        } else {
            DeleteReaction::Remove(outcome.deleted)
        })
        &&& coordinator::problem_views(after.problems@) == with_failures(
            coordinator::problem_views(self.problems@),
            self.library.entries@,
            outcome.failures@,
            now_ms,
        )
        &&& after == (Coordinator {
            problems: after.problems,
            dirty: self.dirty || outcome.failures@.len() > 0,
            ..self
        })
    }

    /// Recordings were deleted, or could not be: the user is told of each that
    /// is still there. Only a sidecar that outlived its media needs the
    /// directory itself.
    pub fn entries_deleted(&mut self, outcome: DeleteOutcome, now_ms: i64) -> (reaction:
        DeleteReaction)
        requires
            old(self).wf(),
        ensures
            final(self).wf(),
            old(self).deletes(outcome, now_ms, *final(self), reaction),
    {
        let failures = &outcome.failures;
        let mut i: usize = 0;
        while i < failures.len()
            invariant
                i <= failures@.len(),
                failures@ == outcome.failures@,
                self.wf(),
                coordinator::problem_views(self.problems@) == with_failures(
                    coordinator::problem_views(old(self).problems@),
                    old(self).library.entries@,
                    failures@.take(i as int),
                    now_ms,
                ),
                *self == (Coordinator {
                    problems: self.problems,
                    dirty: old(self).dirty || i > 0,
                    ..*old(self)
                }),
            decreases failures@.len() - i,
        {
            assert(failures@.take(i + 1).drop_last() =~= failures@.take(i as int));
            self.delete_failed(&failures[i].id, failures[i].error.clone(), now_ms);
            i = i + 1;
        }
        assert(failures@.take(i as int) =~= failures@);
        if outcome.partially_deleted {
            DeleteReaction::Rescan
        } else {
            DeleteReaction::Remove(outcome.deleted)
        }
    }
}

/// How many entries a category has.
pub open spec fn count_of(entries: Seq<Arc<LibraryEntry>>, category: Category) -> nat
    decreases entries.len(),
{
    if entries.len() == 0 {
        0
    } else {
        count_of(entries.drop_last(), category) + (if entries.last().category == category {
            1nat
        } else {
            0
        })
    }
}

proof fn lemma_count_bound(entries: Seq<Arc<LibraryEntry>>, category: Category)
    ensures
        count_of(entries, category) <= entries.len(),
    decreases entries.len(),
{
    if entries.len() > 0 {
        lemma_count_bound(entries.drop_last(), category);
    }
}

/// The categories that occur, in the order of their first entries.
pub open spec fn kinds_of(entries: Seq<Arc<LibraryEntry>>) -> Seq<Category>
    decreases entries.len(),
{
    if entries.len() == 0 {
        seq![]
    } else {
        let before = kinds_of(entries.drop_last());
        if before.contains(entries.last().category) {
            before
        } else {
            before.push(entries.last().category)
        }
    }
}

/// The categories that occur are listed once each, and exactly those have
/// entries.
pub proof fn kinds_are_listed_once(entries: Seq<Arc<LibraryEntry>>)
    ensures
        forall|i: int, j: int|
            0 <= i < j < kinds_of(entries).len() ==> #[trigger] kinds_of(entries)[i]
                != #[trigger] kinds_of(entries)[j],
        forall|category: Category| #[trigger]
            kinds_of(entries).contains(category) <==> count_of(entries, category) > 0,
    decreases entries.len(),
{
    if entries.len() > 0 {
        let before = kinds_of(entries.drop_last());
        let last = entries.last().category;
        kinds_are_listed_once(entries.drop_last());
        assert forall|category: Category| #[trigger]
            kinds_of(entries).contains(category) <==> count_of(entries, category) > 0 by {
            assert(before.contains(category) <==> count_of(entries.drop_last(), category) > 0);
            if !before.contains(last) {
                let after = before.push(last);
                assert(after[before.len() as int] == last);
                if before.contains(category) {
                    let i = before.index_of(category);
                    assert(after[i] == category);
                }
            }
        }
    }
}

/// How many recordings each category has, for those that have any, in the
/// order of their first recordings.
pub fn category_counts(entries: &Vec<Arc<LibraryEntry>>) -> (counts: Vec<(Category, usize)>)
    ensures
        counts@.len() == kinds_of(entries@).len(),
        forall|i: int|
            0 <= i < counts@.len() ==> (#[trigger] counts@[i]).0 == kinds_of(entries@)[i]
                && counts@[i].1 == count_of(entries@, counts@[i].0),
{
    let mut counts: Vec<(Category, usize)> = Vec::new();
    let mut i: usize = 0;
    while i < entries.len()
        invariant
            i <= entries@.len(),
            counts@.len() == kinds_of(entries@.take(i as int)).len(),
            forall|j: int|
                0 <= j < counts@.len() ==> (#[trigger] counts@[j]).0 == kinds_of(
                    entries@.take(i as int),
                )[j] && counts@[j].1 == count_of(entries@.take(i as int), counts@[j].0),
        decreases entries@.len() - i,
    {
        let category = entries[i].category;
        let ghost seen = entries@.take(i as int);
        let ghost next = entries@.take(i + 1);
        assert(next.drop_last() =~= seen);
        proof {
            kinds_are_listed_once(seen);
            lemma_count_bound(seen, category);
        }
        let mut at: usize = 0;
        while at < counts.len() && counts[at].0 != category
            invariant
                at <= counts@.len(),
                forall|j: int| 0 <= j < at ==> (#[trigger] counts@[j]).0 != category,
            decreases counts@.len() - at,
        {
            at = at + 1;
        }
        let ghost before = counts@;
        if at < counts.len() {
            assert(kinds_of(seen)[at as int] == category);
            assert(kinds_of(seen).contains(category));
            let count: usize = counts[at].1;
            counts.set(at, (category, count + 1));
            assert forall|j: int| 0 <= j < counts@.len() implies (#[trigger] counts@[j]).0
                == kinds_of(next)[j] && counts@[j].1 == count_of(next, counts@[j].0) by {
                assert(before[j].0 == kinds_of(seen)[j]);
                if j != at {
                    assert(kinds_of(seen)[j] != kinds_of(seen)[at as int]);
                }
            }
        } else {
            assert(!kinds_of(seen).contains(category)) by {
                if kinds_of(seen).contains(category) {
                    let j = kinds_of(seen).index_of(category);
                    assert(counts@[j].0 == category);
                }
            }
            assert(count_of(seen, category) == 0);
            counts.push((category, 1));
            assert forall|j: int| 0 <= j < counts@.len() implies (#[trigger] counts@[j]).0
                == kinds_of(next)[j] && counts@[j].1 == count_of(next, counts@[j].0) by {
                if j < before.len() {
                    assert(before[j].0 == kinds_of(seen)[j]);
                    assert(before[j].0 != category);
                }
            }
        }
        i = i + 1;
    }
    assert(entries@.take(i as int) =~= entries@);
    counts
}

} // verus!
