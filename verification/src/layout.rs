//! The widths of the table columns, by their titles.
use vstd::prelude::*;

use crate::config::{ColumnWidth, LayoutSettings};
use crate::text;
use crate::text::{place_text, Place};

verus! {

/// The width that is kept for a title.
pub open spec fn width_of(widths: Seq<(Seq<char>, i32)>, title: Seq<char>) -> Option<i32>
    decreases widths.len(),
{
    if widths.len() == 0 {
        None
    } else if widths[0].0 == title {
        Some(widths[0].1)
    } else {
        width_of(widths.skip(1), title)
    }
}

/// The titles are in ascending order, and so each of them comes once.
pub open spec fn ascending(widths: Seq<(Seq<char>, i32)>) -> bool {
    forall|i: int, j: int|
        0 <= i < j < widths.len() ==> text::precedes(
            (#[trigger] widths[i]).0,
            (#[trigger] widths[j]).0,
        )
}

/// No title before `at` is the one looked for.
proof fn lemma_width_behind(widths: Seq<(Seq<char>, i32)>, title: Seq<char>, at: int)
    requires
        0 <= at <= widths.len(),
        forall|i: int| 0 <= i < at ==> (#[trigger] widths[i]).0 != title,
    ensures
        width_of(widths, title) == width_of(widths.skip(at), title),
    decreases at,
{
    if at == 0 {
        assert(widths.skip(0) =~= widths);
    } else {
        assert(widths[0].0 != title);
        assert forall|i: int| 0 <= i < at - 1 implies (#[trigger] widths.skip(1)[i]).0
            != title by {
            assert(widths.skip(1)[i] == widths[i + 1]);
        }
        lemma_width_behind(widths.skip(1), title, at - 1);
        assert(widths.skip(1).skip(at - 1) =~= widths.skip(at));
    }
}

/// Lists that agree except for one entry with another title agree on a title.
proof fn lemma_width_elsewhere(
    front: Seq<(Seq<char>, i32)>,
    old_middle: Seq<(Seq<char>, i32)>,
    new_middle: Seq<(Seq<char>, i32)>,
    back: Seq<(Seq<char>, i32)>,
    title: Seq<char>,
)
    requires
        forall|i: int| 0 <= i < old_middle.len() ==> (#[trigger] old_middle[i]).0 != title,
        forall|i: int| 0 <= i < new_middle.len() ==> (#[trigger] new_middle[i]).0 != title,
    ensures
        width_of(front + old_middle + back, title) == width_of(front + new_middle + back, title),
    decreases front.len(),
{
    let old_all = front + old_middle + back;
    let new_all = front + new_middle + back;
    if front.len() == 0 {
        assert forall|i: int| 0 <= i < old_middle.len() implies (#[trigger] old_all[i]).0
            != title by {
            assert(old_all[i] == old_middle[i]);
        }
        assert forall|i: int| 0 <= i < new_middle.len() implies (#[trigger] new_all[i]).0
            != title by {
            assert(new_all[i] == new_middle[i]);
        }
        lemma_width_behind(old_all, title, old_middle.len() as int);
        lemma_width_behind(new_all, title, new_middle.len() as int);
        assert(old_all.skip(old_middle.len() as int) =~= back);
        assert(new_all.skip(new_middle.len() as int) =~= back);
    } else {
        assert(old_all.skip(1) =~= front.skip(1) + old_middle + back);
        assert(new_all.skip(1) =~= front.skip(1) + new_middle + back);
        assert(old_all[0] == new_all[0]);
        lemma_width_elsewhere(front.skip(1), old_middle, new_middle, back, title);
    }
}

impl LayoutSettings {
    /// Each title has one width.
    pub open spec fn wf(self) -> bool {
        ascending(self@.1)
    }

    /// Where a title stands, or would stand.
    fn place_of(&self, title: &str) -> (found: (usize, bool))
        requires
            self.wf(),
        ensures
            found.0 <= self.column_widths@.len(),
            forall|i: int|
                0 <= i < found.0 ==> text::precedes((#[trigger] self.column_widths@[i]).title@, title@),
            forall|i: int|
                found.0 <= i < self.column_widths@.len() ==> !text::precedes(
                    (#[trigger] self.column_widths@[i]).title@,
                    title@,
                ),
            found.1 == (found.0 < self.column_widths@.len() && self.column_widths@[found.0 as int].title@
                == title@),
    {
        let mut i: usize = 0;
        while i < self.column_widths.len()
            invariant
                i <= self.column_widths@.len(),
                self.wf(),
                forall|j: int|
                    0 <= j < i ==> text::precedes(
                        (#[trigger] self.column_widths@[j]).title@,
                        title@,
                    ),
            decreases self.column_widths@.len() - i,
        {
            match place_text(&self.column_widths[i].title, title) {
                Place::Before => {},
                place => {
                    let ghost at = self.column_widths@[i as int].title@;
                    assert forall|j: int| i <= j < self.column_widths@.len() implies !text::precedes(
                        (#[trigger] self.column_widths@[j]).title@,
                        title@,
                    ) by {
                        if j > i {
                            assert(self@.1[i as int].0 == at);
                            assert(self@.1[j].0 == self.column_widths@[j].title@);
                            text::texts_are_ordered(at, self.column_widths@[j].title@, title@);
                        }
                    }
                    return (i, place == Place::Same);
                },
            }
            i = i + 1;
        }
        (i, false)
    }

    /// The width of the column with this title, where the user gave it one.
    pub fn width(&self, title: &str) -> (width: Option<i32>)
        requires
            self.wf(),
        ensures
            width == width_of(self@.1, title@),
    {
        let (at, known) = self.place_of(title);
        proof {
            assert forall|i: int| 0 <= i < at implies (#[trigger] self@.1[i]).0 != title@ by {
                assert(self@.1[i].0 == self.column_widths@[i].title@);
                text::texts_are_ordered(title@, title@, title@);
            }
            lemma_width_behind(self@.1, title@, at as int);
            if known {
                assert(self@.1.skip(at as int)[0] == self@.1[at as int]);
            } else {
                assert forall|i: int| 0 <= i < self@.1.len() implies (#[trigger] self@.1[i]).0
                    != title@ by {
                    if at < i {
                        assert(self@.1[at as int].0 == self.column_widths@[at as int].title@);
                        assert(self@.1[i].0 == self.column_widths@[i].title@);
                        text::texts_are_ordered(self@.1[at as int].0, title@, title@);
                        assert(text::precedes(self@.1[at as int].0, self@.1[i].0));
                    } else if at == i {
                        assert(self@.1[i].0 == self.column_widths@[i].title@);
                    }
                }
                lemma_width_behind(self@.1, title@, self@.1.len() as int);
                assert(self@.1.skip(self@.1.len() as int).len() == 0);
            }
        }
        if known {
            Some(self.column_widths[at].width)
        } else {
            None
        }
    }

    /// The user gave the column with this title a width.
    pub fn set_width(&mut self, title: &str, width: i32)
        requires
            old(self).wf(),
        ensures
            final(self).wf(),
            final(self).player_split == old(self).player_split,
            width_of(final(self)@.1, title@) == Some(width),
            forall|other: Seq<char>|
                other != title@ ==> #[trigger] width_of(final(self)@.1, other) == width_of(
                    old(self)@.1,
                    other,
                ),
    {
        let (at, known) = self.place_of(title);
        let ghost all = self@.1;
        let ghost front = all.take(at as int);
        let ghost fresh = (title@, width);
        let entry = ColumnWidth { title: title.to_owned(), width };
        let ghost mut dropped: Seq<(Seq<char>, i32)> = seq![];
        if known {
            proof {
                dropped = seq![all[at as int]];
            }
            self.column_widths.set(at, entry);
        } else {
            self.column_widths.insert(at, entry);
        }
        let ghost back = all.skip(at + dropped.len());
        proof {
            assert(all =~= front + dropped + back);
            assert(self@.1 =~= front + seq![fresh] + back);
            assert forall|i: int, j: int| 0 <= i < j < self@.1.len() implies text::precedes(
                (#[trigger] self@.1[i]).0,
                (#[trigger] self@.1[j]).0,
            ) by {
                let shift = dropped.len() - 1;
                let old_i = if i <= at {
                    i
                } else {
                    i + shift
                };
                let old_j = if j <= at {
                    j
                } else {
                    j + shift
                };
                if i < at {
                    assert(self@.1[i] == all[i]);
                    assert(text::precedes(old(self).column_widths@[i].title@, title@));
                } else if i > at {
                    assert(self@.1[i] == all[old_i]);
                }
                if j < at {
                    assert(self@.1[j] == all[j]);
                } else if j > at {
                    assert(self@.1[j] == all[old_j]);
                    if i == at {
                        if known {
                            assert(text::precedes(all[at as int].0, all[old_j].0));
                        } else {
                            assert(!text::precedes(old(self).column_widths@[old_j].title@, title@));
                            let next = old(self).column_widths@[at as int].title@;
                            assert(all[at as int].0 == next);
                            assert(next != title@);
                            text::texts_are_ordered(next, title@, title@);
                            if old_j > at {
                                assert(text::precedes(all[at as int].0, all[old_j].0));
                                text::texts_are_ordered(title@, next, all[old_j].0);
                            }
                        }
                    }
                }
            }
            assert forall|i: int| 0 <= i < at implies (#[trigger] self@.1[i]).0 != title@ by {
                assert(self@.1[i] == all[i]);
                assert(text::precedes(old(self).column_widths@[i].title@, title@));
                text::texts_are_ordered(title@, title@, title@);
            }
            lemma_width_behind(self@.1, title@, at as int);
            assert(self@.1.skip(at as int)[0] == fresh);
            assert forall|other: Seq<char>| other != title@ implies #[trigger] width_of(
                self@.1,
                other,
            ) == width_of(all, other) by {
                lemma_width_elsewhere(front, dropped, seq![fresh], back, other);
            }
        }
    }
}

} // verus!
