//! What the search entry suggests: the chips of the rows on show, each label
//! once, and when the list of them is open.
use vstd::prelude::*;

use crate::text;
use crate::text::same_text;

verus! {

/// The label has not occurred before this place.
pub open spec fn is_first(labels: Seq<Seq<char>>, place: int) -> bool {
    &&& 0 <= place < labels.len()
    &&& forall|j: int| 0 <= j < place ==> #[trigger] labels[j] != labels[place]
}

/// The places are those at which a label occurs for the first time, in order.
pub open spec fn first_places(labels: Seq<Seq<char>>, places: Seq<usize>) -> bool {
    &&& forall|i: int, j: int| 0 <= i < j < places.len() ==> places[i] < places[j]
    &&& forall|i: int| 0 <= i < places.len() ==> is_first(labels, #[trigger] places[i] as int)
    &&& forall|place: int| #[trigger]
        is_first(labels, place) ==> exists|i: int|
            0 <= i < places.len() && #[trigger] places[i] == place
}

fn occurs_before(labels: &Vec<String>, place: usize) -> (found: bool)
    requires
        place < labels@.len(),
    ensures
        found == !is_first(text::texts(labels@), place as int),
{
    let ghost all = text::texts(labels@);
    let mut j: usize = 0;
    while j < place
        invariant
            j <= place < labels@.len(),
            all == text::texts(labels@),
            forall|k: int| 0 <= k < j ==> #[trigger] all[k] != all[place as int],
        decreases place - j,
    {
        if same_text(&labels[j], &labels[place]) {
            assert(all[j as int] == all[place as int]);
            return true;
        }
        j = j + 1;
    }
    false
}

/// Suggestions come from the rows on show: of the chips with one label the
/// first is suggested.
pub fn suggested(labels: &Vec<String>) -> (places: Vec<usize>)
    ensures
        first_places(text::texts(labels@), places@),
{
    let ghost all = text::texts(labels@);
    let mut places: Vec<usize> = Vec::new();
    let mut i: usize = 0;
    while i < labels.len()
        invariant
            i <= labels@.len(),
            all == text::texts(labels@),
            forall|a: int, b: int| 0 <= a < b < places@.len() ==> places@[a] < places@[b],
            forall|a: int| 0 <= a < places@.len() ==> #[trigger] places@[a] < i,
            forall|a: int| 0 <= a < places@.len() ==> is_first(all, #[trigger] places@[a] as int),
            forall|place: int|
                place < i && #[trigger] is_first(all, place) ==> exists|a: int|
                    0 <= a < places@.len() && #[trigger] places@[a] == place,
        decreases labels@.len() - i,
    {
        let ghost before = places@;
        if !occurs_before(labels, i) {
            places.push(i);
        }
        assert forall|place: int| place < i + 1 && #[trigger] is_first(all, place) implies exists|
            a: int,
        |
            0 <= a < places@.len() && #[trigger] places@[a] == place by {
            if place < i {
                let a = choose|a: int| 0 <= a < before.len() && #[trigger] before[a] == place;
                assert(places@[a] == place);
            } else {
                assert(places@[before.len() as int] == place);
            }
        }
        i = i + 1;
    }
    places
}

/// One of the places has this label.
pub open spec fn suggests(labels: Seq<Seq<char>>, places: Seq<usize>, label: Seq<char>) -> bool {
    exists|i: int| 0 <= i < places.len() && labels[#[trigger] places[i] as int] == label
}

/// No two suggestions have one label, and every label is suggested.
pub proof fn each_label_is_suggested_once(labels: Seq<Seq<char>>, places: Seq<usize>)
    requires
        first_places(labels, places),
    ensures
        forall|i: int, j: int|
            0 <= i < places.len() && 0 <= j < places.len() && i != j
                ==> labels[#[trigger] places[i] as int] != labels[#[trigger] places[j] as int],
        forall|place: int|
            0 <= place < labels.len() ==> suggests(labels, places, #[trigger] labels[place]),
{
    assert forall|i: int, j: int|
        0 <= i < places.len() && 0 <= j < places.len() && i != j implies labels[#[trigger] places[i] as int]
        != labels[#[trigger] places[j] as int] by {
        if i < j {
            assert(is_first(labels, places[j] as int));
        } else {
            assert(is_first(labels, places[i] as int));
        }
    }
    assert forall|place: int| 0 <= place < labels.len() implies suggests(
        labels,
        places,
        #[trigger] labels[place],
    ) by {
        let first = lemma_first(labels, place);
        let i = choose|i: int| 0 <= i < places.len() && #[trigger] places[i] == first;
        assert(labels[places[i] as int] == labels[place]);
    }
}

/// Where a label occurs for the first time.
proof fn lemma_first(labels: Seq<Seq<char>>, place: int) -> (first: int)
    requires
        0 <= place < labels.len(),
    ensures
        is_first(labels, first),
        labels[first] == labels[place],
    decreases place,
{
    if is_first(labels, place) {
        place
    } else {
        let earlier = choose|j: int| 0 <= j < place && #[trigger] labels[j] == labels[place];
        lemma_first(labels, earlier)
    }
}

/// What happens to the list of suggestions.
#[derive(Clone, Copy, Debug, PartialEq, Eq, Structural)]
pub enum SuggestionList {
    Open,
    Close,
    /// It stays as it is.
    Keep,
}

/// What becomes of the list.
pub open spec fn list_state(active: bool, focused: bool, suggestions: u32) -> SuggestionList {
    if !active || suggestions == 0 {
        SuggestionList::Close
    } else if focused {
        SuggestionList::Open
    } else {
        SuggestionList::Keep
    }
}

/// The list is open while the search entry has the focus and there is
/// something to suggest.
pub fn suggestion_list(active: bool, focused: bool, suggestions: u32) -> (list: SuggestionList)
    ensures
        list == list_state(active, focused, suggestions),
{
    if !active || suggestions == 0 {
        SuggestionList::Close
    } else if focused {
        SuggestionList::Open
    } else {
        SuggestionList::Keep
    }
}

} // verus!
