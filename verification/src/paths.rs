//! Paths by their components: separators that are doubled or trail, and `.`
//! components behind the first, make no other path.
use vstd::prelude::*;

use crate::text;
use crate::text::{chars_of, find_between, same_text, text_between};

verus! {

/// A component that does not count: an empty one, and a `.` that does not
/// lead the path.
pub open spec fn is_idle(piece: Seq<char>, leads: bool) -> bool {
    piece.len() == 0 || (piece == seq!['.'] && !leads)
}

/// The components of a path, or of the rest of one, from its front.
pub open spec fn components(path: Seq<char>, leads: bool) -> Seq<Seq<char>>
    decreases path.len(),
{
    if path.len() == 0 {
        seq![]
    } else {
        let at = text::first_index(path, '/');
        let piece = path.take(at);
        let behind = if 0 <= at < path.len() {
            components(path.skip(at + 1), false)
        } else {
            seq![]
        };
        if is_idle(piece, leads) {
            behind
        } else {
            seq![piece] + behind
        }
    }
}

/// Two texts name one path: both start at the root or neither does, and their
/// components are the same.
pub open spec fn same_path(a: Seq<char>, b: Seq<char>) -> bool {
    &&& text::is_absolute(a) == text::is_absolute(b)
    &&& components(a, true) == components(b, true)
}

/// No separator stands before the first one.
proof fn lemma_first_separator(path: Seq<char>)
    ensures
        ({
            let at = text::first_index(path, '/');
            &&& 0 <= at <= path.len()
            &&& forall|i: int| 0 <= i < at ==> #[trigger] path[i] != '/'
            &&& at < path.len() ==> path[at] == '/'
        }),
    decreases path.len(),
{
    if path.len() > 0 && path[0] != '/' {
        let rest = path.skip(1);
        lemma_first_separator(rest);
        let at = text::first_index(path, '/');
        assert forall|i: int| 0 <= i < at implies #[trigger] path[i] != '/' by {
            if i > 0 {
                assert(rest[i - 1] == path[i]);
            }
        }
    }
}

/// Only the empty text names no path at all.
pub proof fn only_empty_paths_are_nothing(path: Seq<char>)
    ensures
        !text::is_absolute(path) && components(path, true).len() == 0 <==> path.len() == 0,
{
    lemma_first_separator(path);
}

/// What separates a path from more of it: its components come first.
proof fn lemma_more_components(path: Seq<char>, more: Seq<char>, leads: bool)
    requires
        path.len() > 0,
    ensures
        components(path + seq!['/'] + more, leads) == components(path, leads) + components(
            more,
            false,
        ),
    decreases path.len(),
{
    let all = path + seq!['/'] + more;
    let at = text::first_index(path, '/');
    lemma_first_separator(path);
    text::lemma_first_index(all, '/', at);
    let piece = path.take(at);
    assert(all.take(at) =~= piece);
    let rest = components(more, false);
    if at < path.len() {
        let behind = path.skip(at + 1);
        assert(all.skip(at + 1) =~= behind + seq!['/'] + more);
        if behind.len() > 0 {
            lemma_more_components(behind, more, false);
        } else {
            lemma_leading_separator(more);
            assert(behind + seq!['/'] + more =~= seq!['/'] + more);
        }
        assert(seq![piece] + (components(behind, false) + rest) =~= seq![piece] + components(
            behind,
            false,
        ) + rest);
        assert(components(behind, false) + rest =~= components(all.skip(at + 1), false));
    } else {
        assert(all.skip(at + 1) =~= more);
        assert(seq![] + rest =~= rest);
        assert(seq![piece] + seq![] + rest =~= seq![piece] + rest);
    }
}

/// A separator in front of the rest of a path adds no component.
proof fn lemma_leading_separator(rest: Seq<char>)
    ensures
        components(seq!['/'] + rest, false) == components(rest, false),
{
    let all = seq!['/'] + rest;
    assert(text::first_index(all, '/') == 0);
    assert(all.take(0).len() == 0);
    assert(all.skip(1) =~= rest);
}

/// A trailing separator, and a trailing `.`, name the path without them.
pub proof fn trailing_separators_name_the_same_path(path: Seq<char>)
    requires
        path.len() > 0,
    ensures
        same_path(path.push('/'), path),
        same_path(path.push('/').push('.'), path),
{
    let nothing = Seq::<char>::empty();
    let dot = seq!['.'];
    lemma_more_components(path, nothing, true);
    lemma_more_components(path, dot, true);
    assert(path + seq!['/'] + nothing =~= path.push('/'));
    assert(path + seq!['/'] + dot =~= path.push('/').push('.'));
    text::lemma_first_index(dot, '/', 1);
    assert(dot.take(1) =~= dot);
    assert(components(dot, false) =~= seq![]);
    assert(components(path, true) + seq![] =~= components(path, true));
}

/// A doubled separator, and a `.` between two others, name the path without
/// them.
pub proof fn doubled_separators_name_the_same_path(path: Seq<char>, more: Seq<char>)
    requires
        path.len() > 0,
    ensures
        same_path(path + seq!['/', '/'] + more, path + seq!['/'] + more),
        same_path(path + seq!['/', '.', '/'] + more, path + seq!['/'] + more),
{
    let apart = seq!['/'] + more;
    let dotted = seq!['.', '/'] + more;
    lemma_more_components(path, more, true);
    lemma_more_components(path, apart, true);
    lemma_more_components(path, dotted, true);
    assert(path + seq!['/', '/'] + more =~= path + seq!['/'] + apart);
    assert(path + seq!['/', '.', '/'] + more =~= path + seq!['/'] + dotted);
    lemma_leading_separator(more);
    text::lemma_first_index(dotted, '/', 1);
    assert(dotted.take(1) =~= seq!['.']);
    assert(dotted.skip(2) =~= more);
}

/// The components of a path, each as a text.
fn components_of(path: &str) -> (pieces: Vec<String>)
    ensures
        text::texts(pieces@) == components(path@, true),
{
    let chars = chars_of(path);
    let mut pieces: Vec<String> = Vec::new();
    let mut from: usize = 0;
    assert(chars@.skip(0) =~= path@);
    assert(text::texts(pieces@) + components(path@, true) =~= components(path@, true));
    while from < chars.len()
        invariant
            from <= chars@.len(),
            chars@ == path@,
            components(path@, true) == text::texts(pieces@) + components(
                chars@.skip(from as int),
                from == 0,
            ),
        decreases chars@.len() - from,
    {
        let ghost rest = chars@.skip(from as int);
        let ghost found = text::texts(pieces@);
        let at: usize = find_between(&chars, from, chars.len(), '/');
        assert(chars@.subrange(from as int, chars@.len() as int) =~= rest);
        assert(rest.take(at - from) =~= chars@.subrange(from as int, at as int));
        let dot = at - from == 1 && chars[from] == '.';
        let ghost piece = chars@.subrange(from as int, at as int);
        assert(dot == (piece == seq!['.'])) by {
            if dot {
                assert(piece =~= seq!['.']);
            } else if piece == seq!['.'] {
                assert(piece[0] == '.');
            }
        }
        if at > from && (!dot || from == 0) {
            pieces.push(text_between(&chars, from, at));
            assert(text::texts(pieces@) =~= found.push(piece));
        }
        if at == chars.len() {
            assert(components(path@, true) =~= text::texts(pieces@));
            return pieces;
        }
        assert(rest.skip(at - from + 1) =~= chars@.skip(at + 1));
        from = at + 1;
        assert(components(path@, true) =~= text::texts(pieces@) + components(
            chars@.skip(from as int),
            false,
        ));
    }
    assert(components(path@, true) =~= text::texts(pieces@));
    pieces
}

/// Whether two texts name one path, as `Path` compares them.
pub fn name_one_path(a: &str, b: &str) -> (same: bool)
    ensures
        same == same_path(a@, b@),
{
    if text::is_absolute_path(a) != text::is_absolute_path(b) {
        return false;
    }
    let left = components_of(a);
    let right = components_of(b);
    if left.len() != right.len() {
        assert(text::texts(left@).len() != text::texts(right@).len());
        return false;
    }
    let mut i: usize = 0;
    while i < left.len()
        invariant
            i <= left@.len() == right@.len(),
            text::texts(left@) == components(a@, true),
            text::texts(right@) == components(b@, true),
            forall|j: int| 0 <= j < i ==> (#[trigger] left@[j])@ == right@[j]@,
        decreases left@.len() - i,
    {
        if !same_text(&left[i], &right[i]) {
            assert(text::texts(left@)[i as int] != text::texts(right@)[i as int]);
            return false;
        }
        i = i + 1;
    }
    assert(text::texts(left@) =~= text::texts(right@));
    true
}

} // verus!
