//! What the operations on texts and paths keep and what they take away.
use vstd::prelude::*;

use crate::text;

verus! {

/// Trimming leaves what stands between the outermost characters that are not
/// white space, and takes away nothing but white space.
pub proof fn trimming_takes_white_space_only(value: Seq<char>)
    ensures
        text::trim(value).len() > 0 ==> !text::is_space(text::trim(value)[0]) && !text::is_space(
            text::trim(value).last(),
        ),
        exists|low: int, high: int| #[trigger] is_left(value, low, high, text::trim(value)),
        text::trim(value).len() == 0 <==> forall|i: int|
            0 <= i < value.len() ==> text::is_space(#[trigger] value[i]),
{
    let front = text::trim_start(value);
    lemma_trim_start(value);
    lemma_trim_end(front);
    let low = value.len() - front.len();
    let kept = text::trim_end(front);
    let high = low + kept.len();
    assert(front =~= value.skip(low));
    assert forall|i: int| 0 <= i < low || high <= i < value.len() implies text::is_space(
        #[trigger] value[i],
    ) by {
        if i >= high {
            assert(front[i - low] == value[i]);
        }
    }
    assert(value.subrange(low, high) =~= kept);
    assert(is_left(value, low, high, text::trim(value)));
    if kept.len() > 0 {
        assert(kept[0] == front[0]);
        assert(value[low] == front[0]);
    }
}

/// `kept` is what lies between `low` and `high`, with white space round it.
pub open spec fn is_left(value: Seq<char>, low: int, high: int, kept: Seq<char>) -> bool {
    &&& 0 <= low <= high <= value.len()
    &&& kept == value.subrange(low, high)
    &&& forall|i: int|
        0 <= i < low || high <= i < value.len() ==> text::is_space(#[trigger] value[i])
}

proof fn lemma_trim_start(value: Seq<char>)
    ensures
        text::trim_start(value).len() <= value.len(),
        text::trim_start(value) == value.skip(value.len() - text::trim_start(value).len()),
        forall|i: int|
            0 <= i < value.len() - text::trim_start(value).len() ==> text::is_space(
                #[trigger] value[i],
            ),
        text::trim_start(value).len() > 0 ==> !text::is_space(text::trim_start(value)[0]),
    decreases value.len(),
{
    if value.len() > 0 && text::is_space(value[0]) {
        let rest = value.skip(1);
        lemma_trim_start(rest);
        assert(value.skip(value.len() - text::trim_start(value).len()) =~= rest.skip(
            rest.len() - text::trim_start(value).len(),
        ));
        assert forall|i: int|
            0 <= i < value.len() - text::trim_start(value).len() implies text::is_space(
            #[trigger] value[i],
        ) by {
            if i > 0 {
                assert(rest[i - 1] == value[i]);
            }
        }
    } else {
        assert(value.skip(0) =~= value);
    }
}

proof fn lemma_trim_end(value: Seq<char>)
    ensures
        text::trim_end(value).len() <= value.len(),
        text::trim_end(value) == value.take(text::trim_end(value).len() as int),
        forall|i: int|
            text::trim_end(value).len() <= i < value.len() ==> text::is_space(#[trigger] value[i]),
        text::trim_end(value).len() > 0 ==> !text::is_space(text::trim_end(value).last()),
    decreases value.len(),
{
    if value.len() > 0 && text::is_space(value.last()) {
        let front = value.drop_last();
        lemma_trim_end(front);
        assert(value.take(text::trim_end(value).len() as int) =~= front.take(
            text::trim_end(value).len() as int,
        ));
        assert forall|i: int|
            text::trim_end(value).len() <= i < value.len() implies text::is_space(
            #[trigger] value[i],
        ) by {
            if i < front.len() {
                assert(front[i] == value[i]);
            }
        }
    } else {
        assert(value.take(value.len() as int) =~= value);
    }
}

/// Blanks, tabs and line ends are white space; letters, digits and signs are
/// not.
pub proof fn letters_are_no_white_space(c: char)
    ensures
        c == ' ' || c == '\t' || c == '\n' || c == '\r' ==> text::is_space(c),
        33 <= c as int <= 126 ==> !text::is_space(c),
{
}

/// An ending that was put on comes off again, and a text without it stays.
pub proof fn endings_come_off(value: Seq<char>, ending: Seq<char>)
    ensures
        text::without_suffix(value + ending, ending) == value,
        text::has_suffix(value + ending, ending),
        !text::has_suffix(value, ending) ==> text::without_suffix(value, ending) == value,
        text::has_suffix(value, ending) ==> text::without_suffix(value, ending) + ending == value,
{
    let whole = value + ending;
    assert(whole.skip(whole.len() - ending.len()) =~= ending);
    assert(whole.take(whole.len() - ending.len()) =~= value);
    if text::has_suffix(value, ending) {
        let cut = value.len() - ending.len();
        assert(value =~= value.take(cut) + value.skip(cut));
    }
}

/// Characters at the end are taken away all or not at all.
pub proof fn trailing_characters_come_off(value: Seq<char>, c: char)
    ensures
        text::trim_end_char(value, c).len() > 0 ==> text::trim_end_char(value, c).last() != c,
        text::trim_end_char(value, c).len() <= value.len(),
        value.take(text::trim_end_char(value, c).len() as int) == text::trim_end_char(value, c),
        forall|i: int|
            text::trim_end_char(value, c).len() <= i < value.len() ==> #[trigger] value[i] == c,
    decreases value.len(),
{
    if value.len() > 0 && value.last() == c {
        let front = value.drop_last();
        trailing_characters_come_off(front, c);
        assert(value.take(text::trim_end_char(value, c).len() as int) =~= front.take(
            text::trim_end_char(value, c).len() as int,
        ));
        assert forall|i: int|
            text::trim_end_char(value, c).len() <= i < value.len() implies #[trigger] value[i]
            == c by {
            if i < front.len() {
                assert(front[i] == value[i]);
            }
        }
    } else {
        assert(value.take(value.len() as int) =~= value);
    }
}

/// Replacing a character works piece by piece, and leaves every other one
/// where it was.
pub proof fn characters_are_replaced_where_they_stand(
    front: Seq<char>,
    back: Seq<char>,
    c: char,
    by: Seq<char>,
)
    ensures
        text::replace_char(front + back, c, by) == text::replace_char(front, c, by)
            + text::replace_char(back, c, by),
        text::replace_char(seq![c], c, by) == by,
        forall|other: char|
            other != c ==> #[trigger] text::replace_char(seq![other], c, by) == seq![other],
    decreases back.len(),
{
    assert forall|other: char| other != c implies #[trigger] text::replace_char(seq![other], c, by)
        == seq![other] by {
        reveal_with_fuel(text::replace_char, 2);
        assert(seq![other].drop_last() =~= Seq::<char>::empty());
        assert(text::replace_char(seq![other], c, by) =~= seq![other]);
    }
    assert(text::replace_char(seq![c], c, by) =~= by) by {
        reveal_with_fuel(text::replace_char, 2);
        assert(seq![c].drop_last() =~= Seq::<char>::empty());
    }
    if back.len() == 0 {
        assert(front + back =~= front);
        assert(text::replace_char(back, c, by).len() == 0);
        assert(text::replace_char(front, c, by) + text::replace_char(back, c, by)
            =~= text::replace_char(front, c, by));
    } else {
        characters_are_replaced_where_they_stand(front, back.drop_last(), c, by);
        assert((front + back).drop_last() =~= front + back.drop_last());
        assert((front + back).last() == back.last());
        assert(text::replace_char(front + back, c, by) =~= text::replace_char(front, c, by)
            + text::replace_char(back, c, by));
    }
}

/// Several texts are put together in their order, with the separator between
/// each two and nowhere else.
pub proof fn separators_stand_between(list: Seq<Seq<char>>, last: Seq<char>, between: Seq<char>)
    ensures
        text::interleaved(seq![], between).len() == 0,
        text::interleaved(seq![last], between) == last,
        list.len() > 0 ==> text::interleaved(list.push(last), between) == text::interleaved(
            list,
            between,
        ) + between + last,
{
    if list.len() > 0 {
        assert(list.push(last).drop_last() =~= list);
    }
}

/// A padded number reads back, and is as wide as asked for unless it is
/// longer.
pub proof fn padding_changes_no_number(n: nat, width: nat)
    ensures
        text::digits_value(text::padded(n, width as int)) == n,
        text::padded(n, width as int).len() >= width,
        text::decimal(n).len() >= width ==> text::padded(n, width as int) == text::decimal(n),
        text::decimal(n).len() <= width ==> text::padded(n, width as int).len() == width,
        forall|i: int|
            0 <= i < text::padded(n, width as int).len() ==> text::is_digit(
                #[trigger] text::padded(n, width as int)[i],
            ),
{
    text::numbers_read_back(n);
    let count = width - text::decimal(n).len();
    lemma_leading_zeros(text::zeros(count).len(), text::decimal(n));
    assert(text::zeros(count) =~= Seq::new(text::zeros(count).len(), |i: int| '0'));
    if text::decimal(n).len() >= width {
        assert(text::padded(n, width as int) =~= text::decimal(n));
    }
}

proof fn lemma_leading_zeros(count: nat, digits: Seq<char>)
    ensures
        text::digits_value(Seq::new(count, |i: int| '0') + digits) == text::digits_value(digits),
    decreases digits.len(), count,
{
    let zeros = Seq::new(count, |i: int| '0');
    let all = zeros + digits;
    if digits.len() > 0 {
        lemma_leading_zeros(count, digits.drop_last());
        assert(all.drop_last() =~= zeros + digits.drop_last());
        assert(all.last() == digits.last());
    } else if count > 0 {
        let fewer = Seq::new((count - 1) as nat, |i: int| '0');
        lemma_leading_zeros((count - 1) as nat, digits);
        assert(all.drop_last() =~= fewer + digits);
        assert(all.last() == '0');
    } else {
        assert(all =~= digits);
    }
}

/// A number that was written down is parsed as itself, with a plus sign
/// before it or without.
pub proof fn written_numbers_are_parsed(n: nat)
    requires
        n <= u64::MAX,
    ensures
        text::parse_number(text::decimal(n)) == Some(n),
        text::parse_number(seq!['+'] + text::decimal(n)) == Some(n),
{
    text::numbers_read_back(n);
    let plain = text::decimal(n);
    assert(text::is_digit(plain[0]));
    assert(text::without_plus(plain) == plain);
    let signed = seq!['+'] + plain;
    assert(signed.skip(1) =~= plain);
}

/// Negative numbers carry a minus sign and others none.
pub proof fn negative_numbers_carry_a_sign(n: int)
    ensures
        n < 0 ==> text::signed_decimal(n)[0] == '-' && text::digits_value(
            text::signed_decimal(n).skip(1),
        ) == -n,
        n >= 0 ==> text::is_digit(text::signed_decimal(n)[0]) && text::digits_value(
            text::signed_decimal(n),
        ) == n,
{
    if n < 0 {
        text::numbers_read_back((-n) as nat);
        assert(text::signed_decimal(n).skip(1) =~= text::decimal((-n) as nat));
    } else {
        text::numbers_read_back(n as nat);
        assert(text::is_digit(text::decimal(n as nat)[0]));
    }
}

proof fn lemma_no_separator(name: Seq<char>, end: int)
    requires
        !name.contains('/'),
        0 <= end <= name.len(),
    ensures
        text::after_last('/', name, end) == 0,
    decreases end,
{
    if end > 0 {
        assert(name.contains(name[end - 1]));
        lemma_no_separator(name, end - 1);
    }
}

proof fn lemma_last_separator(head: Seq<char>, name: Seq<char>, end: int)
    requires
        !name.contains('/'),
        head.len() == 0 || head.last() == '/',
        head.len() <= end <= head.len() + name.len(),
    ensures
        text::after_last('/', head + name, end) == head.len(),
    decreases end,
{
    let all = head + name;
    if end > head.len() {
        assert(all[end - 1] == name[end - 1 - head.len()]);
        assert(name.contains(name[end - 1 - head.len()]));
        lemma_last_separator(head, name, end - 1);
    } else if end > 0 {
        assert(all[end - 1] == head.last());
    }
}

/// A file that was put in a directory has its name, and lies in that
/// directory.
pub proof fn files_lie_in_their_directory(directory: Seq<char>, name: Seq<char>)
    requires
        name.len() > 0,
        !name.contains('/'),
        name != seq!['.'],
        name != seq!['.', '.'],
    ensures
        text::file_name(text::joined(directory, name)) == Some(name),
        text::parent(text::joined(directory, name)) == Some(text::plain_path(directory)),
{
    let path = text::joined(directory, name);
    let head = if directory.len() == 0 || directory.last() == '/' {
        directory
    } else {
        directory.push('/')
    };
    assert(path =~= head + name);
    lemma_last_separator(head, name, path.len() as int);
    assert(path.skip(head.len() as int) =~= name);
    assert(text::path_end(path) == path.len());
    let plain = text::plain_path(path);
    assert(plain =~= path);
    assert(path.take(head.len() as int) =~= head);
    if head != directory {
        assert(head.last() == '/');
        assert(text::after_last('/', head, head.len() as int) == head.len());
        assert(head.skip(head.len() as int).len() == 0);
        assert(head.take(head.len() - 1) =~= directory);
        assert(text::path_end(head) == text::path_end(directory));
        lemma_path_end(directory);
        assert(head.take(text::path_end(directory)) =~= directory.take(text::path_end(directory)));
    }
}

proof fn lemma_path_end(path: Seq<char>)
    ensures
        0 <= text::path_end(path) <= path.len(),
    decreases path.len(),
{
    let start = text::after_last('/', path, path.len() as int);
    text::lemma_after_last('/', path, path.len() as int);
    if start > 1 {
        lemma_path_end(path.take(start - 1));
    }
}

} // verus!
