//! Text in the forms the recorder writes and reads: numbers in decimal,
//! trimming, splitting and the handful of path operations it needs.
//!
//! Every function here is stated over the characters of its arguments.
use vstd::prelude::*;

verus! {

/// `String::push` appends exactly the one character.
pub assume_specification[ std::string::String::push ](target: &mut String, ch: char)
    ensures
        final(target)@ == old(target)@.push(ch),
;

/// The decimal digit `d`, for `d` below ten.
pub open spec fn digit(d: nat) -> char {
    (48 + d) as char
}

/// `n` in decimal without leading zeros, as `{}` prints it.
pub open spec fn decimal(n: nat) -> Seq<char>
    decreases n,
{
    if n < 10 {
        seq![digit(n)]
    } else {
        decimal(n / 10).push(digit(n % 10))
    }
}

/// A signed number in decimal, as `{}` prints it.
pub open spec fn signed_decimal(n: int) -> Seq<char> {
    if n < 0 {
        seq!['-'] + decimal((-n) as nat)
    } else {
        decimal(n as nat)
    }
}

/// `count` zeros.
pub open spec fn zeros(count: int) -> Seq<char> {
    Seq::new(if count > 0 { count as nat } else { 0 }, |i: int| '0')
}

/// `n` in decimal with leading zeros up to `width` characters, as
/// `{:0width}` prints it.
pub open spec fn padded(n: nat, width: int) -> Seq<char> {
    zeros(width - decimal(n).len()) + decimal(n)
}

/// The signed form of `padded`: the sign counts towards the width.
pub open spec fn signed_padded(n: int, width: int) -> Seq<char> {
    if n < 0 {
        seq!['-'] + padded((-n) as nat, width - 1)
    } else {
        padded(n as nat, width)
    }
}

/// The character of a decimal digit.
pub fn digit_char(d: u8) -> (c: char)
    requires
        d < 10,
    ensures
        c == digit(d as nat),
{
    (48u8 + d) as char
}

/// Append `n` in decimal.
pub fn push_decimal(out: &mut String, n: u64)
    ensures
        final(out)@ == old(out)@ + decimal(n as nat),
    decreases n,
{
    if n >= 10 {
        push_decimal(out, n / 10);
    }
    out.push(digit_char((n % 10) as u8));
}

/// `n` in decimal.
pub fn decimal_text(n: u64) -> (text: String)
    ensures
        text@ == decimal(n as nat),
{
    let mut out = String::new();
    push_decimal(&mut out, n);
    out
}

/// Append a signed number in decimal.
pub fn push_signed(out: &mut String, n: i64)
    ensures
        final(out)@ == old(out)@ + signed_decimal(n as int),
{
    if n < 0 {
        out.push('-');
        push_decimal(out, (-(n as i128)) as u64);
    } else {
        push_decimal(out, n as u64);
    }
}

/// How many characters `decimal(n)` has.
fn decimal_len(n: u64) -> (len: u64)
    ensures
        len == decimal(n as nat).len(),
        1 <= len <= 1 + n,
    decreases n,
{
    if n < 10 {
        1
    } else {
        decimal_len(n / 10) + 1
    }
}

/// Append `n` in decimal with leading zeros up to `width` characters.
pub fn push_padded(out: &mut String, n: u64, width: u64)
    ensures
        final(out)@ == old(out)@ + padded(n as nat, width as int),
{
    let len: u64 = decimal_len(n);
    let ghost start = out@;
    let mut i: u64 = len;
    while i < width
        invariant
            len <= i,
            i <= width || i == len,
            out@ == start + zeros(i - len),
        decreases width - i,
    {
        out.push('0');
        i = i + 1;
        assert(out@ =~= start + zeros(i - len));
    }
    push_decimal(out, n);
    assert(zeros(i - len) =~= zeros(width - len));
}

/// Append a signed number with leading zeros up to `width` characters.
pub fn push_signed_padded(out: &mut String, n: i64, width: u64)
    requires
        width >= 1,
    ensures
        final(out)@ == old(out)@ + signed_padded(n as int, width as int),
{
    if n < 0 {
        out.push('-');
        let magnitude: u64 = (-(n as i128)) as u64;
        push_padded(out, magnitude, width - 1);
    } else {
        push_padded(out, n as u64, width);
    }
}

/// The characters of `value`, one by one.
pub fn chars_of(value: &str) -> (chars: Vec<char>)
    ensures
        chars@ == value@,
{
    let mut chars: Vec<char> = Vec::new();
    for c in it: value.chars()
        invariant
            it.seq() == value@,
            chars@ == value@.take(it.index()),
    {
        assert(value@.take(it.index() + 1) =~= value@.take(it.index()).push(c));
        chars.push(c);
    }
    assert(value@.take(value@.len() as int) =~= value@);
    chars
}

/// The text made of the characters from `from` up to `to`.
pub fn text_between(chars: &Vec<char>, from: usize, to: usize) -> (out: String)
    requires
        from <= to <= chars@.len(),
    ensures
        out@ == chars@.subrange(from as int, to as int),
{
    let mut out = String::new();
    let mut i: usize = from;
    while i < to
        invariant
            from <= i <= to <= chars@.len(),
            out@ == chars@.subrange(from as int, i as int),
        decreases to - i,
    {
        out.push(chars[i]);
        i = i + 1;
        assert(chars@.subrange(from as int, i as int) =~= chars@.subrange(
            from as int,
            i - 1,
        ).push(chars@[i - 1]));
    }
    out
}

/// Whether the two texts have the same characters.
pub fn same_text(a: &str, b: &str) -> (same: bool)
    ensures
        same == (a@ == b@),
{
    let left = chars_of(a);
    let right = chars_of(b);
    if left.len() != right.len() {
        return false;
    }
    let mut i: usize = 0;
    while i < left.len()
        invariant
            i <= left@.len() == right@.len(),
            forall|j: int| 0 <= j < i ==> left@[j] == right@[j],
            left@ == a@,
            right@ == b@,
        decreases left@.len() - i,
    {
        if left[i] != right[i] {
            return false;
        }
        i = i + 1;
    }
    assert(left@ =~= right@);
    true
}

/// Whether `text` starts with `head`.
pub open spec fn has_prefix(text: Seq<char>, head: Seq<char>) -> bool {
    head.len() <= text.len() && text.take(head.len() as int) == head
}

/// Whether `text` ends with `tail`.
pub open spec fn has_suffix(text: Seq<char>, tail: Seq<char>) -> bool {
    tail.len() <= text.len() && text.skip(text.len() - tail.len()) == tail
}

/// `str::ends_with` for a text.
pub fn ends_with(value: &str, tail: &str) -> (yes: bool)
    ensures
        yes == has_suffix(value@, tail@),
{
    let chars = chars_of(value);
    let wanted = chars_of(tail);
    if wanted.len() > chars.len() {
        return false;
    }
    let start: usize = chars.len() - wanted.len();
    let mut i: usize = 0;
    while i < wanted.len()
        invariant
            start + wanted.len() == chars.len(),
            i <= wanted@.len(),
            forall|j: int| 0 <= j < i ==> chars@[start + j] == wanted@[j],
            chars@ == value@,
            wanted@ == tail@,
        decreases wanted@.len() - i,
    {
        if chars[start + i] != wanted[i] {
            assert(value@.skip(start as int)[i as int] != tail@[i as int]);
            return false;
        }
        i = i + 1;
    }
    assert(value@.skip(start as int) =~= tail@);
    true
}

/// `str::starts_with` for a text.
pub fn starts_with(value: &str, head: &str) -> (yes: bool)
    ensures
        yes == has_prefix(value@, head@),
{
    let chars = chars_of(value);
    let wanted = chars_of(head);
    if wanted.len() > chars.len() {
        return false;
    }
    let mut i: usize = 0;
    while i < wanted.len()
        invariant
            i <= wanted@.len() <= chars@.len(),
            forall|j: int| 0 <= j < i ==> chars@[j] == wanted@[j],
            chars@ == value@,
            wanted@ == head@,
        decreases wanted@.len() - i,
    {
        if chars[i] != wanted[i] {
            assert(value@.take(head@.len() as int)[i as int] != head@[i as int]);
            return false;
        }
        i = i + 1;
    }
    assert(value@.take(head@.len() as int) =~= head@);
    true
}

/// `value` without its ending `tail`, or `value` where it does not end so.
pub open spec fn without_suffix(value: Seq<char>, tail: Seq<char>) -> Seq<char> {
    if has_suffix(value, tail) {
        value.take(value.len() - tail.len())
    } else {
        value
    }
}

/// `value` with the ending `tail` stripped once.
pub fn strip_ending(value: &str, tail: &str) -> (out: String)
    ensures
        out@ == without_suffix(value@, tail@),
{
    if ends_with(value, tail) {
        let chars = chars_of(value);
        let cut: usize = chars.len() - chars_of(tail).len();
        text_between(&chars, 0, cut)
    } else {
        value.to_owned()
    }
}

/// The Unicode `White_Space` characters, which trimming removes.
pub open spec fn is_space(c: char) -> bool {
    let code = c as int;
    ||| 0x9 <= code <= 0xD
    ||| code == 0x20
    ||| code == 0x85
    ||| code == 0xA0
    ||| code == 0x1680
    ||| 0x2000 <= code <= 0x200A
    ||| code == 0x2028
    ||| code == 0x2029
    ||| code == 0x202F
    ||| code == 0x205F
    ||| code == 0x3000
}

/// Whether `c` is a white space character.
pub fn is_space_char(c: char) -> (yes: bool)
    ensures
        yes == is_space(c),
{
    let code: u32 = c as u32;
    (0x9 <= code && code <= 0xD) || code == 0x20 || code == 0x85 || code == 0xA0 || code == 0x1680
        || (0x2000 <= code && code <= 0x200A) || code == 0x2028 || code == 0x2029 || code == 0x202F
        || code == 0x205F || code == 0x3000
}

/// `text` without leading white space.
pub open spec fn trim_start(text: Seq<char>) -> Seq<char>
    decreases text.len(),
{
    if text.len() > 0 && is_space(text[0]) {
        trim_start(text.skip(1))
    } else {
        text
    }
}

/// `text` without trailing white space.
pub open spec fn trim_end(text: Seq<char>) -> Seq<char>
    decreases text.len(),
{
    if text.len() > 0 && is_space(text.last()) {
        trim_end(text.drop_last())
    } else {
        text
    }
}

/// `text` without leading and trailing white space.
pub open spec fn trim(text: Seq<char>) -> Seq<char> {
    trim_end(trim_start(text))
}

/// The bounds that are left of `from..to` after trimming.
pub fn trim_bounds(chars: &Vec<char>, from: usize, to: usize) -> (bounds: (usize, usize))
    requires
        from <= to <= chars@.len(),
    ensures
        from <= bounds.0 <= bounds.1 <= to,
        chars@.subrange(bounds.0 as int, bounds.1 as int) == trim(
            chars@.subrange(from as int, to as int),
        ),
{
    let ghost whole = chars@.subrange(from as int, to as int);
    let mut low: usize = from;
    while low < to && is_space_char(chars[low])
        invariant
            from <= low <= to <= chars@.len(),
            trim_start(chars@.subrange(low as int, to as int)) == trim_start(whole),
        decreases to - low,
    {
        assert(chars@.subrange(low as int, to as int).skip(1) =~= chars@.subrange(
            low + 1,
            to as int,
        ));
        low = low + 1;
    }
    assert(trim_start(whole) == chars@.subrange(low as int, to as int));
    let mut high: usize = to;
    while high > low && is_space_char(chars[high - 1])
        invariant
            from <= low <= high <= to <= chars@.len(),
            trim_end(chars@.subrange(low as int, high as int)) == trim(whole),
        decreases high - low,
    {
        assert(chars@.subrange(low as int, high as int).drop_last() =~= chars@.subrange(
            low as int,
            high - 1,
        ));
        high = high - 1;
    }
    (low, high)
}

/// `str::trim`.
pub fn trimmed(value: &str) -> (out: String)
    ensures
        out@ == trim(value@),
{
    let chars = chars_of(value);
    let (low, high) = trim_bounds(&chars, 0, chars.len());
    assert(chars@.subrange(0, chars@.len() as int) =~= value@);
    text_between(&chars, low, high)
}

/// Whether nothing but white space is left in `value`.
pub fn is_blank(value: &str) -> (blank: bool)
    ensures
        blank == (trim(value@).len() == 0),
{
    let chars = chars_of(value);
    let (low, high) = trim_bounds(&chars, 0, chars.len());
    assert(chars@.subrange(0, chars@.len() as int) =~= value@);
    low == high
}

/// `text` without any `c` at its end.
pub open spec fn trim_end_char(text: Seq<char>, c: char) -> Seq<char>
    decreases text.len(),
{
    if text.len() > 0 && text.last() == c {
        trim_end_char(text.drop_last(), c)
    } else {
        text
    }
}

/// `str::trim_end_matches` for one character.
pub fn trimmed_end(value: &str, c: char) -> (out: String)
    ensures
        out@ == trim_end_char(value@, c),
{
    let chars = chars_of(value);
    let mut high: usize = chars.len();
    assert(chars@.take(high as int) =~= value@);
    while high > 0 && chars[high - 1] == c
        invariant
            high <= chars@.len(),
            trim_end_char(chars@.take(high as int), c) == trim_end_char(value@, c),
        decreases high,
    {
        assert(chars@.take(high as int).drop_last() =~= chars@.take(high - 1));
        high = high - 1;
    }
    assert(chars@.take(high as int) =~= chars@.subrange(0, high as int));
    text_between(&chars, 0, high)
}

/// `text` with every `c` left out.
pub open spec fn without_char(text: Seq<char>, c: char) -> Seq<char>
    decreases text.len(),
{
    if text.len() == 0 {
        text
    } else if text.last() == c {
        without_char(text.drop_last(), c)
    } else {
        without_char(text.drop_last(), c).push(text.last())
    }
}

/// `str::replace` of one character by nothing.
pub fn removed(value: &str, c: char) -> (out: String)
    ensures
        out@ == without_char(value@, c),
{
    let chars = chars_of(value);
    let mut out = String::new();
    let mut i: usize = 0;
    while i < chars.len()
        invariant
            i <= chars@.len(),
            chars@ == value@,
            out@ == without_char(chars@.take(i as int), c),
        decreases chars@.len() - i,
    {
        assert(chars@.take(i + 1).drop_last() =~= chars@.take(i as int));
        if chars[i] != c {
            out.push(chars[i]);
        }
        i = i + 1;
    }
    assert(chars@.take(i as int) =~= value@);
    out
}

/// `text` with every `c` replaced by `by`.
pub open spec fn replace_char(text: Seq<char>, c: char, by: Seq<char>) -> Seq<char>
    decreases text.len(),
{
    if text.len() == 0 {
        text
    } else {
        replace_char(text.drop_last(), c, by) + (if text.last() == c {
            by
        } else {
            seq![text.last()]
        })
    }
}

/// `str::replace` of one character.
pub fn replaced(value: &str, c: char, by: &str) -> (out: String)
    ensures
        out@ == replace_char(value@, c, by@),
{
    let chars = chars_of(value);
    let mut out = String::new();
    let mut i: usize = 0;
    while i < chars.len()
        invariant
            i <= chars@.len(),
            chars@ == value@,
            out@ == replace_char(chars@.take(i as int), c, by@),
        decreases chars@.len() - i,
    {
        assert(chars@.take(i + 1).drop_last() =~= chars@.take(i as int));
        if chars[i] == c {
            out.append(by);
        } else {
            out.push(chars[i]);
        }
        i = i + 1;
    }
    assert(chars@.take(i as int) =~= value@);
    out
}

/// Whether `c` is one of the ten decimal digits.
pub open spec fn is_digit(c: char) -> bool {
    48 <= c as int <= 57
}

/// The number that a row of digits stands for.
pub open spec fn digits_value(text: Seq<char>) -> nat
    decreases text.len(),
{
    if text.len() == 0 {
        0
    } else {
        10 * digits_value(text.drop_last()) + (text.last() as int - 48) as nat
    }
}

/// `text` without one leading plus sign.
pub open spec fn without_plus(text: Seq<char>) -> Seq<char> {
    if text.len() > 0 && text[0] == '+' {
        text.skip(1)
    } else {
        text
    }
}

/// What `str::parse::<u64>` makes of `text`: an optional plus sign and at
/// least one digit, with a value that fits.
pub open spec fn parse_number(text: Seq<char>) -> Option<nat> {
    let digits = without_plus(text);
    if digits.len() > 0 && (forall|i: int| 0 <= i < digits.len() ==> is_digit(#[trigger] digits[i]))
        && digits_value(digits) <= u64::MAX {
        Some(digits_value(digits))
    } else {
        None
    }
}

/// A number that is written down reads back as itself.
pub proof fn numbers_read_back(n: nat)
    ensures
        decimal(n).len() > 0,
        forall|i: int| 0 <= i < decimal(n).len() ==> is_digit(#[trigger] decimal(n)[i]),
        digits_value(decimal(n)) == n,
    decreases n,
{
    let written = decimal(n);
    if n < 10 {
        assert(written.drop_last() =~= Seq::<char>::empty());
        assert(digits_value(written.drop_last()) == 0);
    } else {
        numbers_read_back(n / 10);
        let front = decimal(n / 10);
        assert(written.drop_last() =~= front);
        assert forall|i: int| 0 <= i < written.len() implies is_digit(#[trigger] written[i]) by {
            if i < front.len() {
                assert(written[i] == front[i]);
            }
        }
    }
}

proof fn lemma_digits_grow(text: Seq<char>, upto: int)
    requires
        0 <= upto <= text.len(),
        forall|i: int| 0 <= i < text.len() ==> is_digit(#[trigger] text[i]),
    ensures
        digits_value(text.take(upto)) <= digits_value(text),
    decreases text.len() - upto,
{
    if upto < text.len() {
        lemma_digits_grow(text, upto + 1);
        assert(text.take(upto + 1).drop_last() =~= text.take(upto));
        assert(text.take(upto + 1).last() == text[upto]);
    } else {
        assert(text.take(upto) =~= text);
    }
}

/// The value of a decimal digit.
pub fn digit_of(c: char) -> (value: Option<u8>)
    ensures
        value is Some == is_digit(c),
        value matches Some(d) ==> d == c as int - 48,
{
    let code: u32 = c as u32;
    if 48 <= code && code <= 57 {
        Some((code - 48) as u8)
    } else {
        None
    }
}

/// `str::parse::<u64>` on the characters from `from` up to `to`.
pub fn parse_between(chars: &Vec<char>, from: usize, to: usize) -> (number: Option<u64>)
    requires
        from <= to <= chars@.len(),
    ensures
        parse_number(chars@.subrange(from as int, to as int)) == (match number {
            Some(n) => Some(n as nat),
            None => None::<nat>,
        }),
{
    let ghost whole = chars@.subrange(from as int, to as int);
    let mut start: usize = from;
    if start < to && chars[start] == '+' {
        start = start + 1;
        assert(whole.skip(1) =~= chars@.subrange(start as int, to as int));
    }
    let ghost digits = chars@.subrange(start as int, to as int);
    assert(digits == without_plus(whole));
    if start == to {
        return None;
    }
    let mut value: u64 = 0;
    let mut i: usize = start;
    while i < to
        invariant
            from <= start <= i <= to <= chars@.len(),
            start < to,
            digits == chars@.subrange(start as int, to as int),
            whole == chars@.subrange(from as int, to as int),
            digits == without_plus(whole),
            value == digits_value(digits.take(i - start)),
            forall|j: int| 0 <= j < i - start ==> is_digit(#[trigger] digits[j]),
        decreases to - i,
    {
        assert(digits[i - start] == chars@[i as int]);
        let d: u64 = match digit_of(chars[i]) {
            Some(d) => d as u64,
            None => {
                return None;
            },
        };
        assert(digits.take(i - start + 1).drop_last() =~= digits.take(i - start));
        proof {
            if 10 * value + d > u64::MAX && (forall|j: int|
                0 <= j < digits.len() ==> is_digit(#[trigger] digits[j])) {
                lemma_digits_grow(digits, i - start + 1);
            }
        }
        match value.checked_mul(10) {
            None => {
                return None;
            },
            Some(shifted) => match shifted.checked_add(d) {
                None => {
                    return None;
                },
                Some(next) => {
                    value = next;
                },
            },
        }
        i = i + 1;
    }
    assert(digits.take(digits.len() as int) =~= digits);
    Some(value)
}

/// The position of the first `c` in `text`, or the length where there is
/// none.
pub open spec fn first_index(text: Seq<char>, c: char) -> int
    decreases text.len(),
{
    if text.len() == 0 || text[0] == c {
        0
    } else {
        1 + first_index(text.skip(1), c)
    }
}

/// `first_index` is the one position with no `c` before it and a `c` at it.
pub proof fn lemma_first_index(text: Seq<char>, c: char, at: int)
    requires
        0 <= at <= text.len(),
        forall|i: int| 0 <= i < at ==> text[i] != c,
        at < text.len() ==> text[at] == c,
    ensures
        first_index(text, c) == at,
    decreases text.len(),
{
    if text.len() > 0 && text[0] != c {
        lemma_first_index(text.skip(1), c, at - 1);
    }
}

/// The first position of `c` in `from..to`, or `to`.
pub fn find_between(chars: &Vec<char>, from: usize, to: usize, c: char) -> (at: usize)
    requires
        from <= to <= chars@.len(),
    ensures
        from <= at <= to,
        at - from == first_index(chars@.subrange(from as int, to as int), c),
        at < to ==> chars@[at as int] == c,
        forall|i: int| from <= i < at ==> chars@[i] != c,
{
    let mut at: usize = from;
    while at < to && chars[at] != c
        invariant
            from <= at <= to <= chars@.len(),
            forall|i: int| from <= i < at ==> chars@[i] != c,
        decreases to - at,
    {
        at = at + 1;
    }
    proof {
        lemma_first_index(chars@.subrange(from as int, to as int), c, at - from);
    }
    at
}

/// `value` starts with `/`, as every absolute path does.
pub open spec fn is_absolute(path: Seq<char>) -> bool {
    path.len() > 0 && path[0] == '/'
}

/// Whether a path is absolute.
pub fn is_absolute_path(path: &str) -> (yes: bool)
    ensures
        yes == is_absolute(path@),
{
    let chars = chars_of(path);
    chars.len() > 0 && chars[0] == '/'
}

/// `path` followed by the relative `name`, with one separator between them.
pub open spec fn joined(path: Seq<char>, name: Seq<char>) -> Seq<char> {
    if path.len() == 0 || path.last() == '/' {
        path + name
    } else {
        path.push('/') + name
    }
}

/// `Path::join` for a relative name.
pub fn join_path(path: &str, name: &str) -> (out: String)
    ensures
        out@ == joined(path@, name@),
{
    let chars = chars_of(path);
    let mut out = path.to_owned();
    if chars.len() > 0 && chars[chars.len() - 1] != '/' {
        out.push('/');
    }
    out.append(name);
    out
}

/// Where a path ends once trailing separators and `.` components are left
/// out. The root directory keeps its separator, and a leading `.` stays.
pub open spec fn path_end(path: Seq<char>) -> int
    decreases path.len(),
{
    let start = after_last('/', path, path.len() as int);
    let piece = path.skip(start);
    if start > 0 && (piece.len() == 0 || piece == seq!['.']) {
        if start == 1 {
            1
        } else {
            proof {
                lemma_after_last('/', path, path.len() as int);
            }
            path_end(path.take(start - 1))
        }
    } else {
        path.len() as int
    }
}

/// A path without trailing separators and `.` components.
pub open spec fn plain_path(path: Seq<char>) -> Seq<char> {
    path.take(path_end(path))
}

/// The last component of a path; empty for the root directory.
pub open spec fn last_component(path: Seq<char>) -> Seq<char> {
    let plain = plain_path(path);
    plain.skip(after_last('/', plain, plain.len() as int))
}

/// The directory that holds a path's last component, if there is one.
pub open spec fn parent(path: Seq<char>) -> Option<Seq<char>> {
    let plain = plain_path(path);
    let start = after_last('/', plain, plain.len() as int);
    if start < plain.len() {
        Some(plain_path(plain.take(start)))
    } else {
        None
    }
}

/// The position after the last `c` before `end`, or 0.
pub open spec fn after_last(c: char, text: Seq<char>, end: int) -> int
    decreases end,
{
    if end <= 0 {
        0
    } else if end <= text.len() && text[end - 1] == c {
        end
    } else {
        after_last(c, text, end - 1)
    }
}

/// The position after the last `c` is at most `end`.
pub proof fn lemma_after_last(c: char, text: Seq<char>, end: int)
    ensures
        end >= 0 ==> 0 <= after_last(c, text, end) <= end,
    decreases end,
{
    if end > 0 && !(end <= text.len() && text[end - 1] == c) {
        lemma_after_last(c, text, end - 1);
    }
}

/// Text that is put in front, and ends in `c` itself, only moves the position.
pub proof fn lemma_after_last_behind(c: char, front: Seq<char>, text: Seq<char>, end: int)
    requires
        front.len() == 0 || front.last() == c,
        0 <= end <= text.len(),
    ensures
        after_last(c, front + text, front.len() + end) == front.len() + after_last(c, text, end),
    decreases end,
{
    if end > 0 {
        assert((front + text)[front.len() + end - 1] == text[end - 1]);
        if text[end - 1] != c {
            lemma_after_last_behind(c, front, text, end - 1);
        }
    } else if front.len() > 0 {
        assert((front + text)[front.len() - 1] == front.last());
    }
}

/// Right before the position after the last `c` stands a `c`.
pub proof fn lemma_after_last_holds(c: char, text: Seq<char>, end: int)
    requires
        0 <= end <= text.len(),
    ensures
        after_last(c, text, end) > 0 ==> text[after_last(c, text, end) - 1] == c,
    decreases end,
{
    if end > 0 && text[end - 1] != c {
        lemma_after_last_holds(c, text, end - 1);
    }
}

/// The name of the file a path ends in: its last component, unless that is
/// empty, `.` or `..`.
pub open spec fn file_name(path: Seq<char>) -> Option<Seq<char>> {
    let name = last_component(path);
    if name.len() == 0 || name == seq!['.'] || name == seq!['.', '.'] {
        None
    } else {
        Some(name)
    }
}

/// Where the last piece of the first `end` characters starts, with `c`
/// between the pieces.
pub fn piece_start(c: char, chars: &Vec<char>, end: usize) -> (start: usize)
    requires
        end <= chars@.len(),
    ensures
        start <= end,
        start == after_last(c, chars@.take(end as int), end as int),
        start > 0 ==> chars@[start - 1] == c,
        forall|i: int| start <= i < end ==> chars@[i] != c,
{
    let mut start: usize = end;
    while start > 0 && chars[start - 1] != c
        invariant
            start <= end <= chars@.len(),
            after_last(c, chars@.take(end as int), start as int) == after_last(
                c,
                chars@.take(end as int),
                end as int,
            ),
            forall|i: int| start <= i < end ==> chars@[i] != c,
        decreases start,
    {
        start = start - 1;
    }
    start
}

/// Where the path made of the first `upto` characters ends.
fn plain_end(chars: &Vec<char>, upto: usize) -> (end: usize)
    requires
        upto <= chars@.len(),
    ensures
        end <= upto,
        end == path_end(chars@.take(upto as int)),
{
    let mut end: usize = upto;
    loop
        invariant
            end <= upto <= chars@.len(),
            path_end(chars@.take(end as int)) == path_end(chars@.take(upto as int)),
        decreases end,
    {
        let ghost rest = chars@.take(end as int);
        let start: usize = piece_start('/', chars, end);
        let ghost piece = rest.skip(start as int);
        assert(piece =~= chars@.subrange(start as int, end as int));
        let dot = end - start == 1 && chars[start] == '.';
        assert(dot == (piece == seq!['.'])) by {
            if dot {
                assert(piece =~= seq!['.']);
            } else if piece == seq!['.'] {
                assert(piece[0] == '.');
            }
        }
        if start > 0 && (start == end || dot) {
            if start == 1 {
                return 1;
            }
            assert(rest.take(start - 1) =~= chars@.take(start - 1));
            end = start - 1;
        } else {
            return end;
        }
    }
}

/// `Path::file_name`.
pub fn file_name_of(path: &str) -> (name: Option<String>)
    ensures
        file_name(path@) == (match name {
            Some(text) => Some(text@),
            None => None::<Seq<char>>,
        }),
{
    let chars = chars_of(path);
    assert(chars@.take(chars@.len() as int) =~= path@);
    let end: usize = plain_end(&chars, chars.len());
    let start: usize = piece_start('/', &chars, end);
    let ghost name = last_component(path@);
    assert(name =~= chars@.subrange(start as int, end as int));
    let dot = end - start == 1 && chars[start] == '.';
    let parent = end - start == 2 && chars[start] == '.' && chars[start + 1] == '.';
    assert(dot == (name == seq!['.'])) by {
        if dot {
            assert(name =~= seq!['.']);
        } else if name == seq!['.'] {
            assert(name[0] == '.');
        }
    }
    assert(parent == (name == seq!['.', '.'])) by {
        if parent {
            assert(name =~= seq!['.', '.']);
        } else if name == seq!['.', '.'] {
            assert(name[0] == '.' && name[1] == '.');
        }
    }
    if start == end || dot || parent {
        None
    } else {
        Some(text_between(&chars, start, end))
    }
}

/// `Path::parent`.
pub fn parent_of(path: &str) -> (directory: Option<String>)
    ensures
        parent(path@) == (match directory {
            Some(text) => Some(text@),
            None => None::<Seq<char>>,
        }),
{
    let chars = chars_of(path);
    assert(chars@.take(chars@.len() as int) =~= path@);
    let end: usize = plain_end(&chars, chars.len());
    let start: usize = piece_start('/', &chars, end);
    let ghost plain = plain_path(path@);
    assert(plain =~= chars@.take(end as int));
    if start < end {
        let kept: usize = plain_end(&chars, start);
        assert(plain.take(start as int) =~= chars@.take(start as int));
        assert(chars@.take(start as int).take(kept as int) =~= chars@.subrange(0, kept as int));
        Some(text_between(&chars, 0, kept))
    } else {
        None
    }
}

/// What a list made of others holds: what either of two holds, a single item,
/// or nothing.
pub proof fn lemma_members<A>()
    ensures
        forall|a: Seq<A>, b: Seq<A>, x: A| #[trigger]
            (a + b).contains(x) <==> a.contains(x) || b.contains(x),
        forall|y: A, x: A| #[trigger] seq![y].contains(x) <==> x == y,
        forall|x: A| !(#[trigger] Seq::<A>::empty().contains(x)),
{
    assert forall|a: Seq<A>, b: Seq<A>, x: A| #[trigger] (a + b).contains(x) <==> a.contains(x)
        || b.contains(x) by {
        if a.contains(x) {
            let i = choose|i: int| 0 <= i < a.len() && a[i] == x;
            assert((a + b)[i] == x);
        }
        if b.contains(x) {
            let i = choose|i: int| 0 <= i < b.len() && b[i] == x;
            assert((a + b)[a.len() + i] == x);
        }
        if (a + b).contains(x) {
            let i = choose|i: int| 0 <= i < (a + b).len() && (a + b)[i] == x;
            if i < a.len() {
                assert(a[i] == x);
            } else {
                assert(b[i - a.len()] == x);
            }
        }
    }
    assert forall|y: A, x: A| #[trigger] seq![y].contains(x) <==> x == y by {
        assert(seq![y][0] == y);
    }
}

/// The characters of each text of a list.
pub open spec fn texts(list: Seq<String>) -> Seq<Seq<char>> {
    list.map_values(|item: String| item@)
}

/// The order of texts: by their first differing character, and a text before
/// everything it starts.
pub open spec fn precedes(a: Seq<char>, b: Seq<char>) -> bool
    decreases a.len(),
{
    if b.len() == 0 {
        false
    } else if a.len() == 0 {
        true
    } else if a[0] != b[0] {
        (a[0] as int) < (b[0] as int)
    } else {
        precedes(a.skip(1), b.skip(1))
    }
}

/// The order of texts is strict and total.
pub proof fn texts_are_ordered(a: Seq<char>, b: Seq<char>, c: Seq<char>)
    ensures
        !precedes(a, a),
        precedes(a, b) ==> !precedes(b, a),
        precedes(a, b) || a == b || precedes(b, a),
        precedes(a, b) && precedes(b, c) ==> precedes(a, c),
    decreases a.len() + b.len() + c.len(),
{
    if a.len() > 0 && b.len() > 0 && a[0] == b[0] {
        if c.len() > 0 {
            texts_are_ordered(a.skip(1), b.skip(1), c.skip(1));
        } else {
            texts_are_ordered(a.skip(1), b.skip(1), c);
        }
        if a.skip(1) == b.skip(1) {
            assert(a =~= seq![a[0]] + a.skip(1));
            assert(b =~= seq![b[0]] + b.skip(1));
        }
    } else if a.len() == 0 && b.len() == 0 {
        assert(a =~= b);
    }
    if a.len() > 0 {
        lemma_not_before_itself(a);
    }
}

proof fn lemma_not_before_itself(a: Seq<char>)
    ensures
        !precedes(a, a),
    decreases a.len(),
{
    if a.len() > 0 {
        lemma_not_before_itself(a.skip(1));
    }
}

/// Where one thing stands in relation to another.
#[derive(Clone, Copy, Debug, PartialEq, Eq, Structural)]
pub enum Place {
    Before,
    Same,
    After,
}

/// How two numbers stand to each other.
pub open spec fn number_place(a: int, b: int) -> Place {
    if a < b {
        Place::Before
    } else if a == b {
        Place::Same
    } else {
        Place::After
    }
}

/// How two texts stand to each other.
pub open spec fn text_place(a: Seq<char>, b: Seq<char>) -> Place {
    if precedes(a, b) {
        Place::Before
    } else if a == b {
        Place::Same
    } else {
        Place::After
    }
}

/// How two texts stand to each other.
pub fn place_text(a: &str, b: &str) -> (place: Place)
    ensures
        place == text_place(a@, b@),
{
    let left = chars_of(a);
    let right = chars_of(b);
    let mut i: usize = 0;
    proof {
        assert(a@.skip(0) =~= a@);
        assert(b@.skip(0) =~= b@);
    }
    while i < left.len() && i < right.len()
        invariant
            i <= left@.len(),
            i <= right@.len(),
            left@ == a@,
            right@ == b@,
            a@.take(i as int) == b@.take(i as int),
            precedes(a@, b@) == precedes(a@.skip(i as int), b@.skip(i as int)),
        decreases left@.len() - i,
    {
        assert(a@.skip(i as int).skip(1) =~= a@.skip(i + 1));
        assert(b@.skip(i as int).skip(1) =~= b@.skip(i + 1));
        let x = left[i];
        let y = right[i];
        if x != y {
            assert(a@ != b@);
            return if x < y {
                Place::Before
            } else {
                Place::After
            };
        }
        i = i + 1;
        assert(a@.take(i as int) =~= a@.take(i - 1).push(x));
        assert(b@.take(i as int) =~= b@.take(i - 1).push(y));
    }
    if i < left.len() {
        assert(a@.len() != b@.len());
        Place::After
    } else if i < right.len() {
        assert(a@.len() != b@.len());
        Place::Before
    } else {
        assert(a@.take(i as int) =~= a@);
        assert(b@.take(i as int) =~= b@);
        Place::Same
    }
}

/// Several texts with another between each two.
pub open spec fn interleaved(list: Seq<Seq<char>>, between: Seq<char>) -> Seq<char>
    decreases list.len(),
{
    if list.len() == 0 {
        seq![]
    } else if list.len() == 1 {
        list[0]
    } else {
        interleaved(list.drop_last(), between) + between + list.last()
    }
}

/// Join several texts with another between each two.
pub fn interleave(list: &Vec<&str>, between: &str) -> (out: String)
    ensures
        out@ == interleaved(list@.map_values(|item: &str| item@), between@),
{
    let ghost all = list@.map_values(|item: &str| item@);
    let mut out = String::new();
    let mut i: usize = 0;
    assert(out@ =~= interleaved(all.take(0), between@));
    while i < list.len()
        invariant
            i <= list@.len(),
            all == list@.map_values(|item: &str| item@),
            out@ == interleaved(all.take(i as int), between@),
        decreases list@.len() - i,
    {
        if i > 0 {
            out.append(between);
        }
        out.append(list[i]);
        i = i + 1;
        assert(all.take(i as int).drop_last() =~= all.take(i - 1));
        assert(out@ =~= interleaved(all.take(i as int), between@));
    }
    assert(all.take(i as int) =~= all);
    out
}

/// Append a text to a list.
pub fn push_text(list: &mut Vec<String>, item: &str)
    ensures
        texts(final(list)@) == texts(old(list)@).push(item@),
{
    list.push(item.to_owned());
    assert(texts(list@) =~= texts(old(list)@).push(item@));
}

/// Append several texts to a list.
pub fn push_texts(list: &mut Vec<String>, items: &[&str])
    ensures
        texts(final(list)@) == texts(old(list)@) + items@.map_values(|item: &str| item@),
{
    let ghost start = texts(list@);
    let ghost all = items@.map_values(|item: &str| item@);
    let mut i: usize = 0;
    while i < items.len()
        invariant
            i <= items@.len(),
            all == items@.map_values(|item: &str| item@),
            texts(list@) == start + all.take(i as int),
        decreases items@.len() - i,
    {
        push_text(list, items[i]);
        i = i + 1;
        assert(start + all.take(i as int) =~= (start + all.take(i - 1)).push(all[i - 1]));
    }
    assert(all.take(i as int) =~= all);
}

} // verus!
