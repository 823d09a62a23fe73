//! What a timestamp says: it reads back to its instant, and timestamps sort as
//! texts in the order of their instants.
use vstd::prelude::*;

use crate::calendar;
use crate::text;

verus! {

/// The first instant of the year 0.
pub const FIRST_INSTANT: i64 = -62_167_219_200_000;

/// The last instant of the year 9999.
pub const LAST_INSTANT: i64 = 253_402_300_799_999;

/// The instants whose timestamps have a year of four digits.
pub open spec fn has_plain_year(epoch_ms: int) -> bool {
    FIRST_INSTANT <= epoch_ms <= LAST_INSTANT
}

/// What stands at a place of `YYYY-MM-DDTHH:MM:SS.mmmZ`.
pub open spec fn fits_place(c: char, place: int) -> bool {
    if place == 4 || place == 7 {
        c == '-'
    } else if place == 10 {
        c == 'T'
    } else if place == 13 || place == 16 {
        c == ':'
    } else if place == 19 {
        c == '.'
    } else if place == 23 {
        c == 'Z'
    } else {
        text::is_digit(c)
    }
}

/// `YYYY-MM-DDTHH:MM:SS.mmmZ`.
pub open spec fn is_timestamp(stamp: Seq<char>) -> bool {
    &&& stamp.len() == 24
    &&& forall|place: int| 0 <= place < 24 ==> fits_place(#[trigger] stamp[place], place)
}

/// The number that stands between two places of a timestamp.
pub open spec fn number_at(stamp: Seq<char>, from: int, to: int) -> int {
    text::digits_value(stamp.subrange(from, to)) as int
}

/// The instant that a timestamp names, in milliseconds since the Unix epoch.
pub open spec fn instant_of(stamp: Seq<char>) -> int {
    let date = (number_at(stamp, 0, 4), number_at(stamp, 5, 7), number_at(stamp, 8, 10));
    let of_day = number_at(stamp, 11, 13) * 3_600 + number_at(stamp, 14, 16) * 60 + number_at(
        stamp,
        17,
        19,
    );
    (calendar::day_number(date) * 86_400 + of_day) * 1_000 + number_at(stamp, 20, 23)
}

/// Ten to the power of `width`: the first number with more digits than that.
spec fn power(width: int) -> nat
    decreases width,
{
    if width <= 0 {
        1
    } else {
        10 * power(width - 1)
    }
}

/// A number of fixed width, what separates it from the rest, and the rest.
#[verifier::opaque]
spec fn field(n: nat, width: int, separator: char, rest: Seq<char>) -> Seq<char> {
    text::padded(n, width) + (seq![separator] + rest)
}

/// A padded number ends in its last digit, after the digits before it.
proof fn lemma_padded_step(n: nat, width: int)
    requires
        width > 1,
        n < power(width),
    ensures
        text::padded(n, width) == text::padded(n / 10, width - 1).push(text::digit(n % 10)),
{
    let last = text::digit(n % 10);
    if n < 10 {
        assert(text::decimal(n) =~= seq![last]);
        assert(text::decimal(0) =~= seq!['0']);
        assert(text::padded(n, width) =~= text::padded(0, width - 1).push(last));
    } else {
        assert(text::padded(n, width) =~= text::padded(n / 10, width - 1).push(last));
    }
}

/// A number that fits takes exactly its width, in digits, and reads back.
proof fn lemma_padded(n: nat, width: int)
    requires
        width >= 1,
        n < power(width),
    ensures
        text::padded(n, width).len() == width,
        forall|i: int|
            0 <= i < width ==> text::is_digit(#[trigger] text::padded(n, width)[i]),
        text::digits_value(text::padded(n, width)) == n,
    decreases width,
{
    let padded = text::padded(n, width);
    if width == 1 {
        assert(power(0) == 1);
        assert(text::decimal(n) =~= seq![text::digit(n)]);
        assert(padded =~= seq![text::digit(n)]);
        assert(padded.drop_last() =~= Seq::<char>::empty());
        assert(text::digits_value(padded.drop_last()) == 0);
    } else {
        let front = text::padded(n / 10, width - 1);
        lemma_padded_step(n, width);
        lemma_padded(n / 10, width - 1);
        assert(padded.drop_last() =~= front);
        assert forall|i: int| 0 <= i < width implies text::is_digit(#[trigger] padded[i]) by {
            if i < width - 1 {
                assert(padded[i] == front[i]);
            }
        }
    }
}

/// A text that comes first comes first with anything behind it.
proof fn lemma_front_decides(a: Seq<char>, b: Seq<char>, x: Seq<char>, y: Seq<char>)
    requires
        a.len() == b.len(),
        text::precedes(a, b),
    ensures
        text::precedes(a + x, b + y),
    decreases a.len(),
{
    assert((a + x)[0] == a[0] && (b + y)[0] == b[0]);
    if a[0] == b[0] {
        lemma_front_decides(a.skip(1), b.skip(1), x, y);
        assert((a + x).skip(1) =~= a.skip(1) + x);
        assert((b + y).skip(1) =~= b.skip(1) + y);
    }
}

/// Behind the same text, the rest decides.
proof fn lemma_rest_decides(front: Seq<char>, x: Seq<char>, y: Seq<char>)
    requires
        text::precedes(x, y),
    ensures
        text::precedes(front + x, front + y),
    decreases front.len(),
{
    if front.len() == 0 {
        assert(front + x =~= x);
        assert(front + y =~= y);
    } else {
        lemma_rest_decides(front.skip(1), x, y);
        assert((front + x).skip(1) =~= front.skip(1) + x);
        assert((front + y).skip(1) =~= front.skip(1) + y);
    }
}

/// Numbers of one width sort as texts in their own order.
proof fn lemma_padded_order(n: nat, m: nat, width: int)
    requires
        width >= 1,
        n < m < power(width),
    ensures
        text::precedes(text::padded(n, width), text::padded(m, width)),
    decreases width,
{
    reveal_with_fuel(text::precedes, 2);
    let x = seq![text::digit(n % 10)];
    let y = seq![text::digit(m % 10)];
    if width == 1 {
        assert(power(0) == 1);
        assert(text::padded(n, 1) =~= x);
        assert(text::padded(m, 1) =~= y);
        assert(text::precedes(x, y));
    } else {
        let a = text::padded(n / 10, width - 1);
        let b = text::padded(m / 10, width - 1);
        lemma_padded_step(n, width);
        lemma_padded_step(m, width);
        lemma_padded(n / 10, width - 1);
        lemma_padded(m / 10, width - 1);
        assert(a.push(x[0]) =~= a + x);
        assert(b.push(y[0]) =~= b + y);
        if n / 10 < m / 10 {
            lemma_padded_order(n / 10, m / 10, width - 1);
            lemma_front_decides(a, b, x, y);
        } else {
            assert(text::precedes(x, y));
            lemma_rest_decides(a, x, y);
        }
    }
}

/// A field's number decides, and else what comes behind it.
proof fn lemma_field_order(n: nat, m: nat, width: int, separator: char, x: Seq<char>, y: Seq<char>)
    requires
        width >= 1,
        m < power(width),
        n < m || (n == m && text::precedes(x, y)),
    ensures
        text::precedes(field(n, width, separator, x), field(m, width, separator, y)),
{
    reveal(field);
    lemma_padded(n, width);
    lemma_padded(m, width);
    let between = seq![separator];
    if n < m {
        lemma_padded_order(n, m, width);
        lemma_front_decides(
            text::padded(n, width),
            text::padded(m, width),
            between + x,
            between + y,
        );
    } else {
        lemma_rest_decides(between, x, y);
        lemma_rest_decides(text::padded(n, width), between + x, between + y);
    }
}

/// Where the parts of a field stand.
proof fn lemma_field(n: nat, width: int, separator: char, rest: Seq<char>)
    requires
        width >= 1,
        n < power(width),
    ensures
        ({
            let all = field(n, width, separator, rest);
            &&& all.len() == width + 1 + rest.len()
            &&& all.subrange(0, width) == text::padded(n, width)
            &&& text::digits_value(all.subrange(0, width)) == n
            &&& forall|i: int| 0 <= i < width ==> text::is_digit(#[trigger] all[i])
            &&& all[width] == separator
            &&& all.skip(width + 1) == rest
        }),
{
    reveal(field);
    lemma_padded(n, width);
    let all = field(n, width, separator, rest);
    let padded = text::padded(n, width);
    assert(all.subrange(0, width) =~= padded);
    assert(all.skip(width + 1) =~= rest);
    assert forall|i: int| 0 <= i < width implies text::is_digit(#[trigger] all[i]) by {
        assert(all[i] == padded[i]);
    }
}

/// The numbers of an instant's timestamp: its date and its time of day.
spec fn date_at(epoch_ms: int) -> (int, int, int) {
    calendar::date_of(epoch_ms / 1_000 / 86_400)
}

spec fn second_at(epoch_ms: int) -> int {
    epoch_ms / 1_000 % 86_400
}

spec fn millis_field(epoch_ms: int) -> Seq<char> {
    field((epoch_ms % 1_000) as nat, 3, 'Z', seq![])
}

spec fn seconds_field(epoch_ms: int) -> Seq<char> {
    field((second_at(epoch_ms) % 60) as nat, 2, '.', millis_field(epoch_ms))
}

spec fn minutes_field(epoch_ms: int) -> Seq<char> {
    field((second_at(epoch_ms) % 3_600 / 60) as nat, 2, ':', seconds_field(epoch_ms))
}

spec fn hours_field(epoch_ms: int) -> Seq<char> {
    field((second_at(epoch_ms) / 3_600) as nat, 2, ':', minutes_field(epoch_ms))
}

spec fn day_field(epoch_ms: int) -> Seq<char> {
    field(date_at(epoch_ms).2 as nat, 2, 'T', hours_field(epoch_ms))
}

spec fn month_field(epoch_ms: int) -> Seq<char> {
    field(date_at(epoch_ms).1 as nat, 2, '-', day_field(epoch_ms))
}

spec fn year_field(epoch_ms: int) -> Seq<char> {
    field(date_at(epoch_ms).0 as nat, 4, '-', month_field(epoch_ms))
}

/// The numbers of a timestamp fit their fields.
proof fn lemma_numbers_fit(epoch_ms: int)
    requires
        has_plain_year(epoch_ms),
    ensures
        0 <= date_at(epoch_ms).0 <= 9_999,
        1 <= date_at(epoch_ms).1 <= 12,
        1 <= date_at(epoch_ms).2 <= 31,
        calendar::is_date(date_at(epoch_ms)),
        calendar::day_number(date_at(epoch_ms)) == epoch_ms / 1_000 / 86_400,
        0 <= second_at(epoch_ms) < 86_400,
        power(2) == 100,
        power(3) == 1_000,
        power(4) == 10_000,
{
    calendar::every_day_has_a_date(epoch_ms / 1_000 / 86_400);
    calendar::four_digits_are_enough(epoch_ms / 1_000 / 86_400);
    reveal_with_fuel(power, 5);
}

proof fn lemma_join(a: Seq<char>, c: char, rest: Seq<char>)
    ensures
        a.push(c) + rest == a + (seq![c] + rest),
{
    assert(a.push(c) + rest =~= a + (seq![c] + rest));
}

proof fn lemma_group(a: Seq<char>, b: Seq<char>, c: Seq<char>)
    ensures
        (a + b) + c == a + (b + c),
{
    assert((a + b) + c =~= a + (b + c));
}

/// A time with its fraction, from its numbers.
proof fn lemma_join_time(h: Seq<char>, m: Seq<char>, s: Seq<char>, f: Seq<char>)
    ensures
        (h.push(':') + m.push(':') + s).push('.') + f.push('Z') == h + (seq![':'] + (m + (seq![':']
            + (s + (seq!['.'] + (f + (seq!['Z'] + seq![]))))))),
{
    let fraction = f + (seq!['Z'] + seq![]);
    let rest = s + (seq!['.'] + fraction);
    assert(f.push('Z') =~= fraction);
    lemma_join(h.push(':') + m.push(':') + s, '.', fraction);
    lemma_group(h.push(':') + m.push(':'), s, seq!['.'] + fraction);
    lemma_group(h.push(':'), m.push(':'), rest);
    lemma_join(m, ':', rest);
    lemma_join(h, ':', m + (seq![':'] + rest));
}

/// A date before a time, from its numbers.
proof fn lemma_join_date(y: Seq<char>, m: Seq<char>, d: Seq<char>, time: Seq<char>)
    ensures
        (y + (seq!['-'] + m.push('-') + d)).push('T') + time == y + (seq!['-'] + (m + (seq!['-']
            + (d + (seq!['T'] + time))))),
{
    let rest = d + (seq!['T'] + time);
    lemma_join(y + (seq!['-'] + m.push('-') + d), 'T', time);
    lemma_group(y, seq!['-'] + m.push('-') + d, seq!['T'] + time);
    lemma_group(seq!['-'] + m.push('-'), d, seq!['T'] + time);
    lemma_group(seq!['-'], m.push('-'), rest);
    lemma_join(m, '-', rest);
}

/// The timestamp is its fields, one after the other.
proof fn lemma_fields(epoch_ms: int)
    requires
        has_plain_year(epoch_ms),
    ensures
        calendar::iso_text(epoch_ms) == year_field(epoch_ms),
{
    reveal(field);
    lemma_numbers_fit(epoch_ms);
    let date = date_at(epoch_ms);
    let second = second_at(epoch_ms);
    let head = calendar::iso_year(date.0) + calendar::month_and_day(date);
    let time = calendar::clock(second, ':').push('.');
    let fraction = text::padded((epoch_ms % 1_000) as nat, 3).push('Z');
    lemma_join_time(
        text::padded((second / 3_600) as nat, 2),
        text::padded((second % 3_600 / 60) as nat, 2),
        text::padded((second % 60) as nat, 2),
        text::padded((epoch_ms % 1_000) as nat, 3),
    );
    assert(time + fraction == hours_field(epoch_ms));
    lemma_join_date(
        text::padded(date.0 as nat, 4),
        text::padded(date.1 as nat, 2),
        text::padded(date.2 as nat, 2),
        hours_field(epoch_ms),
    );
    lemma_group(head.push('T'), time, fraction);
}

/// A timestamp has the one form, and reads back to exactly its instant.
pub proof fn timestamps_read_back(epoch_ms: int)
    requires
        has_plain_year(epoch_ms),
    ensures
        is_timestamp(calendar::iso_text(epoch_ms)),
        instant_of(calendar::iso_text(epoch_ms)) == epoch_ms,
{
    let all = calendar::iso_text(epoch_ms);
    let date = date_at(epoch_ms);
    let second = second_at(epoch_ms);
    lemma_fields(epoch_ms);
    lemma_numbers_fit(epoch_ms);
    let month = month_field(epoch_ms);
    let day = day_field(epoch_ms);
    let hours = hours_field(epoch_ms);
    let minutes = minutes_field(epoch_ms);
    let seconds = seconds_field(epoch_ms);
    let millis = millis_field(epoch_ms);
    lemma_field(date.0 as nat, 4, '-', month);
    lemma_field(date.1 as nat, 2, '-', day);
    lemma_field(date.2 as nat, 2, 'T', hours);
    lemma_field((second / 3_600) as nat, 2, ':', minutes);
    lemma_field((second % 3_600 / 60) as nat, 2, ':', seconds);
    lemma_field((second % 60) as nat, 2, '.', millis);
    lemma_field((epoch_ms % 1_000) as nat, 3, 'Z', seq![]);
    assert(all.skip(5) == month);
    assert(all.skip(8) =~= month.skip(3));
    assert(all.skip(11) =~= day.skip(3));
    assert(all.skip(14) =~= hours.skip(3));
    assert(all.skip(17) =~= minutes.skip(3));
    assert(all.skip(20) =~= seconds.skip(3));
    assert(all.subrange(5, 7) =~= month.subrange(0, 2));
    assert(all.subrange(8, 10) =~= day.subrange(0, 2));
    assert(all.subrange(11, 13) =~= hours.subrange(0, 2));
    assert(all.subrange(14, 16) =~= minutes.subrange(0, 2));
    assert(all.subrange(17, 19) =~= seconds.subrange(0, 2));
    assert(all.subrange(20, 23) =~= millis.subrange(0, 3));
    assert(all[5] == month[0] && all[6] == month[1] && all[7] == month[2]);
    assert(all[8] == day[0] && all[9] == day[1] && all[10] == day[2]);
    assert(all[11] == hours[0] && all[12] == hours[1] && all[13] == hours[2]);
    assert(all[14] == minutes[0] && all[15] == minutes[1] && all[16] == minutes[2]);
    assert(all[17] == seconds[0] && all[18] == seconds[1] && all[19] == seconds[2]);
    assert(all[20] == millis[0] && all[21] == millis[1] && all[22] == millis[2] && all[23]
        == millis[3]);
    assert(second / 3_600 * 3_600 + second % 3_600 / 60 * 60 + second % 60 == second);
}

/// Of two moments of one day, the earlier has the smaller numbers.
proof fn lemma_time_numbers(earlier: int, later: int)
    requires
        earlier < later,
        earlier / 1_000 / 86_400 == later / 1_000 / 86_400,
    ensures
        ({
            let (s, t) = (second_at(earlier), second_at(later));
            s < t || (s == t && earlier % 1_000 < later % 1_000)
        }),
{
}

proof fn lemma_clock_numbers(s: int, t: int)
    requires
        0 <= s < t < 86_400,
    ensures
        s / 3_600 < t / 3_600 || (s / 3_600 == t / 3_600 && (s % 3_600 / 60 < t % 3_600 / 60 || (s
            % 3_600 / 60 == t % 3_600 / 60 && s % 60 < t % 60))),
{
}

/// The times of one day sort as texts in their order.
proof fn lemma_times_sort(earlier: int, later: int)
    requires
        has_plain_year(earlier),
        has_plain_year(later),
        earlier < later,
        earlier / 1_000 / 86_400 == later / 1_000 / 86_400,
    ensures
        text::precedes(hours_field(earlier), hours_field(later)),
{
    lemma_numbers_fit(earlier);
    lemma_numbers_fit(later);
    let (s, t) = (second_at(earlier), second_at(later));
    lemma_time_numbers(earlier, later);
    if s < t {
        lemma_clock_numbers(s, t);
    } else {
        lemma_field_order(
            (earlier % 1_000) as nat,
            (later % 1_000) as nat,
            3,
            'Z',
            seq![],
            seq![],
        );
    }
    if s / 3_600 == t / 3_600 {
        if s % 3_600 / 60 == t % 3_600 / 60 {
            lemma_field_order(
                (s % 60) as nat,
                (t % 60) as nat,
                2,
                '.',
                millis_field(earlier),
                millis_field(later),
            );
        }
        lemma_field_order(
            (s % 3_600 / 60) as nat,
            (t % 3_600 / 60) as nat,
            2,
            ':',
            seconds_field(earlier),
            seconds_field(later),
        );
    }
    lemma_field_order(
        (s / 3_600) as nat,
        (t / 3_600) as nat,
        2,
        ':',
        minutes_field(earlier),
        minutes_field(later),
    );
}

/// Of two instants, the earlier has the earlier date, or both have the same.
proof fn lemma_date_numbers(earlier: int, later: int)
    requires
        has_plain_year(earlier),
        has_plain_year(later),
        earlier < later,
    ensures
        ({
            let (a, b) = (date_at(earlier), date_at(later));
            a.0 < b.0 || (a.0 == b.0 && (a.1 < b.1 || (a.1 == b.1 && (a.2 < b.2 || (a.2 == b.2
                && earlier / 1_000 / 86_400 == later / 1_000 / 86_400)))))
        }),
{
    lemma_numbers_fit(earlier);
    lemma_numbers_fit(later);
    let (a, b) = (date_at(earlier), date_at(later));
    assert(earlier / 1_000 / 86_400 <= later / 1_000 / 86_400);
    if b.0 < a.0 || (b.0 == a.0 && (b.1 < a.1 || (b.1 == a.1 && b.2 < a.2))) {
        calendar::later_dates_have_greater_day_numbers(b, a);
    }
}

/// Timestamps sort as texts in the order of their instants.
pub proof fn timestamps_sort_as_instants(earlier: int, later: int)
    requires
        has_plain_year(earlier),
        has_plain_year(later),
        earlier < later,
    ensures
        text::precedes(calendar::iso_text(earlier), calendar::iso_text(later)),
{
    lemma_fields(earlier);
    lemma_fields(later);
    lemma_numbers_fit(earlier);
    lemma_numbers_fit(later);
    lemma_date_numbers(earlier, later);
    let (a, b) = (date_at(earlier), date_at(later));
    if a.0 == b.0 {
        if a.1 == b.1 {
            if a.2 == b.2 {
                lemma_times_sort(earlier, later);
            }
            lemma_field_order(
                a.2 as nat,
                b.2 as nat,
                2,
                'T',
                hours_field(earlier),
                hours_field(later),
            );
        }
        lemma_field_order(
            a.1 as nat,
            b.1 as nat,
            2,
            '-',
            day_field(earlier),
            day_field(later),
        );
    }
    lemma_field_order(
        a.0 as nat,
        b.0 as nat,
        4,
        '-',
        month_field(earlier),
        month_field(later),
    );
}

} // verus!
