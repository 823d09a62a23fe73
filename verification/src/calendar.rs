//! Proleptic Gregorian dates for timestamps and generated names.
//!
//! A date is judged by counting: the day number of a date is the number of
//! days of the whole years and months before it, relative to 1970-01-01.
use vstd::prelude::*;

use crate::text;
use crate::text::{push_padded, push_signed_padded};

verus! {

/// Whether `year` has a 29 February.
pub open spec fn is_leap(year: int) -> bool {
    year % 4 == 0 && (year % 100 != 0 || year % 400 == 0)
}

pub open spec fn year_length(year: int) -> int {
    if is_leap(year) {
        366
    } else {
        365
    }
}

pub open spec fn month_length(year: int, month: int) -> int {
    if month == 2 {
        if is_leap(year) {
            29
        } else {
            28
        }
    } else if month == 4 || month == 6 || month == 9 || month == 11 {
        30
    } else {
        31
    }
}

/// Days from 1970-01-01 to the first of January of `year`, counted year by
/// year.
pub open spec fn year_start(year: int) -> int
    decreases
            (if year >= 1970 {
                year - 1970
            } else {
                1970 - year
            }),
{
    if year == 1970 {
        0
    } else if year > 1970 {
        year_start(year - 1) + year_length(year - 1)
    } else {
        year_start(year + 1) - year_length(year)
    }
}

/// Days of `year` before the first of `month`, counted month by month.
pub open spec fn month_start(year: int, month: int) -> int
    decreases month,
{
    if month <= 1 {
        0
    } else {
        month_start(year, month - 1) + month_length(year, month - 1)
    }
}

/// Whether `date`, as year, month and day, exists in the calendar.
pub open spec fn is_date(date: (int, int, int)) -> bool {
    &&& 1 <= date.1 <= 12
    &&& 1 <= date.2 <= month_length(date.0, date.1)
}

/// The number of days from 1970-01-01 to `date`.
pub open spec fn day_number(date: (int, int, int)) -> int {
    year_start(date.0) + month_start(date.0, date.1) + date.2 - 1
}

/// The leap days in the years up to and including `year`, up to a constant.
spec fn leap_days(year: int) -> int {
    year / 4 - year / 100 + year / 400
}

proof fn lemma_leap_step(year: int)
    ensures
        leap_days(year) == leap_days(year - 1) + (if is_leap(year) {
            1int
        } else {
            0
        }),
{
}

proof fn lemma_year_start(year: int)
    ensures
        year_start(year) == 365 * (year - 1970) + leap_days(year - 1) - 477,
    decreases
            (if year >= 1970 {
                year - 1970
            } else {
                1970 - year
            }),
{
    if year > 1970 {
        lemma_year_start(year - 1);
        lemma_leap_step(year - 1);
    } else if year < 1970 {
        lemma_year_start(year + 1);
        lemma_leap_step(year);
    }
}

/// The year of a 400-year era that `day` of the era falls into, where years
/// begin in March, and the day of that year.
proof fn lemma_year_of_era(day: int, year: int)
    requires
        0 <= day <= 146_096,
        year == (day - day / 1_460 + day / 36_524 - day / 146_096) / 365,
    ensures
        0 <= year <= 399,
        0 <= day - (365 * year + year / 4 - year / 100) <= 365,
        day - (365 * year + year / 4 - year / 100) == 365 ==> (year + 1) % 4 == 0 && ((year + 1)
            % 100 != 0 || (year + 1) % 400 == 0),
{
    let century = if day == 146_096 {
        3
    } else {
        day / 36_524
    };
    let in_century = day - 36_524 * century;
    let quad = in_century / 1_461;
    let in_quad = in_century % 1_461;
    let single = if in_quad == 1_460 {
        3
    } else {
        in_quad / 365
    };
    let early = (24 * century + quad + in_quad) / 1_460;
    assert(0 <= century <= 3);
    assert(0 <= in_century <= 36_524);
    assert(0 <= quad <= 24);
    assert(0 <= early <= 1);
    assert(day == 1_460 * (25 * century + quad) + (24 * century + quad + in_quad));
    assert(day / 1_460 == 25 * century + quad + early);
    assert(year == (36_500 * century + 1_460 * quad + in_quad - early) / 365);
    assert(year == 100 * century + 4 * quad + single);
    assert(year / 4 == 25 * century + quad);
    assert(year / 100 == century);
}

/// The month and day of a March-based day of the year.
proof fn lemma_month_of_year(day: int, month: int)
    requires
        0 <= day <= 365,
        month == (5 * day + 2) / 153,
    ensures
        0 <= month <= 11,
        0 <= day - (153 * month + 2) / 5 <= 30,
        month == 1 || month == 3 || month == 6 || month == 8 ==> day - (153 * month + 2) / 5 <= 29,
        month == 11 ==> day - (153 * month + 2) / 5 == day - 337,
        (153 * month + 2) / 5 == march_offset(month),
{
}

/// Days from the first of March to the first of the month that comes `month`
/// months later.
spec fn march_offset(month: int) -> int {
    if month == 0 {
        0
    } else if month == 1 {
        31
    } else if month == 2 {
        61
    } else if month == 3 {
        92
    } else if month == 4 {
        122
    } else if month == 5 {
        153
    } else if month == 6 {
        184
    } else if month == 7 {
        214
    } else if month == 8 {
        245
    } else if month == 9 {
        275
    } else if month == 10 {
        306
    } else {
        337
    }
}

/// Where each month begins in a year, spelled out.
proof fn lemma_month_starts(year: int)
    ensures
        ({
            let leap: int = if is_leap(year) {
                1
            } else {
                0
            };
            &&& month_start(year, 1) == 0
            &&& month_start(year, 2) == 31
            &&& month_start(year, 3) == 59 + leap
            &&& month_start(year, 4) == 90 + leap
            &&& month_start(year, 5) == 120 + leap
            &&& month_start(year, 6) == 151 + leap
            &&& month_start(year, 7) == 181 + leap
            &&& month_start(year, 8) == 212 + leap
            &&& month_start(year, 9) == 243 + leap
            &&& month_start(year, 10) == 273 + leap
            &&& month_start(year, 11) == 304 + leap
            &&& month_start(year, 12) == 334 + leap
            &&& month_start(year, 13) == 365 + leap
        }),
{
    reveal_with_fuel(month_start, 13);
}

proof fn lemma_era_leap_days(era: int, year_of_era: int)
    requires
        0 <= year_of_era <= 399,
    ensures
        leap_days(year_of_era + era * 400) == year_of_era / 4 - year_of_era / 100 + 97 * era,
        is_leap(year_of_era + 1 + era * 400) == is_leap(year_of_era + 1),
{
    let year = year_of_era + era * 400;
    assert(year / 4 == year_of_era / 4 + 100 * era);
    assert(year / 100 == year_of_era / 100 + 4 * era);
    assert(year / 400 == era);
    assert((year + 1) % 4 == (year_of_era + 1) % 4);
    assert((year + 1) % 100 == (year_of_era + 1) % 100);
    assert((year + 1) % 400 == (year_of_era + 1) % 400);
}

/// Counting from the first of March of `year` agrees with counting from the
/// first of January.
proof fn lemma_march_based(year: int, day_of_year: int, month_prime: int)
    requires
        0 <= day_of_year <= 365,
        day_of_year == 365 ==> is_leap(year + 1),
        month_prime == (5 * day_of_year + 2) / 153,
    ensures
        ({
            let day = day_of_year - (153 * month_prime + 2) / 5 + 1;
            let month = if month_prime < 10 {
                month_prime + 3
            } else {
                month_prime - 9
            };
            let civil_year = if month <= 2 {
                year + 1
            } else {
                year
            };
            &&& 0 <= month_prime <= 11
            &&& is_date((civil_year, month, day))
            &&& day_number((civil_year, month, day)) == 365 * year + leap_days(year) - 719_468
                + day_of_year
        }),
{
    lemma_month_of_year(day_of_year, month_prime);
    lemma_year_start(year);
    lemma_year_start(year + 1);
    lemma_month_starts(year);
    lemma_month_starts(year + 1);
    lemma_leap_step(year);
}

/// The quotient rounded towards negative infinity.
pub fn floor_div(n: i64, d: i64) -> (q: i64)
    requires
        d > 0,
    ensures
        q == n as int / d as int,
{
    assert(i64::MIN <= n as int / d as int <= i64::MAX) by (nonlinear_arith)
        requires
            d > 0,
            i64::MIN <= n <= i64::MAX,
    ;
    match n.checked_div_euclid(d) {
        Some(q) => q,
        None => 0,
    }
}

/// The remainder that goes with `floor_div`.
pub fn floor_mod(n: i64, d: i64) -> (r: i64)
    requires
        d > 0,
    ensures
        r == n as int % d as int,
        0 <= r < d,
{
    match n.checked_rem_euclid(d) {
        Some(r) => r,
        None => 0,
    }
}

/// The date that lies `days` days after 1970-01-01 (Howard Hinnant's
/// civil-from-days algorithm).
pub fn civil_from_days(days: i64) -> (date: (i64, i64, i64))
    requires
        days <= i64::MAX - 719_468,
    ensures
        is_date((date.0 as int, date.1 as int, date.2 as int)),
        day_number((date.0 as int, date.1 as int, date.2 as int)) == days,
{
    let days_from_march: i64 = days + 719_468;
    let era: i64 = floor_div(days_from_march, 146_097);
    let day_of_era: i64 = days_from_march - era * 146_097;
    let year_of_era: i64 = (day_of_era - day_of_era / 1_460 + day_of_era / 36_524 - day_of_era
        / 146_096) / 365;
    proof {
        lemma_year_of_era(day_of_era as int, year_of_era as int);
    }
    let year: i64 = year_of_era + era * 400;
    let day_of_year: i64 = day_of_era - (365 * year_of_era + year_of_era / 4 - year_of_era / 100);
    let month_prime: i64 = (5 * day_of_year + 2) / 153;
    proof {
        lemma_era_leap_days(era as int, year_of_era as int);
        lemma_march_based(year as int, day_of_year as int, month_prime as int);
    }
    let day: i64 = day_of_year - (153 * month_prime + 2) / 5 + 1;
    let month: i64 = if month_prime < 10 {
        month_prime + 3
    } else {
        month_prime - 9
    };
    let civil_year: i64 = if month <= 2 {
        year + 1
    } else {
        year
    };
    (civil_year, month, day)
}

proof fn lemma_years_ordered(earlier: int, later: int)
    requires
        earlier < later,
    ensures
        year_start(earlier) + year_length(earlier) <= year_start(later),
    decreases later - earlier,
{
    lemma_year_start(earlier);
    lemma_year_start(earlier + 1);
    lemma_leap_step(earlier);
    if earlier + 1 < later {
        lemma_years_ordered(earlier + 1, later);
    }
}

proof fn lemma_months_ordered(year: int, earlier: int, later: int)
    requires
        1 <= earlier < later,
    ensures
        month_start(year, earlier) + month_length(year, earlier) <= month_start(year, later),
    decreases later - earlier,
{
    if earlier + 1 < later {
        lemma_months_ordered(year, earlier, later - 1);
    }
}

/// Later dates have greater day numbers: the calendar is in step with the
/// count of days.
pub proof fn later_dates_have_greater_day_numbers(
    earlier: (int, int, int),
    later: (int, int, int),
)
    requires
        is_date(earlier),
        is_date(later),
        earlier.0 < later.0 || (earlier.0 == later.0 && (earlier.1 < later.1 || (earlier.1
            == later.1 && earlier.2 < later.2))),
    ensures
        day_number(earlier) < day_number(later),
{
    lemma_month_starts(earlier.0);
    lemma_month_starts(later.0);
    if earlier.0 < later.0 {
        lemma_years_ordered(earlier.0, later.0);
        if earlier.1 < 12 {
            lemma_months_ordered(earlier.0, earlier.1, 13);
        }
        if later.1 > 1 {
            lemma_months_ordered(later.0, 1, later.1);
        }
    } else if earlier.1 < later.1 {
        lemma_months_ordered(earlier.0, earlier.1, later.1);
    }
}

/// A day number names one date: no two dates share it.
pub proof fn day_numbers_are_unique(a: (int, int, int), b: (int, int, int))
    requires
        is_date(a),
        is_date(b),
        day_number(a) == day_number(b),
    ensures
        a == b,
{
    if a.0 < b.0 || (a.0 == b.0 && (a.1 < b.1 || (a.1 == b.1 && a.2 < b.2))) {
        later_dates_have_greater_day_numbers(a, b);
    } else if a != b {
        later_dates_have_greater_day_numbers(b, a);
    }
}

/// The date that lies `days` days after 1970-01-01.
pub open spec fn date_of(days: int) -> (int, int, int) {
    choose|date: (int, int, int)| is_date(date) && #[trigger] day_number(date) == days
}

/// Every day has a date, and its day number is that day.
pub proof fn every_day_has_a_date(days: int)
    ensures
        is_date(date_of(days)),
        day_number(date_of(days)) == days,
{
    let from_march = days + 719_468;
    let era = from_march / 146_097;
    let day_of_era = from_march % 146_097;
    let year_of_era = (day_of_era - day_of_era / 1_460 + day_of_era / 36_524 - day_of_era
        / 146_096) / 365;
    lemma_year_of_era(day_of_era, year_of_era);
    lemma_era_leap_days(era, year_of_era);
    let year = year_of_era + era * 400;
    let day_of_year = day_of_era - (365 * year_of_era + year_of_era / 4 - year_of_era / 100);
    let month_prime = (5 * day_of_year + 2) / 153;
    lemma_march_based(year, day_of_year, month_prime);
    let day = day_of_year - (153 * month_prime + 2) / 5 + 1;
    let month = if month_prime < 10 {
        month_prime + 3
    } else {
        month_prime - 9
    };
    let civil_year = if month <= 2 {
        year + 1
    } else {
        year
    };
    assert(day_number((civil_year, month, day)) == days);
}

/// The days from 0000-01-01 to 9999-12-31 have years of four digits.
pub proof fn four_digits_are_enough(days: int)
    requires
        -719_528 <= days <= 2_932_896,
    ensures
        0 <= date_of(days).0 <= 9_999,
{
    every_day_has_a_date(days);
    let date = date_of(days);
    lemma_year_start(0);
    lemma_year_start(10_000);
    lemma_month_starts(date.0);
    if date.1 < 12 {
        lemma_months_ordered(date.0, date.1, 13);
    }
    if date.1 > 1 {
        lemma_months_ordered(date.0, 1, date.1);
    }
    if date.0 < 0 {
        lemma_years_ordered(date.0, 0);
    } else if date.0 > 9_999 {
        if date.0 > 10_000 {
            lemma_years_ordered(10_000, date.0);
        }
    }
}

/// What `civil_from_days` returns is `date_of` its argument.
proof fn lemma_date_of(days: int, date: (int, int, int))
    requires
        is_date(date),
        day_number(date) == days,
    ensures
        date_of(days) == date,
{
    every_day_has_a_date(days);
    day_numbers_are_unique(date, date_of(days));
}

/// A year as `Date.prototype.toISOString` writes it: four digits, or a sign
/// and six digits outside the years 0 to 9999.
pub open spec fn iso_year(year: int) -> Seq<char> {
    if 0 <= year <= 9_999 {
        text::padded(year as nat, 4)
    } else if year < 0 {
        seq!['-'] + text::padded((-year) as nat, 6)
    } else {
        seq!['+'] + text::padded(year as nat, 6)
    }
}

/// The time of `of_day` seconds after midnight as hours, minutes and seconds
/// of two digits, with `separator` between them.
pub open spec fn clock(of_day: int, separator: char) -> Seq<char> {
    text::padded((of_day / 3_600) as nat, 2).push(separator) + text::padded((of_day % 3_600 / 60) as nat, 2).push(
        separator,
    ) + text::padded((of_day % 60) as nat, 2)
}

/// `-MM-DD`.
pub open spec fn month_and_day(date: (int, int, int)) -> Seq<char> {
    seq!['-'] + text::padded(date.1 as nat, 2).push('-') + text::padded(date.2 as nat, 2)
}

/// The ISO 8601 form of an instant in milliseconds since the Unix epoch.
pub open spec fn iso_text(epoch_ms: int) -> Seq<char> {
    let seconds = epoch_ms / 1_000;
    let date = date_of(seconds / 86_400);
    (iso_year(date.0) + month_and_day(date)).push('T') + clock(seconds % 86_400, ':').push('.')
        + text::padded((epoch_ms % 1_000) as nat, 3).push('Z')
}

fn push_month_and_day(out: &mut String, month: i64, day: i64)
    requires
        month >= 0,
        day >= 0,
    ensures
        final(out)@ == old(out)@ + month_and_day((0, month as int, day as int)),
{
    out.push('-');
    push_padded(out, month as u64, 2);
    out.push('-');
    push_padded(out, day as u64, 2);
}

fn push_clock(out: &mut String, of_day: i64, separator: char)
    requires
        of_day >= 0,
    ensures
        final(out)@ == old(out)@ + clock(of_day as int, separator),
{
    push_padded(out, (of_day / 3_600) as u64, 2);
    out.push(separator);
    push_padded(out, (of_day % 3_600 / 60) as u64, 2);
    out.push(separator);
    push_padded(out, (of_day % 60) as u64, 2);
}

/// `Date.prototype.toISOString` for a Unix-epoch millisecond value.
pub fn iso_timestamp(epoch_ms: i64) -> (text: String)
    ensures
        text@ == iso_text(epoch_ms as int),
{
    let seconds: i64 = floor_div(epoch_ms, 1_000);
    let millis: i64 = floor_mod(epoch_ms, 1_000);
    let days: i64 = floor_div(seconds, 86_400);
    let (year, month, day) = civil_from_days(days);
    let of_day: i64 = floor_mod(seconds, 86_400);
    proof {
        lemma_date_of(days as int, (year as int, month as int, day as int));
    }
    let mut out = String::new();
    if 0 <= year && year <= 9_999 {
        push_padded(&mut out, year as u64, 4);
    } else if year < 0 {
        out.push('-');
        push_padded(&mut out, (-(year as i128)) as u64, 6);
    } else {
        out.push('+');
        push_padded(&mut out, year as u64, 6);
    }
    assert(out@ == iso_year(year as int));
    push_month_and_day(&mut out, month, day);
    out.push('T');
    push_clock(&mut out, of_day, ':');
    out.push('.');
    push_padded(&mut out, millis as u64, 3);
    out.push('Z');
    out
}

/// The instant `epoch_ms` on a clock that is `utc_offset_minutes` ahead of
/// UTC, as `YYYY-MM-DD HH-MM-SS`.
pub open spec fn local_stamp(epoch_ms: int, utc_offset_minutes: int) -> Seq<char> {
    let seconds = epoch_ms / 1_000 + utc_offset_minutes * 60;
    let date = date_of(seconds / 86_400);
    (text::signed_padded(date.0, 4) + month_and_day(date)).push(' ') + clock(seconds % 86_400, '-')
}

/// `YYYY-MM-DD HH-MM-SS` in the supplied local offset.
pub fn format_local_stamp(epoch_ms: i64, utc_offset_minutes: i32) -> (text: String)
    ensures
        text@ == local_stamp(epoch_ms as int, utc_offset_minutes as int),
{
    let seconds: i64 = floor_div(epoch_ms, 1_000) + utc_offset_minutes as i64 * 60;
    let days: i64 = floor_div(seconds, 86_400);
    let of_day: i64 = floor_mod(seconds, 86_400);
    let (year, month, day) = civil_from_days(days);
    proof {
        lemma_date_of(days as int, (year as int, month as int, day as int));
    }
    let mut out = String::new();
    push_signed_padded(&mut out, year, 4);
    push_month_and_day(&mut out, month, day);
    out.push(' ');
    push_clock(&mut out, of_day, '-');
    out
}

/// The calendar year of an instant, in UTC; instants before 1970 count as
/// 1970.
pub fn year_of(epoch_ms: i64) -> (year: i32)
    ensures
        epoch_ms >= 0 ==> year == date_of(epoch_ms as int / 86_400_000).0,
        epoch_ms < 0 ==> year == 1970,
{
    let days: i64 = floor_div(epoch_ms, 86_400_000);
    let mut year: i32 = 1970;
    let mut remaining: i64 = days;
    loop
        invariant
            days == epoch_ms as int / 86_400_000,
            1970 <= year,
            remaining == days - year_start(year as int),
            epoch_ms >= 0 ==> remaining >= 0,
            epoch_ms < 0 ==> year == 1970 && remaining < 0,
            365 * (year - 1970) <= year_start(year as int),
        decreases remaining + 1,
    {
        let length: i64 = days_in_year(year);
        proof {
            lemma_next_year(year as int);
        }
        if remaining < length {
            proof {
                if epoch_ms >= 0 {
                    lemma_year_of_day(days as int, year as int);
                }
            }
            return year;
        }
        remaining = remaining - length;
        year = year + 1;
    }
}

fn days_in_year(year: i32) -> (length: i64)
    requires
        year >= 1970,
    ensures
        length == year_length(year as int),
{
    if (year % 4 == 0 && year % 100 != 0) || year % 400 == 0 {
        366
    } else {
        365
    }
}

proof fn lemma_next_year(year: int)
    requires
        year >= 1970,
    ensures
        year_start(year + 1) == year_start(year) + year_length(year),
        365 <= year_length(year) <= 366,
{
}

proof fn lemma_year_of_day(days: int, year: int)
    requires
        year_start(year) <= days < year_start(year) + year_length(year),
    ensures
        date_of(days).0 == year,
{
    every_day_has_a_date(days);
    let date = date_of(days);
    lemma_month_starts(date.0);
    if date.1 < 12 {
        lemma_months_ordered(date.0, date.1, 13);
    }
    if date.1 > 1 {
        lemma_months_ordered(date.0, 1, date.1);
    }
    if date.0 < year {
        lemma_years_ordered(date.0, year);
    } else if year < date.0 {
        lemma_years_ordered(year, date.0);
    }
}

} // verus!
