//! Durations and UTC moments as callers write and read them.

use vstd::prelude::*;

use crate::text::{
    all_digits, chars_of, decimal, decimal_text, digits_value, find_char, first_index, is_digit,
    lemma_decimal_denotes, lemma_first_index_is, lemma_split_last, lemma_split_whole, parse_digits,
    part_views, push_char, same, split_chars, split_on, text_of, told,
};

verus! {

/// Whether a year of the proleptic Gregorian calendar has a 29 February.
pub open spec fn is_leap(year: int) -> bool {
    year % 4 == 0 && (year % 100 != 0 || year % 400 == 0)
}

/// How many leap years there are from year 1 through `year`.
pub open spec fn leap_years(year: int) -> int {
    year / 4 - year / 100 + year / 400
}

/// How many days of a common year come before a month.
pub open spec fn days_before_month(month: int) -> int {
    if month == 1 {
        0
    } else if month == 2 {
        31
    } else if month == 3 {
        59
    } else if month == 4 {
        90
    } else if month == 5 {
        120
    } else if month == 6 {
        151
    } else if month == 7 {
        181
    } else if month == 8 {
        212
    } else if month == 9 {
        243
    } else if month == 10 {
        273
    } else if month == 11 {
        304
    } else {
        334
    }
}

/// How many days a month has.
pub open spec fn days_in_month(year: int, month: int) -> int {
    if month == 2 {
        if is_leap(year) {
            29
        } else {
            28
        }
    } else if month == 4 || month == 6 || month == 9 || month == 11 {
        30
    } else {
        31
    }
}

/// Whether a date is one of the calendar.
pub open spec fn is_date(year: int, month: int, day: int) -> bool {
    1 <= month <= 12 && 1 <= day <= days_in_month(year, month)
}

/// Days since 1970-01-01 for a date of the proleptic Gregorian calendar.
pub open spec fn epoch_day(year: int, month: int, day: int) -> int {
    365 * (year - 1970) + leap_years(year - 1) - leap_years(1969) + days_before_month(month) + (
    if month > 2 && is_leap(year) {
        1int
    } else {
        0
    }) + day - 1
}

proof fn lemma_leap_step(year: int)
    ensures
        leap_years(year) == leap_years(year - 1) + (if is_leap(year) {
            1int
        } else {
            0
        }),
{
    assert(year / 4 == (year - 1) / 4 + (if year % 4 == 0 {
        1int
    } else {
        0
    }));
    assert(year / 100 == (year - 1) / 100 + (if year % 100 == 0 {
        1int
    } else {
        0
    }));
    assert(year / 400 == (year - 1) / 400 + (if year % 400 == 0 {
        1int
    } else {
        0
    }));
    assert(year % 400 == 0 ==> year % 100 == 0);
    assert(year % 100 == 0 ==> year % 4 == 0);
}

proof fn lemma_leap_years_by_era(era: int, year_of_era: int)
    requires
        0 <= year_of_era < 400,
    ensures
        leap_years(era * 400 + year_of_era) == era * 97 + year_of_era / 4 - year_of_era / 100,
{
    let year = era * 400 + year_of_era;
    assert(year / 4 == era * 100 + year_of_era / 4);
    assert(year / 100 == era * 4 + year_of_era / 100);
    assert(year / 400 == era);
}

/// The day count through March-based years: an era of 400 years has 146097 days.
pub open spec fn march_day(era: int, year_of_era: int, day_of_year: int) -> int {
    era * 146_097 + year_of_era * 365 + year_of_era / 4 - year_of_era / 100 + day_of_year - 719_468
}

proof fn lemma_march_day(year: int, month: int, day: int)
    requires
        1 <= month <= 12,
    ensures
        ({
            let shifted = if month <= 2 {
                year - 1
            } else {
                year
            };
            let march_month = if month > 2 {
                month - 3
            } else {
                month + 9
            };
            epoch_day(year, month, day) == march_day(
                shifted / 400,
                shifted % 400,
                (153 * march_month + 2) / 5 + day - 1,
            )
        }),
{
    let shifted = if month <= 2 {
        year - 1
    } else {
        year
    };
    let era = shifted / 400;
    let year_of_era = shifted % 400;
    assert(shifted == era * 400 + year_of_era);
    lemma_leap_years_by_era(era, year_of_era);
    lemma_leap_step(year);
    assert(leap_years(1969) == 477);
}

/// Days since 1970-01-01 for a proleptic Gregorian date.
///
/// Hinnant's `days_from_civil`, which handles leap years and centuries without
/// a calendar dependency.
pub fn days_from_civil(year: i64, month: i64, day: i64) -> (days: i128)
    requires
        1 <= month <= 12,
        1 <= day <= 31,
    ensures
        days == epoch_day(year as int, month as int, day as int),
{
    let shifted: i128 = if month <= 2 {
        year as i128 - 1
    } else {
        year as i128
    };
    let era: i128 = if shifted >= 0 {
        shifted / 400
    } else {
        (shifted - 399) / 400
    };
    let year_of_era: i128 = shifted - era * 400;
    proof {
        assert(era == shifted as int / 400);
        assert(year_of_era == shifted as int % 400);
        lemma_march_day(year as int, month as int, day as int);
    }
    let march_month: i128 = if month > 2 {
        month as i128 - 3
    } else {
        month as i128 + 9
    };
    let day_of_year: i128 = (153 * march_month + 2) / 5 + day as i128 - 1;
    let day_of_era: i128 = year_of_era * 365 + year_of_era / 4 - year_of_era / 100 + day_of_year;
    era * 146_097 + day_of_era - 719_468
}

/// The year of an era that a day of it falls in.
pub open spec fn year_of_day(day_of_era: int) -> int {
    (day_of_era - day_of_era / 1460 + day_of_era / 36_524 - day_of_era / 146_096) / 365
}

/// The date that is a number of days after 1970-01-01, as year, month and day.
pub open spec fn civil(days: int) -> (int, int, int) {
    let z = days + 719_468;
    let era = z / 146_097;
    let day_of_era = z % 146_097;
    let year_of_era = year_of_day(day_of_era);
    let day_of_year = day_of_era - (365 * year_of_era + year_of_era / 4 - year_of_era / 100);
    let march_month = (5 * day_of_year + 2) / 153;
    let month = if march_month < 10 {
        march_month + 3
    } else {
        march_month - 9
    };
    (
        year_of_era + era * 400 + (if month <= 2 {
            1int
        } else {
            0
        }),
        month,
        day_of_year - (153 * march_month + 2) / 5 + 1,
    )
}

proof fn lemma_year_of_day(day_of_era: int)
    requires
        0 <= day_of_era < 146_097,
    ensures
        ({
            let y = year_of_day(day_of_era);
            let start = 365 * y + y / 4 - y / 100;
            &&& 0 <= y < 400
            &&& start <= day_of_era <= start + 365
            &&& day_of_era == start + 365 ==> ((y + 1) % 4 == 0 && ((y + 1) % 100 != 0 || (y + 1)
                % 400 == 0))
        }),
{
}

proof fn lemma_march_month(day_of_year: int)
    requires
        0 <= day_of_year <= 365,
    ensures
        ({
            let m = (5 * day_of_year + 2) / 153;
            let day = day_of_year - (153 * m + 2) / 5 + 1;
            &&& 0 <= m <= 11
            &&& 1 <= day <= 31
            &&& (m == 1 || m == 3 || m == 6 || m == 8) ==> day <= 30
            &&& m == 11 ==> day <= 29
            &&& m == 11 && day == 29 ==> day_of_year == 365
        }),
{
}

#[verifier::spinoff_prover]
proof fn lemma_leap_by_era(era: int, year_of_era: int)
    ensures
        is_leap(era * 400 + year_of_era) == is_leap(year_of_era),
{
    let year = era * 400 + year_of_era;
    assert(year % 4 == year_of_era % 4);
    assert(year % 100 == year_of_era % 100);
    assert(year % 400 == year_of_era % 400);
}

/// The date of a day is one of the calendar, and counting its days gives the day
/// back.
pub proof fn law_civil_is_the_date_of_its_day(days: int)
    ensures
        ({
            let (year, month, day) = civil(days);
            is_date(year, month, day) && epoch_day(year, month, day) == days
        }),
{
    let z = days + 719_468;
    let era = z / 146_097;
    let day_of_era = z % 146_097;
    lemma_year_of_day(day_of_era);
    let y = year_of_day(day_of_era);
    let day_of_year = day_of_era - (365 * y + y / 4 - y / 100);
    lemma_march_month(day_of_year);
    let march_month = (5 * day_of_year + 2) / 153;
    let (year, month, day) = civil(days);
    lemma_civil_parts(days);
    lemma_march_day(year, month, day);
    lemma_leap_by_era(era, y + 1);
}

/// The parts of a date, from the era, the year of the era and the day of the year.
proof fn lemma_civil_parts(days: int)
    ensures
        ({
            let z = days + 719_468;
            let era = z / 146_097;
            let day_of_era = z % 146_097;
            let y = year_of_day(day_of_era);
            let day_of_year = day_of_era - (365 * y + y / 4 - y / 100);
            let march_month = (5 * day_of_year + 2) / 153;
            let (year, month, day) = civil(days);
            let shifted = if month <= 2 {
                year - 1
            } else {
                year
            };
            &&& 1 <= month <= 12
            &&& march_month == (if month > 2 {
                month - 3
            } else {
                month + 9
            })
            &&& shifted == era * 400 + y
            &&& shifted / 400 == era
            &&& shifted % 400 == y
            &&& z == era * 146_097 + day_of_era
            &&& day == day_of_year - (153 * march_month + 2) / 5 + 1
        }),
{
    let z = days + 719_468;
    let day_of_era = z % 146_097;
    lemma_year_of_day(day_of_era);
    let y = year_of_day(day_of_era);
    let day_of_year = day_of_era - (365 * y + y / 4 - y / 100);
    lemma_march_month(day_of_year);
}

proof fn lemma_days_before_year(year: int)
    ensures
        epoch_day(year + 1, 1, 1) == epoch_day(year, 1, 1) + (if is_leap(year) {
            366int
        } else {
            365
        }),
{
    lemma_leap_step(year);
}

proof fn lemma_date_within_year(year: int, month: int, day: int)
    requires
        is_date(year, month, day),
    ensures
        epoch_day(year, 1, 1) <= epoch_day(year, month, day) < epoch_day(year + 1, 1, 1),
{
    lemma_days_before_year(year);
}

proof fn lemma_year_order(a: int, b: int)
    requires
        a <= b,
    ensures
        epoch_day(a, 1, 1) <= epoch_day(b, 1, 1),
    decreases b - a,
{
    if a < b {
        lemma_year_order(a, b - 1);
        lemma_days_before_year(b - 1);
    }
}

/// Two dates of the calendar on the same day are the same date.
pub proof fn law_dates_of_one_day_agree(y1: int, m1: int, d1: int, y2: int, m2: int, d2: int)
    requires
        is_date(y1, m1, d1),
        is_date(y2, m2, d2),
        epoch_day(y1, m1, d1) == epoch_day(y2, m2, d2),
    ensures
        y1 == y2 && m1 == m2 && d1 == d2,
{
    lemma_date_within_year(y1, m1, d1);
    lemma_date_within_year(y2, m2, d2);
    if y1 < y2 {
        lemma_year_order(y1 + 1, y2);
    } else if y2 < y1 {
        lemma_year_order(y2 + 1, y1);
    }
}

/// `count` zeros.
pub open spec fn zeros(count: nat) -> Seq<char> {
    Seq::new(count, |i: int| '0')
}

/// A number with zeros in front, up to a width.
pub open spec fn padded(n: nat, width: nat) -> Seq<char> {
    let digits = decimal_text(n);
    if digits.len() < width {
        zeros((width - digits.len()) as nat) + digits
    } else {
        digits
    }
}

/// A signed number with zeros between its sign and its digits, up to a width.
pub open spec fn padded_int(n: int, width: nat) -> Seq<char> {
    if n < 0 {
        seq!['-'] + padded((-n) as nat, (width - 1) as nat)
    } else {
        padded(n as nat, width)
    }
}

/// A moment as a UTC timestamp, cut to whole seconds.
pub open spec fn utc_text(ms: int) -> Seq<char> {
    let (year, month, day) = civil(ms / 86_400_000);
    let of_day = ms % 86_400_000;
    padded_int(year, 4) + "-"@ + padded(month as nat, 2) + "-"@ + padded(day as nat, 2) + "T"@
        + padded((of_day / 3_600_000) as nat, 2) + ":"@ + padded(
        (of_day / 60_000 % 60) as nat,
        2,
    ) + ":"@ + padded((of_day / 1000 % 60) as nat, 2) + "Z"@
}

/// A number with zeros in front, up to a width.
fn pad(n: u64, width: usize) -> (text: String)
    ensures
        text@ == padded(n as nat, width as nat),
{
    let digits = decimal(n);
    let length = digits.as_str().unicode_len();
    if length >= width {
        return digits;
    }
    let mut text = String::new();
    let mut i: usize = 0;
    while i < width - length
        invariant
            i <= width - length,
            length < width,
            text@ == zeros(i as nat),
        decreases width - length - i,
    {
        push_char(&mut text, '0');
        i = i + 1;
        assert(text@ =~= zeros(i as nat));
    }
    text.concat(digits.as_str())
}

/// Flooring a negative number through the number one below zero.
proof fn lemma_floor(n: int, d: int)
    requires
        d > 0,
    ensures
        n < 0 ==> n / d == -1 - (-1 - n) / d,
        n < 0 ==> n % d == d - 1 - (-1 - n) % d,
{
    if n < 0 {
        let q = (-1 - n) / d;
        let r = (-1 - n) % d;
        vstd::arithmetic::div_mod::lemma_fundamental_div_mod(-1 - n, d);
        vstd::arithmetic::div_mod::lemma_mod_bound(-1 - n, d);
        assert(n == (-1 - q) * d + (d - 1 - r)) by (nonlinear_arith)
            requires
                -1 - n == d * q + r,
        ;
        vstd::arithmetic::div_mod::lemma_fundamental_div_mod_converse(n, d, -1 - q, d - 1 - r);
    }
}

/// Render epoch milliseconds as a UTC timestamp, the inverse of `--due-at`.
///
/// Receipts show the moment, not the epoch, because a scheduled delivery is the
/// one outcome a reader is most likely to mistake for a completed one.
pub fn format_utc_ms(ms: i64) -> (text: String)
    ensures
        text@ == utc_text(ms as int),
{
    let day_length: i64 = 86_400_000;
    let days: i64 = if ms >= 0 {
        ms / day_length
    } else {
        -1 - (-1 - ms) / day_length
    };
    let of_day: i64 = if ms >= 0 {
        ms % day_length
    } else {
        day_length - 1 - (-1 - ms) % day_length
    };
    proof {
        lemma_floor(ms as int, 86_400_000);
        assert(days == ms as int / 86_400_000);
        assert(of_day == ms as int % 86_400_000);
    }
    // Inverse of days_from_civil (Howard Hinnant's civil_from_days).
    let z: i64 = days + 719_468;
    let era: i64 = if z >= 0 {
        z / 146_097
    } else {
        (z - 146_096) / 146_097
    };
    let day_of_era: i64 = z - era * 146_097;
    proof {
        assert(era == z as int / 146_097);
        assert(day_of_era == z as int % 146_097);
        lemma_year_of_day(day_of_era as int);
        lemma_civil_parts(days as int);
    }
    let year_of_era: i64 = (day_of_era - day_of_era / 1460 + day_of_era / 36_524 - day_of_era
        / 146_096) / 365;
    let day_of_year: i64 = day_of_era - (365 * year_of_era + year_of_era / 4 - year_of_era / 100);
    proof {
        lemma_march_month(day_of_year as int);
    }
    let march_month: i64 = (5 * day_of_year + 2) / 153;
    let day: i64 = day_of_year - (153 * march_month + 2) / 5 + 1;
    let month: i64 = if march_month < 10 {
        march_month + 3
    } else {
        march_month - 9
    };
    let carried: i64 = if month <= 2 {
        1
    } else {
        0
    };
    let year: i64 = year_of_era + era * 400 + carried;
    proof {
        let (y, m, d) = civil(days as int);
        assert(year == y && month == m && day == d);
    }
    let year_text = if year < 0 {
        "-".to_owned().concat(pad((-year) as u64, 3).as_str())
    } else {
        pad(year as u64, 4)
    };
    proof {
        reveal_strlit("-");
        if year < 0 {
            assert("-"@ =~= seq!['-']);
        }
        assert(year_text@ == padded_int(year as int, 4));
    }
    year_text.concat("-").concat(pad(month as u64, 2).as_str()).concat("-").concat(
        pad(day as u64, 2).as_str(),
    ).concat("T").concat(pad((of_day / 3_600_000) as u64, 2).as_str()).concat(":").concat(
        pad((of_day / 60_000 % 60) as u64, 2).as_str(),
    ).concat(":").concat(pad((of_day / 1000 % 60) as u64, 2).as_str()).concat("Z")
}

/// The number that a part of a timestamp denotes: at least one digit, nothing
/// but digits, within `i64`.
pub open spec fn part_number(part: Seq<char>) -> Option<int> {
    if part.len() > 0 && all_digits(part) && digits_value(part) <= i64::MAX {
        Some(digits_value(part) as int)
    } else {
        None
    }
}

/// The numbers of a text that is exactly three of them between separators.
pub open spec fn three_numbers(s: Seq<char>, separator: char) -> Option<(int, int, int)> {
    let parts = split_on(s, separator);
    if parts.len() == 3 {
        match (part_number(parts[0]), part_number(parts[1]), part_number(parts[2])) {
            (Some(a), Some(b), Some(c)) => Some((a, b, c)),
            _ => None,
        }
    } else {
        None
    }
}

/// A timestamp without the suffix that marks it as UTC.
pub open spec fn without_zone(s: Seq<char>) -> Option<Seq<char>> {
    if s.len() > 0 && s.last() == 'Z' {
        Some(s.drop_last())
    } else if s.len() >= 6 && s.skip(s.len() - 6) == "+00:00"@ {
        Some(s.take(s.len() - 6))
    } else {
        None
    }
}

/// The date of a timestamp, where it is one of the calendar: a day that its month does
/// not have names no moment.
pub open spec fn date_of(s: Seq<char>) -> Option<(int, int, int)> {
    match three_numbers(s, '-') {
        Some((year, month, day)) => if is_date(year, month, day) {
            Some((year, month, day))
        } else {
            None
        },
        None => None,
    }
}

/// The second of the day of a timestamp. A fraction of a second is cut off.
pub open spec fn second_of(s: Seq<char>) -> Option<int> {
    let whole = match first_index(s, '.') {
        Some(dot) => s.take(dot),
        None => s,
    };
    match three_numbers(whole, ':') {
        Some((hour, minute, second)) => if hour <= 23 && minute <= 59 && second <= 60 {
            Some(hour * 3600 + minute * 60 + second)
        } else {
            None
        },
        None => None,
    }
}

/// The moment that a UTC RFC3339 timestamp names, in epoch milliseconds, or what
/// is wrong with it.
pub open spec fn utc_of(value: Seq<char>) -> Result<i64, Seq<char>> {
    match without_zone(value) {
        None => Err("--due-at must be UTC RFC3339 ending in Z or +00:00"@),
        Some(body) => match first_index(body, 'T') {
            None => Err("--due-at must be UTC RFC3339 like 2026-08-12T20:00:00Z"@),
            Some(t) => match date_of(body.take(t)) {
                None => Err("--due-at date is invalid"@),
                Some((year, month, day)) => match second_of(body.skip(t + 1)) {
                    None => Err("--due-at time is invalid"@),
                    Some(second) => {
                        let ms = (epoch_day(year, month, day) * 86_400 + second) * 1000;
                        if ms <= i64::MAX {
                            Ok(ms as i64)
                        } else {
                            Err("--due-at overflowed"@)
                        }
                    },
                },
            },
        },
    }
}

/// Read one number of a timestamp.
fn next_number(part: &Vec<char>) -> (value: Option<i64>)
    ensures
        match (value, part_number(part@)) {
            (Some(n), Some(m)) => n == m && n >= 0,
            (None, None) => true,
            _ => false,
        },
{
    assert(part@.skip(0) =~= part@);
    match parse_digits(part.as_slice(), 0, 0x7fff_ffff_ffff_ffff) {
        Some(n) => Some(n as i64),
        None => None,
    }
}

/// Read exactly three numbers between separators.
fn read_three(chars: &[char], from: usize, to: usize, separator: char) -> (value: Option<
    (i64, i64, i64),
>)
    requires
        from <= to <= chars@.len(),
    ensures
        match (value, three_numbers(chars@.subrange(from as int, to as int), separator)) {
            (Some((a, b, c)), Some((d, e, f))) => a == d && b == e && c == f && a >= 0 && b >= 0
                && c >= 0,
            (None, None) => true,
            _ => false,
        },
{
    let parts = split_chars(chars, from, to, separator);
    let ghost shown = part_views(parts@);
    if parts.len() != 3 {
        return None;
    }
    assert(shown[0] == parts@[0]@ && shown[1] == parts@[1]@ && shown[2] == parts@[2]@);
    match (next_number(&parts[0]), next_number(&parts[1]), next_number(&parts[2])) {
        (Some(a), Some(b), Some(c)) => Some((a, b, c)),
        _ => None,
    }
}

/// Whether a date is one of the calendar.
fn on_calendar(year: i64, month: i64, day: i64) -> (r: bool)
    requires
        year >= 0,
    ensures
        r == is_date(year as int, month as int, day as int),
{
    let last: i64 = if month == 2 {
        if year % 4 == 0 && (year % 100 != 0 || year % 400 == 0) {
            29
        } else {
            28
        }
    } else if month == 4 || month == 6 || month == 9 || month == 11 {
        30
    } else {
        31
    };
    1 <= month && month <= 12 && 1 <= day && day <= last
}

/// How many characters of a timestamp come before its UTC suffix.
fn zone_start(chars: &Vec<char>) -> (end: Option<usize>)
    ensures
        match (end, without_zone(chars@)) {
            (Some(n), Some(body)) => n <= chars@.len() && body == chars@.take(n as int),
            (None, None) => true,
            _ => false,
        },
{
    let count = chars.len();
    if count > 0 && chars[count - 1] == 'Z' {
        assert(chars@.drop_last() =~= chars@.take(count - 1));
        return Some(count - 1);
    }
    if count >= 6 {
        let suffix = text_of(chars.as_slice(), count - 6, count);
        assert(suffix@ =~= chars@.skip(count - 6));
        if same(suffix.as_str(), "+00:00") {
            return Some(count - 6);
        }
    }
    None
}

/// Parse a UTC RFC3339 timestamp into Unix epoch milliseconds.
///
/// UTC only. An offset would have to be applied to a wall clock that a caller
/// may not have meant, and getting that silently wrong is the failure this flag
/// exists to prevent.
pub fn parse_utc_rfc3339_ms(value: &str) -> (r: Result<i64, String>)
    ensures
        told(r, utc_of(value@)),
{
    let chars = chars_of(value);
    let end: usize = match zone_start(&chars) {
        Some(end) => end,
        None => {
            return Err("--due-at must be UTC RFC3339 ending in Z or +00:00".to_owned());
        },
    };
    let ghost body = value@.take(end as int);
    let head = vstd::slice::slice_subrange(chars.as_slice(), 0, end);
    assert(head@ =~= body);
    let t: usize = match find_char(head, 'T') {
        Some(t) => t,
        None => {
            return Err("--due-at must be UTC RFC3339 like 2026-08-12T20:00:00Z".to_owned());
        },
    };
    assert(head@.subrange(0, t as int) =~= body.take(t as int));
    let (year, month, day) = match read_three(head, 0, t, '-') {
        Some(date) => date,
        None => {
            return Err("--due-at date is invalid".to_owned());
        },
    };
    if !on_calendar(year, month, day) {
        return Err("--due-at date is invalid".to_owned());
    }
    // Seconds may carry a fractional part; whole milliseconds are enough here.
    let clock = vstd::slice::slice_subrange(head, t + 1, end);
    assert(clock@ =~= body.skip(t as int + 1));
    let whole: usize = match find_char(clock, '.') {
        Some(dot) => dot,
        None => clock.len(),
    };
    proof {
        match first_index(clock@, '.') {
            Some(dot) => {
                assert(clock@.subrange(0, whole as int) =~= clock@.take(dot));
            },
            None => {
                assert(clock@.subrange(0, whole as int) =~= clock@);
            },
        }
    }
    let (hour, minute, second) = match read_three(clock, 0, whole, ':') {
        Some(time) => time,
        None => {
            return Err("--due-at time is invalid".to_owned());
        },
    };
    if hour > 23 || minute > 59 || second > 60 {
        return Err("--due-at time is invalid".to_owned());
    }
    let days: i128 = days_from_civil(year, month, day);
    let ms: i128 = (days * 86_400 + (hour * 3600 + minute * 60 + second) as i128) * 1000;
    if ms <= 0x7fff_ffff_ffff_ffff {
        Ok(ms as i64)
    } else {
        Err("--due-at overflowed".to_owned())
    }
}

/// The milliseconds of one unit of a duration.
pub open spec fn unit_ms(unit: Seq<char>) -> Option<int> {
    if unit == "s"@ {
        Some(1000)
    } else if unit == "m"@ {
        Some(60_000)
    } else if unit == "h"@ {
        Some(3_600_000)
    } else if unit == "d"@ {
        Some(86_400_000)
    } else {
        None
    }
}

/// How many digits a text starts with.
pub open spec fn leading_digits(s: Seq<char>) -> int
    decreases s.len(),
{
    if s.len() > 0 && is_digit(s[0]) {
        1 + leading_digits(s.skip(1))
    } else {
        0
    }
}

/// The milliseconds of a duration such as `10m`, or what is wrong with it.
pub open spec fn duration_of(flag: Seq<char>, value: Seq<char>) -> Result<i64, Seq<char>> {
    let count = leading_digits(value);
    let amount = digits_value(value.take(count));
    if count == value.len() || count == 0 {
        Err(flag + " must look like 10m, 2h, 30s, or 1d"@)
    } else {
        match unit_ms(value.skip(count)) {
            None => Err(flag + " unit must be s, m, h, or d"@),
            Some(unit) => if amount > i64::MAX {
                Err(flag + " overflowed"@)
            } else if amount == 0 {
                Err(flag + " must be a positive duration"@)
            } else if amount * unit > i64::MAX {
                Err(flag + " overflowed"@)
            } else {
                Ok((amount * unit) as i64)
            },
        }
    }
}

proof fn lemma_leading_digits(s: Seq<char>, count: int)
    requires
        0 <= count <= s.len(),
        forall|i: int| 0 <= i < count ==> is_digit(#[trigger] s[i]),
        count < s.len() ==> !is_digit(s[count]),
    ensures
        leading_digits(s) == count,
    decreases count,
{
    if count > 0 {
        assert(is_digit(s[0]));
        let rest = s.skip(1);
        assert forall|i: int| 0 <= i < count - 1 implies is_digit(#[trigger] rest[i]) by {
            assert(rest[i] == s[i + 1]);
        }
        lemma_leading_digits(rest, count - 1);
    }
}

/// Parse `10m`, `2h`, `30s`, or `1d` into milliseconds, for one flag.
pub fn parse_duration_for(flag: &str, value: &str) -> (r: Result<i64, String>)
    ensures
        told(r, duration_of(flag@, value@)),
{
    let chars = chars_of(value);
    let mut count: usize = 0;
    while count < chars.len() && '0' <= chars[count] && chars[count] <= '9'
        invariant
            count <= chars@.len(),
            chars@ == value@,
            forall|i: int| 0 <= i < count ==> is_digit(#[trigger] chars@[i]),
        decreases chars@.len() - count,
    {
        count = count + 1;
    }
    proof {
        lemma_leading_digits(value@, count as int);
    }
    if count == chars.len() || count == 0 {
        return Err(flag.to_owned().concat(" must look like 10m, 2h, 30s, or 1d"));
    }
    let unit = text_of(chars.as_slice(), count, chars.len());
    assert(unit@ =~= value@.skip(count as int));
    let multiplier: i64 = if same(unit.as_str(), "s") {
        1000
    } else if same(unit.as_str(), "m") {
        60_000
    } else if same(unit.as_str(), "h") {
        3_600_000
    } else if same(unit.as_str(), "d") {
        86_400_000
    } else {
        return Err(flag.to_owned().concat(" unit must be s, m, h, or d"));
    };
    let digits = vstd::slice::slice_subrange(chars.as_slice(), 0, count);
    proof {
        assert(digits@ =~= value@.take(count as int));
        assert(digits@.skip(0) =~= digits@);
        assert forall|i: int| 0 <= i < digits@.len() implies is_digit(#[trigger] digits@[i]) by {
            assert(digits@[i] == chars@[i]);
        }
    }
    let amount: i64 = match parse_digits(digits, 0, 0x7fff_ffff_ffff_ffff) {
        Some(n) => n as i64,
        None => {
            return Err(flag.to_owned().concat(" overflowed"));
        },
    };
    if amount <= 0 {
        return Err(flag.to_owned().concat(" must be a positive duration"));
    }
    match amount.checked_mul(multiplier) {
        Some(ms) => Ok(ms),
        None => Err(flag.to_owned().concat(" overflowed")),
    }
}

/// Parse `10m`, `2h`, `30s`, or `1d` into milliseconds.
pub fn parse_duration_ms(value: &str) -> (r: Result<i64, String>)
    ensures
        told(r, duration_of("--due-in"@, value@)),
{
    parse_duration_for("--due-in", value)
}

proof fn lemma_zeros_in_front(count: nat, digits: Seq<char>)
    requires
        all_digits(digits),
    ensures
        all_digits(zeros(count) + digits),
        digits_value(zeros(count) + digits) == digits_value(digits),
    decreases digits.len(), count,
{
    let s = zeros(count) + digits;
    assert forall|i: int| 0 <= i < s.len() implies is_digit(#[trigger] s[i]) by {
        if i >= count {
            assert(s[i] == digits[i - count]);
        }
    }
    if digits.len() > 0 {
        let shorter = digits.drop_last();
        assert forall|i: int| 0 <= i < shorter.len() implies is_digit(#[trigger] shorter[i]) by {
            assert(shorter[i] == digits[i]);
        }
        lemma_zeros_in_front(count, shorter);
        assert(s.drop_last() =~= zeros(count) + shorter);
    } else if count > 0 {
        let fewer = (count - 1) as nat;
        lemma_zeros_in_front(fewer, digits);
        assert(s.drop_last() =~= zeros(fewer) + digits);
        assert(digits_value(digits) == 0);
    } else {
        assert(s =~= digits);
    }
}

/// A padded number still denotes its number.
proof fn lemma_padded(n: nat, width: nat)
    ensures
        padded(n, width).len() > 0,
        all_digits(padded(n, width)),
        digits_value(padded(n, width)) == n,
{
    lemma_decimal_denotes(n);
    let digits = decimal_text(n);
    if digits.len() < width {
        lemma_zeros_in_front((width - digits.len()) as nat, digits);
    }
}

/// Digits hold no character that is no digit.
proof fn lemma_digits_lack(s: Seq<char>, c: char)
    requires
        all_digits(s),
        !is_digit(c),
    ensures
        !s.contains(c),
{
    assert forall|i: int| 0 <= i < s.len() implies s[i] != c by {
        assert(is_digit(s[i]));
    }
}

/// Three numbers between separators read back as those numbers.
proof fn lemma_three_numbers(a: Seq<char>, b: Seq<char>, c: Seq<char>, separator: char)
    requires
        a.len() > 0,
        b.len() > 0,
        c.len() > 0,
        all_digits(a),
        all_digits(b),
        all_digits(c),
        !is_digit(separator),
    ensures
        split_on(a + seq![separator] + b + seq![separator] + c, separator) == seq![a, b, c],
{
    lemma_digits_lack(a, separator);
    lemma_digits_lack(b, separator);
    lemma_digits_lack(c, separator);
    lemma_split_whole(a, separator);
    lemma_split_last(a, separator, b);
    let ab = a + seq![separator] + b;
    assert(a.push(separator) + b =~= ab);
    lemma_split_last(ab, separator, c);
    assert(ab.push(separator) + c =~= ab + seq![separator] + c);
    assert(split_on(ab + seq![separator] + c, separator) =~= seq![a, b, c]);
}

/// A rendered moment reads back as itself, cut to whole seconds. A year before
/// year 0 is rendered with a sign, which the reader refuses.
#[verifier::rlimit(60)]
#[verifier::spinoff_prover]
pub proof fn law_utc_text_reads_back(ms: i64)
    requires
        civil(ms as int / 86_400_000).0 >= 0,
    ensures
        utc_of(utc_text(ms as int)) == Ok::<i64, Seq<char>>((ms - ms as int % 1000) as i64),
{
    let days = ms as int / 86_400_000;
    let of_day = ms as int % 86_400_000;
    let (y, m, d) = civil(days);
    law_civil_is_the_date_of_its_day(days);
    let (hour, minute, second) = (of_day / 3_600_000, of_day / 60_000 % 60, of_day / 1000 % 60);
    let (ys, mons, ds) = (padded(y as nat, 4), padded(m as nat, 2), padded(d as nat, 2));
    let (hs, mins, ss) = (
        padded(hour as nat, 2),
        padded(minute as nat, 2),
        padded(second as nat, 2),
    );
    lemma_padded(y as nat, 4);
    lemma_padded(m as nat, 2);
    lemma_padded(d as nat, 2);
    lemma_padded(hour as nat, 2);
    lemma_padded(minute as nat, 2);
    lemma_padded(second as nat, 2);
    reveal_strlit("-");
    reveal_strlit("T");
    reveal_strlit(":");
    reveal_strlit("Z");
    assert("-"@ =~= seq!['-']);
    assert(":"@ =~= seq![':']);
    assert("T"@ =~= seq!['T']);
    assert("Z"@ =~= seq!['Z']);
    let date = ys + seq!['-'] + mons + seq!['-'] + ds;
    let clock = hs + seq![':'] + mins + seq![':'] + ss;
    let body = date.push('T') + clock;
    let text = utc_text(ms as int);
    assert(text =~= body.push('Z'));
    assert(text.drop_last() =~= body);
    assert(without_zone(text) == Some(body));
    assert(!date.contains('T')) by {
        lemma_digits_lack(ys, 'T');
        lemma_digits_lack(mons, 'T');
        lemma_digits_lack(ds, 'T');
        lemma_concat_lacks(ys, seq!['-'], 'T');
        lemma_concat_lacks(ys + seq!['-'], mons, 'T');
        lemma_concat_lacks(ys + seq!['-'] + mons, seq!['-'], 'T');
        lemma_concat_lacks(ys + seq!['-'] + mons + seq!['-'], ds, 'T');
    }
    assert(body.take(date.len() as int) =~= date);
    assert(body[date.len() as int] == 'T');
    lemma_first_index_is(body, 'T', date.len() as int);
    assert(body.skip(date.len() as int + 1) =~= clock);
    lemma_three_numbers(ys, mons, ds, '-');
    lemma_three_numbers(hs, mins, ss, ':');
    assert(!clock.contains('.')) by {
        lemma_digits_lack(hs, '.');
        lemma_digits_lack(mins, '.');
        lemma_digits_lack(ss, '.');
        lemma_concat_lacks(hs, seq![':'], '.');
        lemma_concat_lacks(hs + seq![':'], mins, '.');
        lemma_concat_lacks(hs + seq![':'] + mins, seq![':'], '.');
        lemma_concat_lacks(hs + seq![':'] + mins + seq![':'], ss, '.');
    }
    crate::text::lemma_first_index(clock, '.');
    lemma_year_fits(days);
    assert(three_numbers(date, '-') == Some((y, m, d)));
    assert(date_of(date) == Some((y, m, d)));
    assert(three_numbers(clock, ':') == Some((hour, minute, second)));
    lemma_second_of_day(of_day);
    assert(second_of(clock) == Some(of_day / 1000));
    assert((days * 86_400 + of_day / 1000) * 1000 == ms - ms as int % 1000) by {
        assert(ms == days * 86_400_000 + of_day);
        assert(of_day % 1000 == ms as int % 1000);
    }
}

/// From the first day of year 0 on, no year is before it.
proof fn lemma_year_from_zero(days: int)
    requires
        days >= epoch_day(0, 1, 1),
    ensures
        civil(days).0 >= 0,
{
    law_civil_is_the_date_of_its_day(days);
    let (year, month, day) = civil(days);
    if year < 0 {
        lemma_date_within_year(year, month, day);
        lemma_year_order(year + 1, 0);
    }
}

/// The moment of a second of a day, in epoch milliseconds.
pub open spec fn moment_of(
    year: int,
    month: int,
    day: int,
    hour: int,
    minute: int,
    second: int,
) -> int {
    (epoch_day(year, month, day) * 86_400 + hour * 3600 + minute * 60 + second) * 1000
}

/// A UTC timestamp in full: every part with its zeros, to the second.
pub open spec fn stamp(
    year: int,
    month: int,
    day: int,
    hour: int,
    minute: int,
    second: int,
) -> Seq<char> {
    padded(year as nat, 4) + "-"@ + padded(month as nat, 2) + "-"@ + padded(day as nat, 2) + "T"@
        + padded(hour as nat, 2) + ":"@ + padded(minute as nat, 2) + ":"@ + padded(
        second as nat,
        2,
    ) + "Z"@
}

/// A UTC timestamp in full is read as its moment, and the moment is rendered as that
/// timestamp again.
#[verifier::spinoff_prover]
pub proof fn law_read_stamp_is_rendered_again(
    year: int,
    month: int,
    day: int,
    hour: int,
    minute: int,
    second: int,
)
    requires
        year >= 0,
        is_date(year, month, day),
        0 <= hour <= 23,
        0 <= minute <= 59,
        0 <= second <= 59,
        moment_of(year, month, day, hour, minute, second) <= i64::MAX,
    ensures
        ({
            let text = stamp(year, month, day, hour, minute, second);
            let ms = moment_of(year, month, day, hour, minute, second);
            utc_of(text) == Ok::<i64, Seq<char>>(ms as i64) && utc_text(ms) == text
        }),
{
    let days = epoch_day(year, month, day);
    let of_day = hour * 3600 + minute * 60 + second;
    let ms = moment_of(year, month, day, hour, minute, second);
    lemma_moment_parts(days, of_day);
    lemma_clock_parts(hour, minute, second);
    assert(civil(days) == (year, month, day)) by {
        law_civil_is_the_date_of_its_day(days);
        let (y, m, d) = civil(days);
        law_dates_of_one_day_agree(y, m, d, year, month, day);
    }
    assert(utc_text(ms) == stamp(year, month, day, hour, minute, second));
    assert(days >= epoch_day(0, 1, 1)) by {
        lemma_date_within_year(year, month, day);
        lemma_year_order(0, year);
    }
    assert(epoch_day(0, 1, 1) == -719_528);
    law_utc_text_reads_back(ms as i64);
}

#[verifier::spinoff_prover]
proof fn lemma_moment_parts(days: int, of_day: int)
    requires
        0 <= of_day < 86_400,
    ensures
        ({
            let ms = (days * 86_400 + of_day) * 1000;
            ms / 86_400_000 == days && ms % 86_400_000 == of_day * 1000 && ms % 1000 == 0
        }),
{
    let ms = (days * 86_400 + of_day) * 1000;
    vstd::arithmetic::div_mod::lemma_fundamental_div_mod_converse(
        ms,
        86_400_000,
        days,
        of_day * 1000,
    );
    vstd::arithmetic::div_mod::lemma_fundamental_div_mod_converse(
        ms,
        1000,
        days * 86_400 + of_day,
        0,
    );
}

proof fn lemma_clock_parts(hour: int, minute: int, second: int)
    requires
        0 <= hour <= 23,
        0 <= minute <= 59,
        0 <= second <= 59,
    ensures
        ({
            let of_day = (hour * 3600 + minute * 60 + second) * 1000;
            &&& of_day / 3_600_000 == hour
            &&& of_day / 60_000 % 60 == minute
            &&& of_day / 1000 % 60 == second
        }),
{
}

/// A moment in whole seconds from year 0 on is rendered as a timestamp that reads back as
/// it.
#[verifier::spinoff_prover]
proof fn lemma_whole_seconds_read_back(days: int, second: int)
    requires
        days >= epoch_day(0, 1, 1),
        0 <= second <= 86_400,
        (days * 86_400 + second) * 1000 <= i64::MAX,
    ensures
        utc_of(utc_text((days * 86_400 + second) * 1000)) == Ok::<i64, Seq<char>>(
            ((days * 86_400 + second) * 1000) as i64,
        ),
{
    assert(epoch_day(0, 1, 1) == -719_528);
    let ms = (days * 86_400 + second) * 1000;
    let (day, of_day) = if second == 86_400 {
        (days + 1, 0)
    } else {
        (days, second)
    };
    assert(ms == (day * 86_400 + of_day) * 1000);
    lemma_moment_parts(day, of_day);
    lemma_year_from_zero(day);
    law_utc_text_reads_back(ms as i64);
}

/// Whatever a timestamp was read as is rendered as a timestamp of the same moment.
#[verifier::spinoff_prover]
pub proof fn law_read_moment_is_rendered_again(value: Seq<char>)
    requires
        utc_of(value) is Ok,
    ensures
        utc_of(utc_text(utc_of(value)->Ok_0 as int)) == utc_of(value),
{
    let body = without_zone(value)->0;
    let t = first_index(body, 'T')->0;
    let (year, month, day) = date_of(body.take(t))->0;
    let second = second_of(body.skip(t + 1))->0;
    let days = epoch_day(year, month, day);
    assert(days >= epoch_day(0, 1, 1)) by {
        lemma_date_within_year(year, month, day);
        lemma_year_order(0, year);
    }
    assert(epoch_day(0, 1, 1) == -719_528);
    lemma_whole_seconds_read_back(days, second);
}

proof fn lemma_concat_lacks(a: Seq<char>, b: Seq<char>, c: char)
    requires
        !a.contains(c),
        !b.contains(c),
    ensures
        !(a + b).contains(c),
{
    assert forall|i: int| 0 <= i < (a + b).len() implies (a + b)[i] != c by {
        if i < a.len() {
            assert(a.contains(a[i]));
        } else {
            assert(b.contains(b[i - a.len()]));
        }
    }
}

proof fn lemma_second_of_day(of_day: int)
    requires
        0 <= of_day < 86_400_000,
    ensures
        ({
            let hour = of_day / 3_600_000;
            let minute = of_day / 60_000 % 60;
            let second = of_day / 1000 % 60;
            &&& 0 <= hour <= 23
            &&& 0 <= minute <= 59
            &&& 0 <= second <= 59
            &&& hour * 3600 + minute * 60 + second == of_day / 1000
        }),
{
}

proof fn lemma_year_fits(days: int)
    requires
        -0x1_0000_0000_0000 < days < 0x1_0000_0000_0000,
    ensures
        -0x1_0000_0000_0000 < civil(days).0 < 0x1_0000_0000_0000,
{
    lemma_civil_parts(days);
    lemma_year_of_day((days + 719_468) % 146_097);
}

/// A minute is sixty seconds, an hour sixty minutes and a day twenty-four hours.
#[verifier::spinoff_prover]
pub proof fn law_units_are_made_of_smaller_ones(s: int, m: int, h: int, d: int)
    requires
        unit_ms("s"@) == Some(s),
        unit_ms("m"@) == Some(m),
        unit_ms("h"@) == Some(h),
        unit_ms("d"@) == Some(d),
    ensures
        s == 1000,
        m == 60 * s,
        h == 60 * m,
        d == 24 * h,
{
    reveal_strlit("s");
    reveal_strlit("m");
    reveal_strlit("h");
    reveal_strlit("d");
    assert("s"@[0] == 's');
    assert("m"@[0] == 'm');
    assert("h"@[0] == 'h');
    assert("d"@[0] == 'd');
}

/// A duration is its number of its unit, and is positive; digits alone or a unit alone are none.
#[verifier::spinoff_prover]
#[verifier::rlimit(60)]
pub proof fn law_duration_is_its_number_of_units(flag: Seq<char>, digits: Seq<char>, unit: Seq<char>)
    requires
        digits.len() > 0,
        forall|i: int| 0 <= i < digits.len() ==> is_digit(#[trigger] digits[i]),
        unit.len() > 0,
        !is_digit(unit[0]),
    ensures
        duration_of(flag, digits + unit) matches Ok(ms) ==> unit_ms(unit) is Some && ms
            == digits_value(digits) * unit_ms(unit)->0 && ms > 0,
        unit_ms(unit) is None ==> duration_of(flag, digits + unit) is Err,
        duration_of(flag, digits) is Err,
        duration_of(flag, unit) is Err,
{
    let value = digits + unit;
    lemma_leading_digits(value, digits.len() as int);
    lemma_leading_digits(digits, digits.len() as int);
    lemma_leading_digits(unit, 0);
    assert(value.take(digits.len() as int) =~= digits);
    assert(value.skip(digits.len() as int) =~= unit);
    if let Some(each) = unit_ms(unit) {
        let amount = digits_value(digits);
        assert(amount > 0 && each > 0 ==> amount * each > 0) by (nonlinear_arith);
    }
}

} // verus!
