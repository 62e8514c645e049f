//! Proleptic Gregorian calendar dates, modelled as year/month/day triples
//! together with a day ordinal (day 1 is January 1 of year 1).  Join
//! histories, forecasts and chart ranges all work on these ordinals.

use vstd::prelude::*;

use crate::text::{dec_rep, pad2_rep, pad4_rep, pad2_string, pad4_string, u64_string};

verus! {

/// Upper bound on the ordinal of any date the library constructs from a
/// year/month/day triple (year at most 9999).
pub const ORDINAL_CAP: i64 = 3660000;

/// Upper bound on ordinals obtained by scanning forward from a date ordinal
/// over a forecast horizon.
pub const SCAN_ORDINAL_CAP: i64 = 3661000;

/// Lower bound on the ordinals the library converts back to a date: the
/// first day of year -1, enough to cover every UTC calendar date an
/// RFC 3339 text (whose local year has four digits) can denote.
pub const MIN_DATE_ORDINAL: i64 = -730;

/// A calendar date.
#[derive(Clone, Copy, Debug, PartialEq, Eq, Structural)]
pub struct Date {
    pub year: i64,
    pub month: i64,
    pub day: i64,
}

/// Whether `y` is a leap year in the proleptic Gregorian calendar.
pub open spec fn is_leap_spec(y: int) -> bool {
    y % 4 == 0 && (y % 100 != 0 || y % 400 == 0)
}

/// Number of days in year `y`.
pub open spec fn days_in_year_spec(y: int) -> int {
    if is_leap_spec(y) {
        366
    } else {
        365
    }
}

/// Number of days in month `m` of year `y`.
pub open spec fn days_in_month_spec(y: int, m: int) -> int {
    if m == 2 {
        if is_leap_spec(y) {
            29
        } else {
            28
        }
    } else if m == 4 || m == 6 || m == 9 || m == 11 {
        30
    } else {
        31
    }
}

/// Signed count of the days in the years between year `y` and year 1:
/// `days_before_year_spec(1) == 0`, later years accumulate forward and
/// years before 1 (year 0 and the negative proleptic years) accumulate
/// backward, so January 1 of year 0 has ordinal -365.
pub open spec fn days_before_year_spec(y: int) -> int
    decreases (if y >= 1 {
        y
    } else {
        2 - y
    }),
{
    if y == 1 {
        0
    } else if y > 1 {
        days_before_year_spec(y - 1) + days_in_year_spec(y - 1)
    } else {
        days_before_year_spec(y + 1) - days_in_year_spec(y)
    }
}

/// Number of days in the months of year `y` strictly before month `m`.
pub open spec fn days_before_month_spec(y: int, m: int) -> int
    decreases m,
{
    if m <= 1 {
        0
    } else {
        days_before_month_spec(y, m - 1) + days_in_month_spec(y, m - 1)
    }
}

/// The day ordinal of a date: January 1 of year 1 is day 1.
pub open spec fn ordinal_spec(y: int, m: int, d: int) -> int {
    days_before_year_spec(y) + days_before_month_spec(y, m) + d
}

/// A well-formed date: the month and day lie in range (the year may be any
/// proleptic year, including 0 and negative ones).
pub open spec fn date_wf(y: int, m: int, d: int) -> bool {
    &&& 1 <= m <= 12
    &&& 1 <= d <= days_in_month_spec(y, m)
}

impl Date {
    /// Well-formed, with the year in 1..=9999, so that the date has a
    /// four-digit decimal year and an ordinal between 1 and `ORDINAL_CAP`.
    /// Every join-history record is valid in this sense.
    pub open spec fn valid(self) -> bool {
        date_wf(self.year as int, self.month as int, self.day as int) && 1 <= self.year <= 9999
    }

    pub open spec fn ordinal(self) -> int {
        ordinal_spec(self.year as int, self.month as int, self.day as int)
    }
}

/// Whether `y` is a leap year.
pub fn is_leap_year(y: i64) -> (r: bool)
    requires
        -1 <= y,
    ensures
        r == is_leap_spec(y as int),
{
    if y >= 1 {
        y % 4 == 0 && (y % 100 != 0 || y % 400 == 0)
    } else if y == 0 {
        proof {
            assert(is_leap_spec(0));
        }
        true
    } else {
        proof {
            assert(!is_leap_spec(-1));
        }
        false
    }
}

/// Number of days in month `m` of year `y`.
pub fn days_in_month(y: i64, m: i64) -> (r: i64)
    requires
        -1 <= y,
        1 <= m <= 12,
    ensures
        r == days_in_month_spec(y as int, m as int),
{
    if m == 2 {
        if is_leap_year(y) {
            29
        } else {
            28
        }
    } else if m == 4 || m == 6 || m == 9 || m == 11 {
        30
    } else {
        31
    }
}

/// Number of days in year `y`.
fn days_in_year(y: i64) -> (r: i64)
    requires
        -1 <= y,
    ensures
        r == days_in_year_spec(y as int),
{
    if is_leap_year(y) {
        366
    } else {
        365
    }
}

/// The day ordinal of a valid date.
pub fn date_to_ordinal(dt: &Date) -> (r: i64)
    requires
        dt.valid(),
    ensures
        r == dt.ordinal(),
        1 <= r < ORDINAL_CAP,
{
    let mut acc: i64 = 0;
    let mut yr: i64 = 1;
    while yr < dt.year
        invariant
            1 <= yr <= dt.year,
            dt.valid(),
            acc == days_before_year_spec(yr as int),
            0 <= acc <= 366 * (yr - 1),
        decreases dt.year - yr,
    {
        acc = acc + days_in_year(yr);
        yr = yr + 1;
    }
    let mut macc: i64 = 0;
    let mut mo: i64 = 1;
    while mo < dt.month
        invariant
            1 <= mo <= dt.month,
            dt.valid(),
            macc == days_before_month_spec(dt.year as int, mo as int),
            0 <= macc <= 31 * (mo - 1),
        decreases dt.month - mo,
    {
        macc = macc + days_in_month(dt.year, mo);
        mo = mo + 1;
    }
    acc + macc + dt.day
}

/// The date with the given day ordinal (years -1 through 10100 reachable).
pub fn ordinal_to_date(n: i64) -> (r: Date)
    requires
        MIN_DATE_ORDINAL <= n <= SCAN_ORDINAL_CAP,
    ensures
        date_wf(r.year as int, r.month as int, r.day as int),
        r.ordinal() == n,
        -1 <= r.year <= 10100,
{
    if n >= 1 {
        let mut yr: i64 = 1;
        let mut acc: i64 = 0;
        while acc + days_in_year(yr) < n
            invariant
                1 <= yr,
                acc == days_before_year_spec(yr as int),
                acc < n <= SCAN_ORDINAL_CAP,
                365 * (yr - 1) <= acc,
            decreases n - acc,
        {
            acc = acc + days_in_year(yr);
            yr = yr + 1;
        }
        proof {
            assert(yr <= 10100);
        }
        month_and_day(yr, acc, n)
    } else {
        // RFC 3339 timestamps can denote UTC dates no earlier than the end
        // of year -1, so only years 0 and -1 are needed below ordinal 1.
        proof {
            reveal_with_fuel(days_before_year_spec, 3);
            assert(is_leap_spec(0));
            assert(!is_leap_spec(-1));
            assert(days_before_year_spec(0) == -366);
            assert(days_before_year_spec(-1) == -731);
        }
        if n >= -365 {
            month_and_day(0, -366, n)
        } else {
            month_and_day(-1, -731, n)
        }
    }
}

/// Finds the month and day of ordinal `n`, which falls inside year `yr`;
/// `acc` is the ordinal of the day before the year begins.
fn month_and_day(yr: i64, acc: i64, n: i64) -> (r: Date)
    requires
        -1 <= yr <= 10100,
        acc == days_before_year_spec(yr as int),
        acc < n <= acc + days_in_year_spec(yr as int),
        MIN_DATE_ORDINAL - 1 <= acc,
        n <= SCAN_ORDINAL_CAP,
    ensures
        date_wf(r.year as int, r.month as int, r.day as int),
        r.ordinal() == n,
        r.year == yr,
{
    let mut acc: i64 = acc;
    let mut mo: i64 = 1;
    while acc + days_in_month(yr, mo) < n
        invariant
            1 <= mo,
            -1 <= yr <= 10100,
            MIN_DATE_ORDINAL - 1 <= acc,
            n <= SCAN_ORDINAL_CAP,
            acc == days_before_year_spec(yr as int) + days_before_month_spec(yr as int, mo as int),
            acc < n,
            n <= days_before_year_spec(yr as int) + days_in_year_spec(yr as int),
            mo <= 12,
            days_before_year_spec(yr as int) <= acc,
        decreases 12 - mo,
    {
        proof {
            lemma_months_fill_year(yr as int, (mo + 1) as int);
        }
        acc = acc + days_in_month(yr, mo);
        mo = mo + 1;
    }
    Date { year: yr, month: mo, day: n - acc }
}

/// Number of days in the months from `m` (inclusive) through 12 of year `y`.
pub open spec fn months_left_spec(y: int, m: int) -> int
    decreases 13 - m,
{
    if m >= 13 {
        0
    } else {
        days_in_month_spec(y, m) + months_left_spec(y, m + 1)
    }
}

/// What lies before month `m` plus the months from `m` on equals the length
/// of the year.
proof fn lemma_months_fill_year(y: int, m: int)
    requires
        1 <= m <= 13,
    ensures
        days_before_month_spec(y, m) + months_left_spec(y, m) == days_in_year_spec(y),
    decreases 13 - m,
{
    if m == 13 {
        reveal_with_fuel(days_before_month_spec, 14);
        assert(months_left_spec(y, 13) == 0);
        assert(days_before_month_spec(y, 13) == days_in_year_spec(y));
    } else {
        lemma_months_fill_year(y, m + 1);
    }
}

/// What lies before a month never shrinks as the month grows.
proof fn lemma_dbm_mono(y: int, a: int, b: int)
    requires
        a <= b,
    ensures
        days_before_month_spec(y, a) <= days_before_month_spec(y, b),
    decreases b - a,
{
    if a < b {
        lemma_dbm_mono(y, a, b - 1);
    }
}

/// What lies before a year never shrinks as the year grows.
proof fn lemma_dby_mono(a: int, b: int)
    requires
        a <= b,
    ensures
        days_before_year_spec(a) <= days_before_year_spec(b),
    decreases b - a,
{
    if a < b {
        lemma_dby_mono(a, b - 1);
        assert(days_before_year_spec(b) == days_before_year_spec(b - 1) + days_in_year_spec(
            b - 1,
        ));
    }
}

/// Within one year, a well-formed month and day stay inside the year's days:
/// the ordinal offset is at least 1 and at most the year's length.
proof fn lemma_offset_in_year(y: int, m: int, d: int)
    requires
        1 <= m <= 12,
        1 <= d <= days_in_month_spec(y, m),
    ensures
        1 <= days_before_month_spec(y, m) + d <= days_in_year_spec(y),
{
    lemma_dbm_mono(y, 1, m);
    lemma_dbm_mono(y, m + 1, 13);
    lemma_months_fill_year(y, 13);
}

/// A date earlier in lexicographic year/month/day order has a strictly
/// smaller ordinal.
proof fn lemma_ordinal_strictly_monotone(y1: int, m1: int, d1: int, y2: int, m2: int, d2: int)
    requires
        date_wf(y1, m1, d1),
        date_wf(y2, m2, d2),
        y1 < y2 || (y1 == y2 && m1 < m2) || (y1 == y2 && m1 == m2 && d1 < d2),
    ensures
        ordinal_spec(y1, m1, d1) < ordinal_spec(y2, m2, d2),
{
    if y1 < y2 {
        lemma_offset_in_year(y1, m1, d1);
        lemma_dby_mono(y1 + 1, y2);
        lemma_offset_in_year(y2, m2, d2);
    } else if m1 < m2 {
        lemma_dbm_mono(y1, m1 + 1, m2);
    }
}

/// Two well-formed dates with the same ordinal are the same date: the day
/// ordinal identifies a date uniquely.
pub proof fn lemma_ordinal_injective(y1: int, m1: int, d1: int, y2: int, m2: int, d2: int)
    requires
        date_wf(y1, m1, d1),
        date_wf(y2, m2, d2),
        ordinal_spec(y1, m1, d1) == ordinal_spec(y2, m2, d2),
    ensures
        y1 == y2 && m1 == m2 && d1 == d2,
{
    if y1 < y2 || (y1 == y2 && m1 < m2) || (y1 == y2 && m1 == m2 && d1 < d2) {
        lemma_ordinal_strictly_monotone(y1, m1, d1, y2, m2, d2);
    } else if y2 < y1 || (y2 == y1 && m2 < m1) || (y2 == y1 && m2 == m1 && d2 < d1) {
        lemma_ordinal_strictly_monotone(y2, m2, d2, y1, m1, d1);
    }
}

/// Whether `c` is a decimal digit.
pub open spec fn is_digit(c: char) -> bool {
    '0' <= c && c <= '9'
}

/// The value of a decimal digit character.
pub open spec fn digit_val(c: char) -> int {
    c as int - '0' as int
}

/// Whether `s` has the shape `YYYY-MM-DD` or `YYYY/MM/DD`, with the same
/// separator in both places.
pub open spec fn date_str_wf(s: Seq<char>) -> bool {
    &&& s.len() == 10
    &&& is_digit(s[0]) && is_digit(s[1]) && is_digit(s[2]) && is_digit(s[3])
    &&& is_digit(s[5]) && is_digit(s[6])
    &&& is_digit(s[8]) && is_digit(s[9])
    &&& ((s[4] == '-' && s[7] == '-') || (s[4] == '/' && s[7] == '/'))
}

/// The year encoded by a well-shaped date string.
pub open spec fn year_of_str(s: Seq<char>) -> int {
    digit_val(s[0]) * 1000 + digit_val(s[1]) * 100 + digit_val(s[2]) * 10 + digit_val(s[3])
}

/// The month encoded by a well-shaped date string.
pub open spec fn month_of_str(s: Seq<char>) -> int {
    digit_val(s[5]) * 10 + digit_val(s[6])
}

/// The day encoded by a well-shaped date string.
pub open spec fn day_of_str(s: Seq<char>) -> int {
    digit_val(s[8]) * 10 + digit_val(s[9])
}

/// Reads the digit at position `i`.
fn digit_at(s: &str, i: usize) -> (r: Option<i64>)
    requires
        i < s@.len(),
    ensures
        r is Some <==> is_digit(s@[i as int]),
        r matches Some(v) ==> v == digit_val(s@[i as int]) && 0 <= v <= 9,
{
    let c = s.get_char(i);
    if '0' <= c && c <= '9' {
        Some((c as u32 - '0' as u32) as i64)
    } else {
        None
    }
}

/// Parses a calendar date written as `YYYY-MM-DD` or `YYYY/MM/DD`.  Returns
/// `None` when the text has another shape or the triple is not a real date
/// (year 0, month outside 1..=12, day outside the month).
pub fn parse_date(s: &str) -> (r: Option<Date>)
    ensures
        r is Some <==> (date_str_wf(s@) && 1 <= year_of_str(s@) && date_wf(
            year_of_str(s@),
            month_of_str(s@),
            day_of_str(s@),
        )),
        r matches Some(dt) ==> {
            &&& dt.year == year_of_str(s@)
            &&& dt.month == month_of_str(s@)
            &&& dt.day == day_of_str(s@)
            &&& dt.valid()
        },
{
    if s.unicode_len() != 10 {
        return None;
    }
    let sep1 = s.get_char(4);
    let sep2 = s.get_char(7);
    if !((sep1 == '-' && sep2 == '-') || (sep1 == '/' && sep2 == '/')) {
        return None;
    }
    let (y3, y2, y1, y0) = match (digit_at(s, 0), digit_at(s, 1), digit_at(s, 2), digit_at(s, 3)) {
        (Some(a), Some(b), Some(c), Some(d)) => (a, b, c, d),
        _ => {
            return None;
        },
    };
    let (m1, m0) = match (digit_at(s, 5), digit_at(s, 6)) {
        (Some(a), Some(b)) => (a, b),
        _ => {
            return None;
        },
    };
    let (d1, d0) = match (digit_at(s, 8), digit_at(s, 9)) {
        (Some(a), Some(b)) => (a, b),
        _ => {
            return None;
        },
    };
    let year = y3 * 1000 + y2 * 100 + y1 * 10 + y0;
    let month = m1 * 10 + m0;
    let day = d1 * 10 + d0;
    if year < 1 || month < 1 || month > 12 {
        return None;
    }
    if day < 1 || day > days_in_month(year, month) {
        return None;
    }
    Some(Date { year, month, day })
}

/// The year rendered with at least four digits, a leading `-` when it is
/// negative.
pub open spec fn year_rep(y: int) -> Seq<char> {
    if y >= 0 {
        pad4_rep(y as nat)
    } else {
        seq!['-'] + pad4_rep((-y) as nat)
    }
}

/// The `YYYY-MM-DD` rendering of a date.
pub open spec fn date_rep(y: int, m: int, d: int) -> Seq<char> {
    year_rep(y) + seq!['-'] + pad2_rep(m as nat) + seq!['-'] + pad2_rep(d as nat)
}

/// Renders a date as `YYYY-MM-DD`: the year zero-padded to four digits,
/// years above 9999 keeping all their digits and negative years carrying a
/// leading `-`.
pub fn format_date(dt: &Date) -> (r: String)
    requires
        date_wf(dt.year as int, dt.month as int, dt.day as int),
    ensures
        r@ == date_rep(dt.year as int, dt.month as int, dt.day as int),
{
    proof {
        reveal_strlit("-");
    }
    let mut r = if dt.year >= 0 {
        pad4_string(dt.year as u64)
    } else {
        let mag: u64 = if dt.year == i64::MIN {
            9223372036854775808u64
        } else {
            (-dt.year) as u64
        };
        let mut s = String::from_str("-");
        s.append(pad4_string(mag).as_str());
        s
    };
    r.append("-");
    r.append(pad2_string(dt.month as u64).as_str());
    r.append("-");
    r.append(pad2_string(dt.day as u64).as_str());
    proof {
        assert(r@ =~= date_rep(dt.year as int, dt.month as int, dt.day as int));
    }
    r
}

} // verus!
