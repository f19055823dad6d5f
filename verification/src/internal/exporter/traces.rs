//! Span timing for a captured request: UTC timestamps of the form
//! `YYYY-MM-DDTHH:MM:SS[.fraction]Z` read into Unix nanoseconds, and the name of
//! the request span.
use vstd::prelude::*;

use crate::parse::{
    digit_value, find_char, first_index_of, is_digit, lemma_first_index_of,
    parse_i64_at, parse_i64_spec, parse_u32_at, parse_u32_spec, segment, segment_at,
};
use crate::internal::specs::capture::HarRecord;
use crate::internal::specs::telemetry::{attr_views, TelemetryAttribute, TelemetryValue, ValueView};
use crate::internal::specs::timing::Milliseconds;
use crate::internal::telemetry::attributes::{int_attr, string_attr};
use crate::internal::normalize::url::{sanitize_url, sanitized_of};
use crate::internal::telemetry::traces::{
    double_attr_of, error_type, error_type_of, int_attr_of, positive, text_attr,
};
use crate::json::opt_chars;
use vstd::arithmetic::div_mod::{
    lemma_fundamental_div_mod, lemma_fundamental_div_mod_converse, lemma_mod_bound,
};
use crate::text::{chars_of, concat};

verus! {

/// `a / b` rounded toward zero, as Rust's integer division does.
pub open spec fn trunc_div(a: int, b: int) -> int {
    if a >= 0 {
        a / b
    } else {
        -((-a) / b)
    }
}

pub open spec fn fits_i64(x: int) -> bool {
    i64::MIN <= x <= i64::MAX
}

/// The year counted from March, in which January and February belong to the previous year.
pub open spec fn march_year(year: int, month: int) -> int {
    if month <= 2 {
        year - 1
    } else {
        year
    }
}

pub open spec fn civil_era(year: int, month: int) -> int {
    let y = march_year(year, month);
    trunc_div(
        if y >= 0 {
            y
        } else {
            y - 399
        },
        400,
    )
}

/// Day of the 400-year era on which the date falls.
pub open spec fn civil_day_of_era(year: int, month: int, day: int) -> int {
    let y = march_year(year, month);
    let year_of_era = y - civil_era(year, month) * 400;
    let shifted_month = month + if month > 2 {
        -3int
    } else {
        9int
    };
    let day_of_year = (153 * shifted_month + 2) / 5 + day - 1;
    year_of_era * 365 + year_of_era / 4 - year_of_era / 100 + day_of_year
}

/// Days from 1970-01-01 to the given date of the proleptic Gregorian calendar.
pub open spec fn civil_days(year: int, month: int, day: int) -> int {
    civil_era(year, month) * 146097 + civil_day_of_era(year, month, day) - 719468
}

/// Whether a year of the proleptic Gregorian calendar has a February 29.
pub open spec fn is_leap_year(y: int) -> bool {
    y % 4 == 0 && (y % 100 != 0 || y % 400 == 0)
}

/// The number of days of a month.
pub open spec fn days_in_month(y: int, m: int) -> int {
    if m == 2 {
        if is_leap_year(y) {
            29
        } else {
            28
        }
    } else if m == 4 || m == 6 || m == 9 || m == 11 {
        30
    } else {
        31
    }
}

/// Whether year, month and day name a date of the proleptic Gregorian calendar.
pub open spec fn valid_date(y: int, m: int, d: int) -> bool {
    1 <= m <= 12 && 1 <= d <= days_in_month(y, m)
}

/// The calendar day after a date.
pub open spec fn next_date(y: int, m: int, d: int) -> (int, int, int) {
    if d < days_in_month(y, m) {
        (y, m, d + 1)
    } else if m < 12 {
        (y, m + 1, 1)
    } else {
        (y + 1, 1, 1)
    }
}

/// The days before March 1 of a year counted from March: whole eras of 400 years,
/// then the years of the era with their leap days.
spec fn years_days(y: int) -> int {
    (y / 400) * 146097 + (y % 400) * 365 + (y % 400) / 4 - (y % 400) / 100
}

/// The days of the March-based year before the first of a month.
spec fn month_start(m: int) -> int {
    (153 * (m + if m > 2 {
        -3int
    } else {
        9int
    }) + 2) / 5
}

proof fn lemma_div_mod(x: int, d: int)
    requires
        d > 0,
    ensures
        x == (x / d) * d + x % d,
        0 <= x % d < d,
{
    lemma_fundamental_div_mod(x, d);
    lemma_mod_bound(x, d);
    assert(d * (x / d) == (x / d) * d) by (nonlinear_arith);
}

proof fn lemma_civil_split(y: int, m: int, d: int)
    ensures
        civil_days(y, m, d) == years_days(march_year(y, m)) + month_start(m) + d - 1 - 719468,
{
    let yy = march_year(y, m);
    let q = yy / 400;
    let r = yy % 400;
    lemma_div_mod(yy, 400);
    if yy < 0 {
        lemma_fundamental_div_mod_converse(399 - yy, 400, -q, 399 - r);
    }
    assert(civil_era(y, m) == q);
}

proof fn lemma_step_mod(x: int, k: int, d: int)
    requires
        d > 0,
        400int % d == 0,
        x == k * 400 + (x % 400),
    ensures
        x % d == (x % 400) % d,
{
    let r = x % 400;
    lemma_div_mod(r, d);
    let c = 400int / d;
    lemma_div_mod(400int, d);
    assert(400 == c * d);
    assert(x == (k * c + r / d) * d + r % d) by (nonlinear_arith)
        requires
            x == k * 400 + r,
            r == (r / d) * d + r % d,
            400 == c * d,
    ;
    lemma_fundamental_div_mod_converse(x, d, k * c + r / d, r % d);
}

proof fn lemma_count_step(r: int, d: int)
    requires
        d > 0,
        0 <= r,
    ensures
        (r + 1) / d == r / d + if (r + 1) % d == 0 {
            1int
        } else {
            0int
        },
{
    lemma_div_mod(r, d);
    if r % d + 1 < d {
        lemma_fundamental_div_mod_converse(r + 1, d, r / d, r % d + 1);
    } else {
        let q = r / d;
        assert(q * d + d == (q + 1) * d) by (nonlinear_arith);
        lemma_fundamental_div_mod_converse(r + 1, d, q + 1, 0);
    }
}

/// A year counted from March has 365 days, and one more when the February that
/// ends it has 29 days.
proof fn lemma_year_step(yy: int)
    ensures
        years_days(yy + 1) == years_days(yy) + 365 + if is_leap_year(yy + 1) {
            1int
        } else {
            0int
        },
{
    let q = yy / 400;
    let r = yy % 400;
    lemma_div_mod(yy, 400);
    if r < 399 {
        lemma_fundamental_div_mod_converse(yy + 1, 400, q, r + 1);
        lemma_step_mod(yy + 1, q, 4);
        lemma_step_mod(yy + 1, q, 100);
        lemma_count_step(r, 4);
        lemma_count_step(r, 100);
    } else {
        lemma_fundamental_div_mod_converse(yy + 1, 400, q + 1, 0);
        lemma_step_mod(yy + 1, q + 1, 4);
        lemma_step_mod(yy + 1, q + 1, 100);
    }
}

/// The day count is that of the calendar: 1970-01-01 is day 0, and the day after
/// any date (across month ends, February 29 and year ends) counts one more.
pub proof fn law_civil_day_count(y: int, m: int, d: int)
    requires
        valid_date(y, m, d),
    ensures
        civil_days(1970, 1, 1) == 0,
        valid_date(next_date(y, m, d).0, next_date(y, m, d).1, next_date(y, m, d).2),
        civil_days(next_date(y, m, d).0, next_date(y, m, d).1, next_date(y, m, d).2) == civil_days(
            y,
            m,
            d,
        ) + 1,
{
    lemma_civil_split(1970, 1, 1);
    let n = next_date(y, m, d);
    lemma_civil_split(y, m, d);
    lemma_civil_split(n.0, n.1, n.2);
    if d == days_in_month(y, m) {
        if m == 2 {
            lemma_year_step(y - 1);
        }
        if m == 12 {
            assert(march_year(y + 1, 1) == y);
        }
    }
}

/// Whether every step of the day count stays within `i64`.
pub open spec fn civil_fits(year: int, month: int, day: int) -> bool {
    let y = march_year(year, month);
    let era = civil_era(year, month);
    &&& fits_i64(y)
    &&& fits_i64(y - 399)
    &&& fits_i64(era * 146097)
    &&& fits_i64(era * 146097 + civil_day_of_era(year, month, day))
    &&& fits_i64(civil_days(year, month, day))
}

/// The fields of a `YYYY-MM-DDTHH:MM:SS[.fraction]Z` timestamp.
#[derive(Clone, Copy, Debug, PartialEq, Eq, Structural)]
pub struct UtcTimestamp {
    pub year: i64,
    pub month: u32,
    pub day: u32,
    pub hour: u32,
    pub minute: u32,
    pub second: u32,
    pub fraction_nanos: u32,
}

pub open spec fn pow10(n: nat) -> int
    decreases n,
{
    if n == 0 {
        1
    } else {
        10 * pow10((n - 1) as nat)
    }
}

/// Nanoseconds written by the leading digits among the first nine characters
/// of `s` from position `i` on.
pub open spec fn fraction_from(s: Seq<char>, i: nat) -> int
    decreases 9 - i,
{
    if i >= 9 || i >= s.len() || !is_digit(s[i as int]) {
        0
    } else {
        digit_value(s[i as int]) * pow10((8 - i) as nat) + fraction_from(s, i + 1)
    }
}

/// Nanoseconds written by a decimal fraction: its leading digits, at most nine.
pub open spec fn fraction_nanos(s: Seq<char>) -> int {
    fraction_from(s, 0)
}

/// The fields that a `YYYY-MM-DDTHH:MM:SS[.fraction]Z` text holds, if it holds them.
pub open spec fn utc_fields(v: Seq<char>) -> Option<UtcTimestamp> {
    if v.len() == 0 || v.last() != 'Z' {
        None
    } else {
        let body = v.drop_last();
        let t = first_index_of(body, 'T');
        if t < 0 {
            None
        } else {
            let date = body.take(t);
            let time = body.skip(t + 1);
            match (
                segment(date, '-', 0),
                segment(date, '-', 1),
                segment(date, '-', 2),
                segment(time, ':', 0),
                segment(time, ':', 1),
                segment(time, ':', 2),
            ) {
                (Some(ys), Some(ms), Some(ds), Some(hs), Some(mins), Some(sf)) => {
                    let dot = first_index_of(sf, '.');
                    let second_text = if dot < 0 {
                        sf
                    } else {
                        sf.take(dot)
                    };
                    let fraction_text = if dot < 0 {
                        Seq::<char>::empty()
                    } else {
                        sf.skip(dot + 1)
                    };
                    match (
                        parse_i64_spec(ys),
                        parse_u32_spec(ms),
                        parse_u32_spec(ds),
                        parse_u32_spec(hs),
                        parse_u32_spec(mins),
                        parse_u32_spec(second_text),
                    ) {
                        (
                            Some(year),
                            Some(month),
                            Some(day),
                            Some(hour),
                            Some(minute),
                            Some(second),
                        ) => Some(
                            UtcTimestamp {
                                year,
                                month,
                                day,
                                hour,
                                minute,
                                second,
                                fraction_nanos: fraction_nanos(fraction_text) as u32,
                            },
                        ),
                        _ => None,
                    }
                },
                _ => None,
            }
        }
    }
}

/// Whether the day count of the date in `v`, when `v` is a timestamp, stays within `i64`.
pub open spec fn utc_fits(v: Seq<char>) -> bool {
    match utc_fields(v) {
        Some(f) => civil_fits(f.year as int, f.month as int, f.day as int),
        None => true,
    }
}

/// Unix nanoseconds of a timestamp text; `None` when it is no timestamp, when the
/// second count leaves `i64`, or when it falls before 1970.
pub open spec fn utc_nanos(v: Seq<char>) -> Option<int> {
    match utc_fields(v) {
        None => None,
        Some(f) => {
            let a = civil_days(f.year as int, f.month as int, f.day as int) * 86400;
            let b = a + f.hour * 3600;
            let c = b + f.minute * 60;
            let d = c + f.second;
            if !fits_i64(a) || !fits_i64(b) || !fits_i64(c) || !fits_i64(d) || d < 0 {
                None
            } else {
                Some(d * 1_000_000_000 + f.fraction_nanos)
            }
        },
    }
}

/// Whether `days_from_civil` can count the days of this date without leaving `i64`.
pub fn civil_in_range(year: i64, month: u32, day: u32) -> (r: bool)
    ensures
        r == civil_fits(year as int, month as int, day as int),
{
    if month <= 2 && year == i64::MIN {
        return false;
    }
    let y = year - if month <= 2 {
        1i64
    } else {
        0i64
    };
    if y < i64::MIN + 399 {
        return false;
    }
    let era = if y >= 0 {
        y
    } else {
        y - 399
    } / 400;
    let year_of_era = y - era * 400;
    let m = month as i64;
    let day_of_year = (153 * (m + if m > 2 {
        -3i64
    } else {
        9i64
    }) + 2) / 5 + day as i64 - 1;
    let day_of_era = year_of_era * 365 + year_of_era / 4 - year_of_era / 100 + day_of_year;
    match era.checked_mul(146097) {
        None => false,
        Some(a) => match a.checked_add(day_of_era) {
            None => false,
            Some(b) => b.checked_sub(719468).is_some(),
        },
    }
}

/// Days from 1970-01-01 to a date of the proleptic Gregorian calendar.
pub fn days_from_civil(year: i64, month: u32, day: u32) -> (days: i64)
    requires
        civil_fits(year as int, month as int, day as int),
    ensures
        days == civil_days(year as int, month as int, day as int),
{
    let year = year - if month <= 2 {
        1i64
    } else {
        0i64
    };
    let era = if year >= 0 {
        year
    } else {
        year - 399
    } / 400;
    let year_of_era = year - era * 400;
    let month = month as i64;
    let day = day as i64;
    let day_of_year = (153 * (month + if month > 2 {
        -3i64
    } else {
        9i64
    }) + 2) / 5 + day - 1;
    let day_of_era = year_of_era * 365 + year_of_era / 4 - year_of_era / 100 + day_of_year;

    era * 146_097 + day_of_era - 719_468
}

proof fn lemma_fraction_bound(s: Seq<char>, i: nat)
    requires
        i <= 9,
    ensures
        0 <= fraction_from(s, i) < pow10((9 - i) as nat),
    decreases 9 - i,
{
    if !(i >= 9 || i >= s.len() || !is_digit(s[i as int])) {
        lemma_fraction_bound(s, i + 1);
        assert(pow10((9 - i) as nat) == 10 * pow10((8 - i) as nat));
        assert(digit_value(s[i as int]) * pow10((8 - i) as nat) <= 9 * pow10((8 - i) as nat))
            by (nonlinear_arith)
            requires
                digit_value(s[i as int]) <= 9,
                pow10((8 - i) as nat) >= 0,
        ;
        assert(digit_value(s[i as int]) * pow10((8 - i) as nat) >= 0) by (nonlinear_arith)
            requires
                digit_value(s[i as int]) >= 0,
                pow10((8 - i) as nat) >= 0,
        ;
    } else {
        lemma_pow10_positive((9 - i) as nat);
    }
}

proof fn lemma_pow10_positive(n: nat)
    ensures
        pow10(n) >= 1,
    decreases n,
{
    if n > 0 {
        lemma_pow10_positive((n - 1) as nat);
    }
}

/// Nanoseconds written by `chars[lo..hi]` read as a decimal fraction.
fn fraction_nanos_at(chars: &Vec<char>, lo: usize, hi: usize) -> (nanos: u32)
    requires
        lo <= hi <= chars@.len(),
    ensures
        nanos == fraction_nanos(chars@.subrange(lo as int, hi as int)),
{
    let ghost s = chars@.subrange(lo as int, hi as int);
    let mut nanos: u32 = 0;
    let mut scale: u32 = 100_000_000;
    let mut i: usize = 0;
    proof {
        lemma_fraction_bound(s, 0);
        reveal_with_fuel(pow10, 10);
    }
    let mut done = false;
    while !done && i < 9 && i < hi - lo
        invariant
            lo <= hi <= chars@.len(),
            s == chars@.subrange(lo as int, hi as int),
            0 <= i <= 9,
            scale == pow10((9 - i) as nat) / 10,
            i < 9 ==> scale == pow10((8 - i) as nat),
            nanos + fraction_from(s, i as nat) == fraction_nanos(s),
            0 <= fraction_nanos(s) < 1_000_000_000,
            nanos <= fraction_nanos(s),
            done ==> fraction_from(s, i as nat) == 0,
        decreases 9 - i + if done { 0int } else { 1int },
    {
        let c = chars[lo + i];
        if '0' <= c && c <= '9' {
            let d = c as u32 - 48;
            proof {
                lemma_fraction_bound(s, (i + 1) as nat);
                assert(s[i as int] == c);
            }
            nanos = nanos + d * scale;
            assert(pow10((9 - (i + 1)) as nat) == pow10((8 - i) as nat));
            if i < 8 {
                assert(pow10((8 - i) as nat) == 10 * pow10((7 - i) as nat));
            }
            scale = scale / 10;
            i = i + 1;
        } else {
            assert(s[i as int] == c);
            done = true;
        }
    }
    nanos
}

/// Nanoseconds written by a decimal fraction: its leading digits, at most nine.
pub fn parse_fraction_nanos(fraction: &str) -> (nanos: u32)
    ensures
        nanos == fraction_nanos(fraction@),
{
    let chars = chars_of(fraction);
    assert(chars@.subrange(0, chars@.len() as int) =~= fraction@);
    fraction_nanos_at(&chars, 0, chars.len())
}

/// The fields of a `YYYY-MM-DDTHH:MM:SS[.fraction]Z` timestamp, if `value` is one.
pub fn parse_utc_timestamp(value: &str) -> (r: Option<UtcTimestamp>)
    ensures
        r == utc_fields(value@),
{
    let chars = chars_of(value);
    let len = chars.len();
    if len == 0 || chars[len - 1] != 'Z' {
        return None;
    }
    let ghost v = value@;
    let ghost body = v.drop_last();
    assert(chars@.subrange(0, len - 1) =~= body);
    let t = match find_char(&chars, 0, len - 1, 'T') {
        Some(t) => t,
        None => return None,
    };
    proof {
        lemma_first_index_of(body, 'T');
    }
    let ghost date = body.take(t as int);
    let ghost time = body.skip(t + 1);
    assert(chars@.subrange(0, t as int) =~= date);
    assert(chars@.subrange(t + 1, len - 1) =~= time);
    let ys = segment_at(&chars, 0, t, '-', 0);
    let ms = segment_at(&chars, 0, t, '-', 1);
    let ds = segment_at(&chars, 0, t, '-', 2);
    let hs = segment_at(&chars, t + 1, len - 1, ':', 0);
    let mins = segment_at(&chars, t + 1, len - 1, ':', 1);
    let sf = segment_at(&chars, t + 1, len - 1, ':', 2);
    match (ys, ms, ds, hs, mins, sf) {
        (Some(ys), Some(ms), Some(ds), Some(hs), Some(mins), Some(sf)) => {
            let ghost sf_text = chars@.subrange(sf.0 as int, sf.1 as int);
            let (second_end, fraction_start) = match find_char(&chars, sf.0, sf.1, '.') {
                Some(k) => (sf.0 + k, sf.0 + k + 1),
                None => (sf.1, sf.1),
            };
            proof {
                lemma_first_index_of(sf_text, '.');
                if first_index_of(sf_text, '.') >= 0 {
                    assert(sf_text.take(first_index_of(sf_text, '.')) =~= chars@.subrange(
                        sf.0 as int,
                        second_end as int,
                    ));
                    assert(sf_text.skip(first_index_of(sf_text, '.') + 1) =~= chars@.subrange(
                        fraction_start as int,
                        sf.1 as int,
                    ));
                } else {
                    assert(chars@.subrange(fraction_start as int, sf.1 as int) =~= Seq::<
                        char,
                    >::empty());
                }
            }
            let year = parse_i64_at(&chars, ys.0, ys.1);
            let month = parse_u32_at(&chars, ms.0, ms.1);
            let day = parse_u32_at(&chars, ds.0, ds.1);
            let hour = parse_u32_at(&chars, hs.0, hs.1);
            let minute = parse_u32_at(&chars, mins.0, mins.1);
            let second = parse_u32_at(&chars, sf.0, second_end);
            let fraction = fraction_nanos_at(&chars, fraction_start, sf.1);
            match (year, month, day, hour, minute, second) {
                (Some(year), Some(month), Some(day), Some(hour), Some(minute), Some(second)) => {
                    Some(UtcTimestamp { year, month, day, hour, minute, second, fraction_nanos: fraction })
                },
                _ => None,
            }
        },
        _ => None,
    }
}

/// Whether the date of a timestamp text, when it is one, has a day count that
/// fits `i64`: the condition under which [`parse_iso8601_utc_nanos`] can count.
pub fn utc_timestamp_fits(value: &str) -> (r: bool)
    ensures
        r == utc_fits(value@),
{
    match parse_utc_timestamp(value) {
        Some(f) => civil_in_range(f.year, f.month, f.day),
        None => true,
    }
}

/// Unix nanoseconds of a `YYYY-MM-DDTHH:MM:SS[.fraction]Z` timestamp; `None` when
/// `value` is no such timestamp, when its second count leaves `i64`, or when it
/// falls before 1970.
pub fn parse_iso8601_utc_nanos(value: &str) -> (r: Option<u128>)
    requires
        utc_fits(value@),
    ensures
        match r {
            Some(n) => utc_nanos(value@) == Some(n as int),
            None => utc_nanos(value@) is None,
        },
{
    let f = match parse_utc_timestamp(value) {
        Some(f) => f,
        None => return None,
    };
    let days = days_from_civil(f.year, f.month, f.day);
    let seconds = match days.checked_mul(86_400) {
        None => return None,
        Some(a) => match a.checked_add(f.hour as i64 * 3_600) {
            None => return None,
            Some(b) => match b.checked_add(f.minute as i64 * 60) {
                None => return None,
                Some(c) => match c.checked_add(f.second as i64) {
                    None => return None,
                    Some(d) => d,
                },
            },
        },
    };
    if seconds < 0 {
        return None;
    }
    Some((seconds as u128) * 1_000_000_000 + f.fraction_nanos as u128)
}

/// The name of the span of a typed HAR record: its method, or `HTTP` when the
/// method is missing or empty.
pub open spec fn span_name_of(method: Option<Seq<char>>) -> Seq<char> {
    match method {
        Some(m) => if m.len() > 0 {
            m
        } else {
            "HTTP"@
        },
        None => "HTTP"@,
    }
}

/// The name of the span of a typed HAR record.
pub fn request_span_name(har: &HarRecord) -> (name: String)
    ensures
        name@ == span_name_of(opt_chars(har.request.method)),
{
    match &har.request.method {
        Some(m) => if !m.as_str().is_empty() {
            m.clone()
        } else {
            "HTTP".to_owned()
        },
        None => "HTTP".to_owned(),
    }
}

/// Whether a response status makes a span an error: a missing status, and any
/// status outside 100 to 399 (so 0, 400 to 599, and any other number).
pub open spec fn error_status(status: Option<i64>) -> bool {
    match status {
        Some(s) => !(100 <= s <= 399),
        None => true,
    }
}

/// Whether the span of a typed HAR record gets an error status: its response
/// status is missing or outside 100 to 399.
pub fn is_error_status(status: Option<i64>) -> (r: bool)
    ensures
        r == error_status(status),
        r == (error_type_of(status) is Some),
{
    match status {
        Some(s) => !(100 <= s && s <= 399),
        None => true,
    }
}

/// The sanitized URL of a typed HAR request, when it has one.
pub open spec fn sanitized_url_of(url: Option<Seq<char>>) -> Option<Seq<char>> {
    match url {
        Some(u) => Some(sanitized_of(u)),
        None => None,
    }
}

/// The attributes of the span of a typed HAR record: `hosho.signal` = `har`, then
/// the method, the sanitized URL, the status code when greater than zero and the
/// start time, those that are known, then each known timing as
/// `hosho.har.timing.<name>`, then `error.type` when the status is an error.
pub open spec fn request_attributes_of(har: HarRecord) -> Seq<(Seq<char>, ValueView)> {
    let t = har.timing;
    seq![("hosho.signal"@, ValueView::Text("har"@))] + text_attr(
        "http.request.method"@,
        opt_chars(har.request.method),
    ) + text_attr("url.full"@, sanitized_url_of(opt_chars(har.request.url))) + int_attr_of(
        "http.response.status_code"@,
        positive(har.response.status),
    ) + text_attr("hosho.har.started_at"@, opt_chars(t.started_at)) + double_attr_of(
        "hosho.har.timing.duration_ms"@,
        t.duration_ms,
    ) + double_attr_of("hosho.har.timing.blocked_ms"@, t.blocked_ms) + double_attr_of(
        "hosho.har.timing.dns_ms"@,
        t.dns_ms,
    ) + double_attr_of("hosho.har.timing.connect_ms"@, t.connect_ms) + double_attr_of(
        "hosho.har.timing.ssl_ms"@,
        t.ssl_ms,
    ) + double_attr_of("hosho.har.timing.send_ms"@, t.send_ms) + double_attr_of(
        "hosho.har.timing.wait_ms"@,
        t.wait_ms,
    ) + double_attr_of("hosho.har.timing.receive_ms"@, t.receive_ms) + text_attr(
        "error.type"@,
        error_type_of(har.response.status),
    )
}

/// The span attributes of a typed HAR record start with `hosho.signal` = `har`,
/// and carry the method as `http.request.method`, the URL sanitized as
/// `url.full`, the status as `http.response.status_code` when greater than zero,
/// and the error type as `error.type` when there is one, each when known.
pub proof fn law_request_attributes(har: HarRecord)
    ensures
        ({
            let a = request_attributes_of(har);
            &&& a[0] == ("hosho.signal"@, ValueView::Text("har"@))
            &&& har.request.method matches Some(m) ==> a.contains(
                ("http.request.method"@, ValueView::Text(m@)),
            )
            &&& har.request.url matches Some(u) ==> a.contains(
                ("url.full"@, ValueView::Text(sanitized_of(u@))),
            )
            &&& forall|s: i64|
                har.response.status == Some(s) && s > 0 ==> #[trigger] a.contains(
                    ("http.response.status_code"@, ValueView::Int(s)),
                )
            &&& error_type_of(har.response.status) matches Some(e) ==> a.contains(
                ("error.type"@, ValueView::Text(e)),
            )
        }),
{
    let m = text_attr("http.request.method"@, opt_chars(har.request.method));
    let u = text_attr("url.full"@, sanitized_url_of(opt_chars(har.request.url)));
    let st = int_attr_of("http.response.status_code"@, positive(har.response.status));
    let err = text_attr("error.type"@, error_type_of(har.response.status));
    let a = request_attributes_of(har);
    if let Some(mm) = har.request.method {
        let x = ("http.request.method"@, ValueView::Text(mm@));
        assert(a.contains(x)) by {
            broadcast use vstd::seq_lib::lemma_seq_concat_contains_all_elements;

            assert(m[0] == x && m.contains(x));
        }
    }
    if let Some(uu) = har.request.url {
        let x = ("url.full"@, ValueView::Text(sanitized_of(uu@)));
        assert(a.contains(x)) by {
            broadcast use vstd::seq_lib::lemma_seq_concat_contains_all_elements;

            assert(u[0] == x && u.contains(x));
        }
    }
    assert forall|s: i64|
        har.response.status == Some(s) && s > 0 implies #[trigger] a.contains(
        ("http.response.status_code"@, ValueView::Int(s)),
    ) by {
        let x = ("http.response.status_code"@, ValueView::Int(s));
        broadcast use vstd::seq_lib::lemma_seq_concat_contains_all_elements;

        assert(st.len() == 1);
        assert(st[0] == x);
        assert(st.contains(x));
    }
    if let Some(e) = error_type_of(har.response.status) {
        let x = ("error.type"@, ValueView::Text(e));
        assert(a.contains(x)) by {
            broadcast use vstd::seq_lib::lemma_seq_concat_contains_all_elements;

            assert(err[0] == x && err.contains(x));
        }
    }
}

/// Appends `hosho.har.timing.<name>` when the timing is known.
fn push_timing(attributes: &mut Vec<TelemetryAttribute>, name: &str, value: Option<Milliseconds>)
    ensures
        attr_views(final(attributes)@) == attr_views(old(attributes)@) + double_attr_of(
            "hosho.har.timing."@ + name@,
            value,
        ),
{
    let ghost before = attributes@;
    match value {
        Some(ms) => {
            let key = concat("hosho.har.timing.", name);
            attributes.push(TelemetryAttribute { key, value: TelemetryValue::Double(ms.bits) });
        },
        None => {},
    }
    assert(attr_views(attributes@) =~= attr_views(before) + double_attr_of(
        "hosho.har.timing."@ + name@,
        value,
    ));
}

/// Appends an attribute when there is one.
fn push_some(attributes: &mut Vec<TelemetryAttribute>, attr: Option<TelemetryAttribute>)
    ensures
        attr_views(final(attributes)@) == attr_views(old(attributes)@) + match attr {
            Some(a) => seq![a@],
            None => Seq::empty(),
        },
{
    let ghost before = attributes@;
    match attr {
        Some(a) => attributes.push(a),
        None => {},
    }
    assert(attr_views(attributes@) =~= attr_views(before) + match attr {
        Some(a) => seq![a@],
        None => Seq::<(Seq<char>, ValueView)>::empty(),
    });
}

/// The attributes of the span of a typed HAR record.
pub fn request_attributes(har: &HarRecord) -> (r: Vec<TelemetryAttribute>)
    ensures
        attr_views(r@) == request_attributes_of(*har),
{
    proof {
        reveal_strlit("hosho.har.timing.");
        reveal_strlit("duration_ms");
        reveal_strlit("blocked_ms");
        reveal_strlit("dns_ms");
        reveal_strlit("connect_ms");
        reveal_strlit("ssl_ms");
        reveal_strlit("send_ms");
        reveal_strlit("wait_ms");
        reveal_strlit("receive_ms");
        reveal_strlit("hosho.har.timing.duration_ms");
        reveal_strlit("hosho.har.timing.blocked_ms");
        reveal_strlit("hosho.har.timing.dns_ms");
        reveal_strlit("hosho.har.timing.connect_ms");
        reveal_strlit("hosho.har.timing.ssl_ms");
        reveal_strlit("hosho.har.timing.send_ms");
        reveal_strlit("hosho.har.timing.wait_ms");
        reveal_strlit("hosho.har.timing.receive_ms");
        assert("hosho.har.timing."@ + "duration_ms"@ =~= "hosho.har.timing.duration_ms"@);
        assert("hosho.har.timing."@ + "blocked_ms"@ =~= "hosho.har.timing.blocked_ms"@);
        assert("hosho.har.timing."@ + "dns_ms"@ =~= "hosho.har.timing.dns_ms"@);
        assert("hosho.har.timing."@ + "connect_ms"@ =~= "hosho.har.timing.connect_ms"@);
        assert("hosho.har.timing."@ + "ssl_ms"@ =~= "hosho.har.timing.ssl_ms"@);
        assert("hosho.har.timing."@ + "send_ms"@ =~= "hosho.har.timing.send_ms"@);
        assert("hosho.har.timing."@ + "wait_ms"@ =~= "hosho.har.timing.wait_ms"@);
        assert("hosho.har.timing."@ + "receive_ms"@ =~= "hosho.har.timing.receive_ms"@);
    }
    let mut attributes: Vec<TelemetryAttribute> = Vec::new();
    attributes.push(TelemetryAttribute::new("hosho.signal", TelemetryValue::String("har".to_owned())));
    assert(attr_views(attributes@) =~= seq![("hosho.signal"@, ValueView::Text("har"@))]);
    push_some(&mut attributes, string_attr("http.request.method", &har.request.method));
    let url: Option<String> = match &har.request.url {
        Some(u) => Some(sanitize_url(u.as_str()).sanitized),
        None => None,
    };
    push_some(&mut attributes, string_attr("url.full", &url));
    let status: Option<i64> = match har.response.status {
        Some(n) => if n > 0 {
            Some(n)
        } else {
            None
        },
        None => None,
    };
    push_some(&mut attributes, int_attr("http.response.status_code", status));
    push_some(&mut attributes, string_attr("hosho.har.started_at", &har.timing.started_at));
    push_timing(&mut attributes, "duration_ms", har.timing.duration_ms);
    push_timing(&mut attributes, "blocked_ms", har.timing.blocked_ms);
    push_timing(&mut attributes, "dns_ms", har.timing.dns_ms);
    push_timing(&mut attributes, "connect_ms", har.timing.connect_ms);
    push_timing(&mut attributes, "ssl_ms", har.timing.ssl_ms);
    push_timing(&mut attributes, "send_ms", har.timing.send_ms);
    push_timing(&mut attributes, "wait_ms", har.timing.wait_ms);
    push_timing(&mut attributes, "receive_ms", har.timing.receive_ms);
    push_some(&mut attributes, string_attr("error.type", &error_type(har.response.status)));
    assert(attr_views(attributes@) =~= request_attributes_of(*har));
    attributes
}

} // verus!
