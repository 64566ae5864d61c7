//! Parsing of Suricata's timestamp format `YYYY-MM-DDTHH:MM:SS.ffffff±ZZZZ`
//! into seconds since the Unix epoch. Any value that does not match the
//! format parses to zero. The fractional digits are read for validity but do
//! not contribute to the result; the civil-date arithmetic is the usual
//! era/day-of-era decomposition of the proleptic Gregorian calendar.

use vstd::prelude::*;

verus! {

/// Whether a character is a decimal digit.
pub open spec fn is_digit(c: char) -> bool {
    48 <= c as int && c as int <= 57
}

/// The value of a decimal digit character.
pub open spec fn digit_val(c: char) -> int {
    c as int - 48
}

/// The two-digit number at position `i`.
pub open spec fn spec_num2(s: Seq<char>, i: int) -> int {
    10 * digit_val(s[i]) + digit_val(s[i + 1])
}

/// The four-digit number at position `i`.
pub open spec fn spec_num4(s: Seq<char>, i: int) -> int {
    1000 * digit_val(s[i]) + 100 * digit_val(s[i + 1]) + 10 * digit_val(s[i + 2]) + digit_val(
        s[i + 3],
    )
}

/// Whether the characters have the exact shape
/// `YYYY-MM-DDTHH:MM:SS.ffffff±ZZZZ` (31 characters).
pub open spec fn ts_shape_ok(s: Seq<char>) -> bool {
    &&& s.len() == 31
    &&& is_digit(s[0])
    &&& is_digit(s[1])
    &&& is_digit(s[2])
    &&& is_digit(s[3])
    &&& s[4] == '-'
    &&& is_digit(s[5])
    &&& is_digit(s[6])
    &&& s[7] == '-'
    &&& is_digit(s[8])
    &&& is_digit(s[9])
    &&& s[10] == 'T'
    &&& is_digit(s[11])
    &&& is_digit(s[12])
    &&& s[13] == ':'
    &&& is_digit(s[14])
    &&& is_digit(s[15])
    &&& s[16] == ':'
    &&& is_digit(s[17])
    &&& is_digit(s[18])
    &&& s[19] == '.'
    &&& is_digit(s[20])
    &&& is_digit(s[21])
    &&& is_digit(s[22])
    &&& is_digit(s[23])
    &&& is_digit(s[24])
    &&& is_digit(s[25])
    &&& (s[26] == '+' || s[26] == '-')
    &&& is_digit(s[27])
    &&& is_digit(s[28])
    &&& is_digit(s[29])
    &&& is_digit(s[30])
}

/// Whether the calendar fields of a well-shaped timestamp are in range.
pub open spec fn ts_fields_ok(s: Seq<char>) -> bool {
    &&& 1 <= spec_num4(s, 0)
    &&& 1 <= spec_num2(s, 5) <= 12
    &&& 1 <= spec_num2(s, 8) <= 31
    &&& spec_num2(s, 11) <= 23
    &&& spec_num2(s, 14) <= 59
    &&& spec_num2(s, 17) <= 59
}

/// Days from the epoch (1970-01-01) to the civil date `y-m-d` in the
/// proleptic Gregorian calendar, via the era / day-of-era decomposition.
pub open spec fn spec_days_from_civil(y: int, m: int, d: int) -> int {
    let yy = if m <= 2 {
        y - 1
    } else {
        y
    };
    let era = yy / 400;
    let yoe = yy - era * 400;
    let mp = if m > 2 {
        m - 3
    } else {
        m + 9
    };
    let doy = (153 * mp + 2) / 5 + d - 1;
    let doe = yoe * 365 + yoe / 4 - yoe / 100 + doy;
    era * 146097 + doe - 719468
}

/// The epoch seconds denoted by a well-shaped timestamp: civil date and time
/// of day, minus the signed zone offset.
pub open spec fn spec_ts_seconds(s: Seq<char>) -> int {
    let days = spec_days_from_civil(spec_num4(s, 0), spec_num2(s, 5), spec_num2(s, 8));
    let tod = spec_num2(s, 11) * 3600 + spec_num2(s, 14) * 60 + spec_num2(s, 17);
    let off = (spec_num2(s, 27) * 60 + spec_num2(s, 29)) * 60;
    if s[26] == '+' {
        days * 86400 + tod - off
    } else {
        days * 86400 + tod + off
    }
}

/// What `parse_timestamp` returns: the epoch seconds of a well-formed
/// timestamp, and zero for anything else. The seconds of any well-formed
/// timestamp fit in an `i64`, so the cast below never truncates.
pub open spec fn spec_parse_timestamp(s: Seq<char>) -> i64 {
    if ts_shape_ok(s) && ts_fields_ok(s) {
        spec_ts_seconds(s) as i64
    } else {
        0
    }
}

fn digit_at(s: &str, i: usize) -> (r: Option<u32>)
    requires
        i < s@.len(),
    ensures
        match r {
            Option::Some(d) => is_digit(s@[i as int]) && d == digit_val(s@[i as int]),
            Option::None => !is_digit(s@[i as int]),
        },
{
    let c = s.get_char(i);
    let v = c as u32;
    if 48 <= v && v <= 57 {
        Some(v - 48)
    } else {
        None
    }
}

fn num2_at(s: &str, i: usize) -> (r: Option<u32>)
    requires
        i + 1 < s@.len(),
        i <= 29,
    ensures
        match r {
            Option::Some(v) => {
                &&& is_digit(s@[i as int])
                &&& is_digit(s@[i as int + 1])
                &&& v == spec_num2(s@, i as int)
                &&& v <= 99
            },
            Option::None => !(is_digit(s@[i as int]) && is_digit(s@[i as int + 1])),
        },
{
    let d0 = match digit_at(s, i) {
        Some(d) => d,
        None => {
            return None;
        },
    };
    let d1 = match digit_at(s, i + 1) {
        Some(d) => d,
        None => {
            return None;
        },
    };
    Some(10 * d0 + d1)
}

fn num4_at(s: &str, i: usize) -> (r: Option<u32>)
    requires
        i + 3 < s@.len(),
        i <= 27,
    ensures
        match r {
            Option::Some(v) => {
                &&& is_digit(s@[i as int])
                &&& is_digit(s@[i as int + 1])
                &&& is_digit(s@[i as int + 2])
                &&& is_digit(s@[i as int + 3])
                &&& v == spec_num4(s@, i as int)
                &&& v <= 9999
            },
            Option::None => !(is_digit(s@[i as int]) && is_digit(s@[i as int + 1]) && is_digit(
                s@[i as int + 2],
            ) && is_digit(s@[i as int + 3])),
        },
{
    let hi = match num2_at(s, i) {
        Some(v) => v,
        None => {
            return None;
        },
    };
    let lo = match num2_at(s, i + 2) {
        Some(v) => v,
        None => {
            return None;
        },
    };
    Some(100 * hi + lo)
}

fn days_from_civil(y: u64, m: u64, d: u64) -> (r: i64)
    requires
        1 <= y <= 9999,
        1 <= m <= 12,
        1 <= d <= 31,
    ensures
        r == spec_days_from_civil(y as int, m as int, d as int),
        -719468 <= r <= 2932961,
{
    let yy: u64 = if m <= 2 {
        y - 1
    } else {
        y
    };
    let era: u64 = yy / 400;
    let yoe: u64 = yy - era * 400;
    let mp: u64 = if m > 2 {
        m - 3
    } else {
        m + 9
    };
    let doy: u64 = (153 * mp + 2) / 5 + d - 1;
    let doe: u64 = yoe * 365 + yoe / 4 - yoe / 100 + doy;
    let acc: u64 = era * 146097 + doe;
    assert(yy == if m <= 2 { y - 1 } else { y as int });
    assert(era <= 24 && yoe <= 399 && mp <= 11);
    assert(doy <= 367 && doe <= 146101);
    assert(acc <= 24 * 146097 + 146101);
    acc as i64 - 719468
}

/// Parses a Suricata timestamp to seconds since the Unix epoch; a value that
/// does not match the format yields zero.
pub fn parse_timestamp(ts: &str) -> (r: i64)
    ensures
        r == spec_parse_timestamp(ts@),
{
    let n = ts.unicode_len();
    if n != 31 {
        return 0;
    }
    if ts.get_char(4) != '-' || ts.get_char(7) != '-' || ts.get_char(10) != 'T' || ts.get_char(13)
        != ':' || ts.get_char(16) != ':' || ts.get_char(19) != '.' {
        return 0;
    }
    let sign = ts.get_char(26);
    if sign != '+' && sign != '-' {
        return 0;
    }
    let year = match num4_at(ts, 0) {
        Some(v) => v,
        None => {
            return 0;
        },
    };
    let month = match num2_at(ts, 5) {
        Some(v) => v,
        None => {
            return 0;
        },
    };
    let day = match num2_at(ts, 8) {
        Some(v) => v,
        None => {
            return 0;
        },
    };
    let hour = match num2_at(ts, 11) {
        Some(v) => v,
        None => {
            return 0;
        },
    };
    let minute = match num2_at(ts, 14) {
        Some(v) => v,
        None => {
            return 0;
        },
    };
    let second = match num2_at(ts, 17) {
        Some(v) => v,
        None => {
            return 0;
        },
    };
    if digit_at(ts, 20).is_none() || digit_at(ts, 21).is_none() || digit_at(ts, 22).is_none()
        || digit_at(ts, 23).is_none() || digit_at(ts, 24).is_none() || digit_at(ts, 25).is_none() {
        return 0;
    }
    let offh = match num2_at(ts, 27) {
        Some(v) => v,
        None => {
            return 0;
        },
    };
    let offm = match num2_at(ts, 29) {
        Some(v) => v,
        None => {
            return 0;
        },
    };
    if !(1 <= year && 1 <= month && month <= 12 && 1 <= day && day <= 31 && hour <= 23 && minute
        <= 59 && second <= 59) {
        return 0;
    }
    assert(ts_shape_ok(ts@) && ts_fields_ok(ts@));
    let days = days_from_civil(year as u64, month as u64, day as u64);
    let tod: i64 = (hour as i64) * 3600 + (minute as i64) * 60 + (second as i64);
    let off: i64 = ((offh as i64) * 60 + (offm as i64)) * 60;
    if sign == '+' {
        days * 86400 + tod - off
    } else {
        days * 86400 + tod + off
    }
}

} // verus!
