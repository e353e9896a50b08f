//! Timestamp handling for standings computation.
//!
//! Submission and contest timestamps are stored as text and arrive in several
//! encodings: RFC 3339 with an offset, and bare date-times with either a `T`
//! or a space between date and time, with or without a seconds field. All
//! accepted encodings are normalised to one timeline — seconds since the Unix
//! epoch, UTC — before any subtraction. Encodings without an offset are read
//! as UTC, deliberately: a reading in the server's local time would make the
//! timeline depend on the machine's time-zone setting. A string in none of
//! the accepted encodings parses to nothing; callers skip such a timestamp
//! rather than abort.

use vstd::prelude::*;

verus! {

/// `c` is an ASCII decimal digit.
pub open spec fn is_digit(c: char) -> bool {
    48 <= (c as u32) && (c as u32) <= 57
}

/// The numeric value of an ASCII decimal digit.
pub open spec fn digit_val(c: char) -> int {
    (c as u32) - 48
}

/// Positions `i` and `i + 1` of `s` hold decimal digits.
pub open spec fn two_digits_ok(s: Seq<char>, i: int) -> bool {
    is_digit(s[i]) && is_digit(s[i + 1])
}

/// The value of the two-digit number at position `i`.
pub open spec fn two_val(s: Seq<char>, i: int) -> int {
    digit_val(s[i]) * 10 + digit_val(s[i + 1])
}

/// Positions `i` through `i + 3` of `s` hold decimal digits.
pub open spec fn four_digits_ok(s: Seq<char>, i: int) -> bool {
    is_digit(s[i]) && is_digit(s[i + 1]) && is_digit(s[i + 2]) && is_digit(s[i + 3])
}

/// The value of the four-digit number at position `i`.
pub open spec fn four_val(s: Seq<char>, i: int) -> int {
    digit_val(s[i]) * 1000 + digit_val(s[i + 1]) * 100 + digit_val(s[i + 2]) * 10 + digit_val(
        s[i + 3],
    )
}

/// Gregorian leap-year rule.
pub open spec fn is_leap_year(y: int) -> bool {
    (y % 4 == 0 && y % 100 != 0) || y % 400 == 0
}

/// Number of days in month `m` of year `y`.
pub open spec fn days_in_month(y: int, m: int) -> int {
    if m == 2 {
        if is_leap_year(y) {
            29
        } else {
            28
        }
    } else if m == 4 || m == 6 || m == 9 || m == 11 {
        30
    } else {
        31
    }
}

/// The calendar fields form a real date and time of day. Years are limited
/// to four digits by the textual encodings.
pub open spec fn valid_date_time(y: int, m: int, d: int, h: int, mi: int, sec: int) -> bool {
    &&& 0 <= y <= 9999
    &&& 1 <= m <= 12
    &&& 1 <= d <= days_in_month(y, m)
    &&& 0 <= h <= 23
    &&& 0 <= mi <= 59
    &&& 0 <= sec <= 59
}

/// Days from the Unix epoch to the civil date `y-m-d` (negative for dates
/// before 1970). The computation shifts the year so that every intermediate
/// division acts on a non-negative value: years are grouped into 400-year
/// eras, and the day-of-year formula counts from March so that the leap day
/// falls last.
pub open spec fn days_from_civil(y: int, m: int, d: int) -> int {
    let yshift = y + if m <= 2 {
        399int
    } else {
        400int
    };
    let era1 = yshift / 400;
    let yoe = yshift % 400;
    let mp = if m > 2 {
        m - 3
    } else {
        m + 9
    };
    let doy = (153 * mp + 2) / 5 + d - 1;
    let doe = yoe * 365 + yoe / 4 - yoe / 100 + doy;
    (era1 - 1) * 146097 + doe - 719468
}

/// Seconds from the Unix epoch to `y-m-d h:mi:sec`, read as UTC.
pub open spec fn civil_to_epoch(y: int, m: int, d: int, h: int, mi: int, sec: int) -> int {
    days_from_civil(y, m, d) * 86400 + h * 3600 + mi * 60 + sec
}

/// Shape of a bare date-time: `YYYY-MM-DD` then `sep`, then `HH:MM` and,
/// when `with_secs` holds, `:SS`.
pub open spec fn bare_shape(s: Seq<char>, sep: char, with_secs: bool) -> bool {
    &&& s.len() == (if with_secs {
        19int
    } else {
        16int
    })
    &&& four_digits_ok(s, 0)
    &&& s[4] == '-'
    &&& two_digits_ok(s, 5)
    &&& s[7] == '-'
    &&& two_digits_ok(s, 8)
    &&& s[10] == sep
    &&& two_digits_ok(s, 11)
    &&& s[13] == ':'
    &&& two_digits_ok(s, 14)
    &&& (with_secs ==> s[16] == ':' && two_digits_ok(s, 17))
}

/// Epoch seconds of a bare date-time, or nothing when the text is not of
/// that shape or the fields form no real date. A missing seconds field reads
/// as zero seconds.
pub open spec fn spec_parse_bare(s: Seq<char>, sep: char, with_secs: bool) -> Option<int> {
    if bare_shape(s, sep, with_secs) && valid_date_time(
        four_val(s, 0),
        two_val(s, 5),
        two_val(s, 8),
        two_val(s, 11),
        two_val(s, 14),
        if with_secs {
            two_val(s, 17)
        } else {
            0
        },
    ) {
        Some(
            civil_to_epoch(
                four_val(s, 0),
                two_val(s, 5),
                two_val(s, 8),
                two_val(s, 11),
                two_val(s, 14),
                if with_secs {
                    two_val(s, 17)
                } else {
                    0
                },
            ),
        )
    } else {
        None
    }
}

/// Number of consecutive decimal digits of `s` starting at position `i`.
pub open spec fn digit_run(s: Seq<char>, i: int) -> int
    decreases s.len() - i,
{
    if 0 <= i < s.len() && is_digit(s[i]) {
        1 + digit_run(s, i + 1)
    } else {
        0
    }
}

/// The fixed 19-character prefix of an RFC 3339 date-time: date, separator
/// (`T`, `t` or a space) and a time of day with seconds.
pub open spec fn rfc3339_prefix_ok(s: Seq<char>) -> bool {
    &&& s.len() >= 20
    &&& four_digits_ok(s, 0)
    &&& s[4] == '-'
    &&& two_digits_ok(s, 5)
    &&& s[7] == '-'
    &&& two_digits_ok(s, 8)
    &&& (s[10] == 'T' || s[10] == 't' || s[10] == ' ')
    &&& two_digits_ok(s, 11)
    &&& s[13] == ':'
    &&& two_digits_ok(s, 14)
    &&& s[16] == ':'
    &&& two_digits_ok(s, 17)
}

/// Length of the fractional-seconds part (the dot and its digits); zero when
/// there is none. The fraction's value is ignored: standings arithmetic is in
/// whole minutes.
pub open spec fn rfc3339_frac_len(s: Seq<char>) -> int {
    if s.len() > 19 && s[19] == '.' {
        1 + digit_run(s, 20)
    } else {
        0
    }
}

/// Position at which the offset part starts.
pub open spec fn rfc3339_offset_pos(s: Seq<char>) -> int {
    19 + rfc3339_frac_len(s)
}

/// The offset part is well-formed and ends the string: either `Z`/`z`, or a
/// sign with `HH:MM`, hours at most 23 and minutes at most 59. A bare dot
/// with no digit after it is rejected.
pub open spec fn rfc3339_offset_ok(s: Seq<char>) -> bool {
    let p = rfc3339_offset_pos(s);
    &&& (rfc3339_frac_len(s) == 0 || rfc3339_frac_len(s) >= 2)
    &&& if p < s.len() && (s[p] == 'Z' || s[p] == 'z') {
        s.len() == p + 1
    } else {
        &&& s.len() == p + 6
        &&& (s[p] == '+' || s[p] == '-')
        &&& two_digits_ok(s, p + 1)
        &&& s[p + 3] == ':'
        &&& two_digits_ok(s, p + 4)
        &&& two_val(s, p + 1) <= 23
        &&& two_val(s, p + 4) <= 59
    }
}

/// The offset in seconds east of UTC that the offset part denotes.
pub open spec fn rfc3339_offset_secs(s: Seq<char>) -> int {
    let p = rfc3339_offset_pos(s);
    if s[p] == 'Z' || s[p] == 'z' {
        0
    } else {
        let mag = two_val(s, p + 1) * 3600 + two_val(s, p + 4) * 60;
        if s[p] == '+' {
            mag
        } else {
            -mag
        }
    }
}

/// Epoch seconds denoted by an RFC 3339 date-time, or nothing when the text
/// is not of that shape or the fields form no real date. The local fields are
/// converted as written and the offset is subtracted, yielding UTC.
pub open spec fn spec_parse_rfc3339(s: Seq<char>) -> Option<int> {
    if rfc3339_prefix_ok(s) && rfc3339_offset_ok(s) && valid_date_time(
        four_val(s, 0),
        two_val(s, 5),
        two_val(s, 8),
        two_val(s, 11),
        two_val(s, 14),
        two_val(s, 17),
    ) {
        Some(
            civil_to_epoch(
                four_val(s, 0),
                two_val(s, 5),
                two_val(s, 8),
                two_val(s, 11),
                two_val(s, 14),
                two_val(s, 17),
            ) - rfc3339_offset_secs(s),
        )
    } else {
        None
    }
}

/// The accepted encodings, in the order they are tried: RFC 3339 with an
/// offset, then `YYYY-MM-DDTHH:MM:SS`, then `YYYY-MM-DD HH:MM:SS`, then
/// `YYYY-MM-DDTHH:MM`. Bare encodings are read as UTC.
pub open spec fn spec_parse_db_datetime(s: Seq<char>) -> Option<int> {
    if spec_parse_rfc3339(s) is Some {
        spec_parse_rfc3339(s)
    } else if spec_parse_bare(s, 'T', true) is Some {
        spec_parse_bare(s, 'T', true)
    } else if spec_parse_bare(s, ' ', true) is Some {
        spec_parse_bare(s, ' ', true)
    } else {
        spec_parse_bare(s, 'T', false)
    }
}

fn digit_at(s: &str, i: usize) -> (r: Option<u32>)
    requires
        i < s@.len(),
    ensures
        match r {
            Some(v) => is_digit(s@[i as int]) && v == digit_val(s@[i as int]) && v <= 9,
            None => !is_digit(s@[i as int]),
        },
{
    let c = s.get_char(i);
    let u = c as u32;
    if 48 <= u && u <= 57 {
        Some(u - 48)
    } else {
        None
    }
}

fn two_digits(s: &str, i: usize) -> (r: Option<u32>)
    requires
        i + 2 <= s@.len(),
        s@.len() <= usize::MAX,
    ensures
        match r {
            Some(v) => two_digits_ok(s@, i as int) && v == two_val(s@, i as int) && v <= 99,
            None => !two_digits_ok(s@, i as int),
        },
{
    match (digit_at(s, i), digit_at(s, i + 1)) {
        (Some(a), Some(b)) => Some(a * 10 + b),
        _ => None,
    }
}

fn four_digits(s: &str, i: usize) -> (r: Option<u32>)
    requires
        i + 4 <= s@.len(),
        s@.len() <= usize::MAX,
    ensures
        match r {
            Some(v) => four_digits_ok(s@, i as int) && v == four_val(s@, i as int) && v <= 9999,
            None => !four_digits_ok(s@, i as int),
        },
{
    match (digit_at(s, i), digit_at(s, i + 1), digit_at(s, i + 2), digit_at(s, i + 3)) {
        (Some(a), Some(b), Some(c), Some(d)) => Some(a * 1000 + b * 100 + c * 10 + d),
        _ => None,
    }
}

fn char_at_is(s: &str, i: usize, c: char) -> (r: bool)
    requires
        i < s@.len(),
    ensures
        r == (s@[i as int] == c),
{
    s.get_char(i) == c
}

fn is_leap_year_exec(y: u32) -> (r: bool)
    ensures
        r == is_leap_year(y as int),
{
    (y % 4 == 0 && y % 100 != 0) || y % 400 == 0
}

fn days_in_month_exec(y: u32, m: u32) -> (r: u32)
    ensures
        r == days_in_month(y as int, m as int),
{
    if m == 2 {
        if is_leap_year_exec(y) {
            29
        } else {
            28
        }
    } else if m == 4 || m == 6 || m == 9 || m == 11 {
        30
    } else {
        31
    }
}

fn check_fields(y: u32, m: u32, d: u32, h: u32, mi: u32, sec: u32) -> (r: bool)
    requires
        y <= 9999,
    ensures
        r == valid_date_time(y as int, m as int, d as int, h as int, mi as int, sec as int),
{
    1 <= m && m <= 12 && 1 <= d && d <= days_in_month_exec(y, m) && h <= 23 && mi <= 59 && sec
        <= 59
}

fn days_from_civil_exec(y: u32, m: u32, d: u32) -> (r: i64)
    requires
        y <= 9999,
        1 <= m <= 12,
        1 <= d <= 31,
    ensures
        r == days_from_civil(y as int, m as int, d as int),
{
    let yshift: u32 = y + if m <= 2 {
        399
    } else {
        400
    };
    let era1: u32 = yshift / 400;
    let yoe: u32 = yshift % 400;
    let mp: u32 = if m > 2 {
        m - 3
    } else {
        m + 9
    };
    let doy: u32 = (153 * mp + 2) / 5 + d - 1;
    let doe: u32 = yoe * 365 + yoe / 4 - yoe / 100 + doy;
    (era1 as i64 - 1) * 146097 + doe as i64 - 719468
}

fn civil_to_epoch_exec(y: u32, m: u32, d: u32, h: u32, mi: u32, sec: u32) -> (r: i64)
    requires
        valid_date_time(y as int, m as int, d as int, h as int, mi as int, sec as int),
    ensures
        r == civil_to_epoch(y as int, m as int, d as int, h as int, mi as int, sec as int),
{
    let days = days_from_civil_exec(y, m, d);
    days * 86400 + (h as i64) * 3600 + (mi as i64) * 60 + sec as i64
}

fn parse_bare(s: &str, sep: char, with_secs: bool) -> (r: Option<i64>)
    ensures
        match r {
            Some(t) => spec_parse_bare(s@, sep, with_secs) == Some(t as int),
            None => spec_parse_bare(s@, sep, with_secs) is None,
        },
{
    let n = s.unicode_len();
    let expect: usize = if with_secs {
        19
    } else {
        16
    };
    if n != expect {
        return None;
    }
    let y = match four_digits(s, 0) {
        Some(v) => v,
        None => {
            return None;
        },
    };
    if !char_at_is(s, 4, '-') {
        return None;
    }
    let m = match two_digits(s, 5) {
        Some(v) => v,
        None => {
            return None;
        },
    };
    if !char_at_is(s, 7, '-') {
        return None;
    }
    let d = match two_digits(s, 8) {
        Some(v) => v,
        None => {
            return None;
        },
    };
    if !char_at_is(s, 10, sep) {
        return None;
    }
    let h = match two_digits(s, 11) {
        Some(v) => v,
        None => {
            return None;
        },
    };
    if !char_at_is(s, 13, ':') {
        return None;
    }
    let mi = match two_digits(s, 14) {
        Some(v) => v,
        None => {
            return None;
        },
    };
    let sec: u32 = if with_secs {
        if !char_at_is(s, 16, ':') {
            return None;
        }
        match two_digits(s, 17) {
            Some(v) => v,
            None => {
                return None;
            },
        }
    } else {
        0
    };
    if !check_fields(y, m, d, h, mi, sec) {
        return None;
    }
    Some(civil_to_epoch_exec(y, m, d, h, mi, sec))
}

proof fn lemma_digit_run(s: Seq<char>, i: int, j: int)
    requires
        0 <= i <= j <= s.len(),
        forall|k: int| i <= k < j ==> is_digit(s[k]),
        j == s.len() || !is_digit(s[j]),
    ensures
        digit_run(s, i) == j - i,
    decreases j - i,
{
    if i < j {
        lemma_digit_run(s, i + 1, j);
    }
}

fn parse_rfc3339(s: &str) -> (r: Option<i64>)
    ensures
        match r {
            Some(t) => spec_parse_rfc3339(s@) == Some(t as int),
            None => spec_parse_rfc3339(s@) is None,
        },
{
    let n = s.unicode_len();
    if n < 20 {
        return None;
    }
    let y = match four_digits(s, 0) {
        Some(v) => v,
        None => {
            return None;
        },
    };
    if !char_at_is(s, 4, '-') {
        return None;
    }
    let m = match two_digits(s, 5) {
        Some(v) => v,
        None => {
            return None;
        },
    };
    if !char_at_is(s, 7, '-') {
        return None;
    }
    let d = match two_digits(s, 8) {
        Some(v) => v,
        None => {
            return None;
        },
    };
    if !(char_at_is(s, 10, 'T') || char_at_is(s, 10, 't') || char_at_is(s, 10, ' ')) {
        return None;
    }
    let h = match two_digits(s, 11) {
        Some(v) => v,
        None => {
            return None;
        },
    };
    if !char_at_is(s, 13, ':') {
        return None;
    }
    let mi = match two_digits(s, 14) {
        Some(v) => v,
        None => {
            return None;
        },
    };
    if !char_at_is(s, 16, ':') {
        return None;
    }
    let sec = match two_digits(s, 17) {
        Some(v) => v,
        None => {
            return None;
        },
    };
    // Fractional seconds: a dot followed by at least one digit.
    let mut p: usize = 19;
    if char_at_is(s, 19, '.') {
        let mut j: usize = 20;
        while j < n && digit_at_bool(s, j)
            invariant
                20 <= j <= n,
                n == s@.len(),
                forall|k: int| 20 <= k < j ==> is_digit(s@[k]),
            decreases n - j,
        {
            j += 1;
        }
        proof {
            lemma_digit_run(s@, 20, j as int);
        }
        if j == 20 {
            // A bare dot: no digit follows, the frac part is malformed.
            assert(rfc3339_frac_len(s@) == 1);
            return None;
        }
        p = j;
    }
    proof {
        assert(rfc3339_offset_pos(s@) == p as int);
    }
    // Offset part.
    if p >= n {
        return None;
    }
    if char_at_is(s, p, 'Z') || char_at_is(s, p, 'z') {
        if n != p + 1 {
            return None;
        }
        if !check_fields(y, m, d, h, mi, sec) {
            return None;
        }
        return Some(civil_to_epoch_exec(y, m, d, h, mi, sec));
    }
    if n - p != 6 {
        return None;
    }
    let plus = char_at_is(s, p, '+');
    if !(plus || char_at_is(s, p, '-')) {
        return None;
    }
    let oh = match two_digits(s, p + 1) {
        Some(v) => v,
        None => {
            return None;
        },
    };
    if !char_at_is(s, p + 3, ':') {
        return None;
    }
    let om = match two_digits(s, p + 4) {
        Some(v) => v,
        None => {
            return None;
        },
    };
    if oh > 23 || om > 59 {
        return None;
    }
    if !check_fields(y, m, d, h, mi, sec) {
        return None;
    }
    let local = civil_to_epoch_exec(y, m, d, h, mi, sec);
    let mag = (oh as i64) * 3600 + (om as i64) * 60;
    if plus {
        Some(local - mag)
    } else {
        Some(local + mag)
    }
}

fn digit_at_bool(s: &str, i: usize) -> (r: bool)
    requires
        i < s@.len(),
    ensures
        r == is_digit(s@[i as int]),
{
    let u = s.get_char(i) as u32;
    48 <= u && u <= 57
}

/// Parses a stored timestamp in any accepted encoding to seconds since the
/// Unix epoch, UTC; yields nothing for text in no accepted encoding.
pub fn parse_db_datetime(s: &str) -> (r: Option<i64>)
    ensures
        match r {
            Some(t) => spec_parse_db_datetime(s@) == Some(t as int),
            None => spec_parse_db_datetime(s@) is None,
        },
{
    match parse_rfc3339(s) {
        Some(t) => Some(t),
        None => {
            match parse_bare(s, 'T', true) {
                Some(t) => Some(t),
                None => {
                    match parse_bare(s, ' ', true) {
                        Some(t) => Some(t),
                        None => parse_bare(s, 'T', false),
                    }
                },
            }
        },
    }
}

/// Whole minutes from `start` to `t`, floored at zero: a timestamp at or
/// before the contest start counts as zero minutes late.
pub open spec fn spec_minutes_late(start: int, t: int) -> int {
    if t <= start {
        0
    } else {
        (t - start) / 60
    }
}

/// Computes `spec_minutes_late` on epoch seconds.
pub fn minutes_late(start: i64, t: i64) -> (r: i64)
    requires
        t > start ==> t - start <= i64::MAX,
    ensures
        r == spec_minutes_late(start as int, t as int),
{
    if t <= start {
        0
    } else {
        let diff = (t - start) as u64;
        (diff / 60) as i64
    }
}

} // verus!
