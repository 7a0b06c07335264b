//! The time value of the resolver: an instant together with the UTC
//! offset it was expressed in, kept through every rendering.
//!
//! Renderings: the human format `YYYY-MM-DD HH:MM:SS +HH:MM`, the
//! internet-mail date format, the extended `T`-separated format, and the
//! plain Unix timestamp.

use vstd::prelude::*;

use crate::civil::{
    civil_from_secs, civil_secs, civil_to_secs_x, day_index, days_before_year,
    days_before_year_x, days_in_month, lemma_days_before_year_bounds, month_days, valid_civil,
    days_before_month_x,
};
use crate::err::{SdResult, ShadowError};
use crate::fact::{env_val, EnvSnapshot};
use crate::strutil::{
    char_digit, char_digit_of, chars_to_string, digit_char, digit_char_of, is_digit,
    is_digit_char, parse_i64, spec_parse_i64, str_to_chars,
};

verus! {

/// Seconds from the opening of year one to the Unix epoch.
pub open spec fn epoch_secs() -> int {
    62135596800
}

/// An instant with the UTC offset it was expressed in.
///
/// The civil fields give the wall-clock reading in that offset; `unix`
/// is the same instant as seconds since the Unix epoch, so the two views
/// are tied together by the well-formedness predicate.
#[derive(Debug, Clone, Copy, PartialEq, Eq, Structural)]
pub struct OffsetDateTime {
    pub year: u16,
    pub month: u8,
    pub day: u8,
    pub hour: u8,
    pub minute: u8,
    pub second: u8,
    /// Seconds east of UTC, always a whole number of minutes.
    pub offset_seconds: i32,
    /// The instant, as seconds since the Unix epoch.
    pub unix: i64,
}

impl OffsetDateTime {
    /// The internal invariant: the civil fields are a valid date and
    /// time, the offset is minute-aligned and within a day, and reading
    /// the civil fields in the offset yields exactly the instant.
    pub open spec fn wf(self) -> bool {
        &&& valid_civil(
            self.year as int,
            self.month as int,
            self.day as int,
            self.hour as int,
            self.minute as int,
            self.second as int,
        )
        &&& self.offset_seconds % 60 == 0
        &&& -86340 <= self.offset_seconds <= 86340
        &&& civil_secs(
            self.year as int,
            self.month as int,
            self.day as int,
            self.hour as int,
            self.minute as int,
            self.second as int,
        ) == self.unix + self.offset_seconds + epoch_secs()
    }
}

/// The two-digit zero-padded decimal encoding of `n` below one hundred.
pub open spec fn pad2(n: int) -> Seq<char> {
    seq![digit_char(n / 10), digit_char(n % 10)]
}

/// The four-digit zero-padded decimal encoding of `n` below ten
/// thousand.
pub open spec fn pad4(n: int) -> Seq<char> {
    seq![
        digit_char(n / 1000),
        digit_char((n / 100) % 10),
        digit_char((n / 10) % 10),
        digit_char(n % 10),
    ]
}

/// The magnitude of an offset.
pub open spec fn off_abs(off: int) -> int {
    if off < 0 {
        -off
    } else {
        off
    }
}

/// The sign character under which an offset is rendered.
pub open spec fn off_sign_char(off: int) -> char {
    if off < 0 {
        '-'
    } else {
        '+'
    }
}

/// The human rendering of an instant:
/// `YYYY-MM-DD HH:MM:SS +HH:MM`, the offset kept as it was expressed.
pub open spec fn human_chars(o: OffsetDateTime) -> Seq<char> {
    pad4(o.year as int) + seq!['-'] + pad2(o.month as int) + seq!['-'] + pad2(o.day as int)
        + seq![' '] + pad2(o.hour as int) + seq![':'] + pad2(o.minute as int) + seq![':'] + pad2(
        o.second as int,
    ) + seq![' '] + seq![off_sign_char(o.offset_seconds as int)] + pad2(
        off_abs(o.offset_seconds as int) / 3600,
    ) + seq![':'] + pad2((off_abs(o.offset_seconds as int) % 3600) / 60)
}

/// The extended rendering of an instant: date and time joined by `T`,
/// the offset numeric, or `Z` for UTC.
pub open spec fn rfc3339_chars(o: OffsetDateTime) -> Seq<char> {
    pad4(o.year as int) + seq!['-'] + pad2(o.month as int) + seq!['-'] + pad2(o.day as int)
        + seq!['T'] + pad2(o.hour as int) + seq![':'] + pad2(o.minute as int) + seq![':'] + pad2(
        o.second as int,
    ) + (if o.offset_seconds == 0 {
        seq!['Z']
    } else {
        seq![off_sign_char(o.offset_seconds as int)] + pad2(
            off_abs(o.offset_seconds as int) / 3600,
        ) + seq![':'] + pad2((off_abs(o.offset_seconds as int) % 3600) / 60)
    })
}

/// The weekday index of a day number, zero standing for Monday: the
/// first day of year one was a Monday.
pub open spec fn weekday_of_day(day: int) -> int {
    day % 7
}

/// The three-letter name of a weekday index.
pub open spec fn weekday_name(w: int) -> Seq<char> {
    if w == 0 {
        seq!['M', 'o', 'n']
    } else if w == 1 {
        seq!['T', 'u', 'e']
    } else if w == 2 {
        seq!['W', 'e', 'd']
    } else if w == 3 {
        seq!['T', 'h', 'u']
    } else if w == 4 {
        seq!['F', 'r', 'i']
    } else if w == 5 {
        seq!['S', 'a', 't']
    } else {
        seq!['S', 'u', 'n']
    }
}

/// The three-letter name of a month.
pub open spec fn month_name(m: int) -> Seq<char> {
    if m == 1 {
        seq!['J', 'a', 'n']
    } else if m == 2 {
        seq!['F', 'e', 'b']
    } else if m == 3 {
        seq!['M', 'a', 'r']
    } else if m == 4 {
        seq!['A', 'p', 'r']
    } else if m == 5 {
        seq!['M', 'a', 'y']
    } else if m == 6 {
        seq!['J', 'u', 'n']
    } else if m == 7 {
        seq!['J', 'u', 'l']
    } else if m == 8 {
        seq!['A', 'u', 'g']
    } else if m == 9 {
        seq!['S', 'e', 'p']
    } else if m == 10 {
        seq!['O', 'c', 't']
    } else if m == 11 {
        seq!['N', 'o', 'v']
    } else {
        seq!['D', 'e', 'c']
    }
}

/// The internet-mail rendering of an instant:
/// `Wdy, DD Mon YYYY HH:MM:SS +HHMM`.
pub open spec fn rfc2822_chars(o: OffsetDateTime) -> Seq<char> {
    weekday_name(weekday_of_day(day_index(o.year as int, o.month as int, o.day as int)))
        + seq![',', ' '] + pad2(o.day as int) + seq![' '] + month_name(o.month as int)
        + seq![' '] + pad4(o.year as int) + seq![' '] + pad2(o.hour as int) + seq![':'] + pad2(
        o.minute as int,
    ) + seq![':'] + pad2(o.second as int) + seq![' '] + seq![
        off_sign_char(o.offset_seconds as int),
    ] + pad2(off_abs(o.offset_seconds as int) / 3600) + pad2(
        (off_abs(o.offset_seconds as int) % 3600) / 60,
    )
}

/// Append the two-digit encoding of `n`.
fn push_pad2(out: &mut Vec<char>, n: u64)
    requires
        n < 100,
    ensures
        final(out)@ == old(out)@ + pad2(n as int),
{
    out.push(digit_char_of(n / 10));
    out.push(digit_char_of(n % 10));
    proof {
        assert(out@ =~= old(out)@ + pad2(n as int));
    }
}

/// Append the four-digit encoding of `n`.
fn push_pad4(out: &mut Vec<char>, n: u64)
    requires
        n < 10000,
    ensures
        final(out)@ == old(out)@ + pad4(n as int),
{
    out.push(digit_char_of(n / 1000));
    out.push(digit_char_of((n / 100) % 10));
    out.push(digit_char_of((n / 10) % 10));
    out.push(digit_char_of(n % 10));
    proof {
        assert(out@ =~= old(out)@ + pad4(n as int));
    }
}

/// Append the three-letter weekday name.
fn push_weekday(out: &mut Vec<char>, w: u64)
    requires
        w < 7,
    ensures
        final(out)@ == old(out)@ + weekday_name(w as int),
{
    match w {
        0 => {
            out.push('M');
            out.push('o');
            out.push('n');
        },
        1 => {
            out.push('T');
            out.push('u');
            out.push('e');
        },
        2 => {
            out.push('W');
            out.push('e');
            out.push('d');
        },
        3 => {
            out.push('T');
            out.push('h');
            out.push('u');
        },
        4 => {
            out.push('F');
            out.push('r');
            out.push('i');
        },
        5 => {
            out.push('S');
            out.push('a');
            out.push('t');
        },
        _ => {
            out.push('S');
            out.push('u');
            out.push('n');
        },
    }
    proof {
        assert(out@ =~= old(out)@ + weekday_name(w as int));
    }
}

/// Append the three-letter month name.
fn push_month(out: &mut Vec<char>, m: u64)
    requires
        1 <= m <= 12,
    ensures
        final(out)@ == old(out)@ + month_name(m as int),
{
    match m {
        1 => {
            out.push('J');
            out.push('a');
            out.push('n');
        },
        2 => {
            out.push('F');
            out.push('e');
            out.push('b');
        },
        3 => {
            out.push('M');
            out.push('a');
            out.push('r');
        },
        4 => {
            out.push('A');
            out.push('p');
            out.push('r');
        },
        5 => {
            out.push('M');
            out.push('a');
            out.push('y');
        },
        6 => {
            out.push('J');
            out.push('u');
            out.push('n');
        },
        7 => {
            out.push('J');
            out.push('u');
            out.push('l');
        },
        8 => {
            out.push('A');
            out.push('u');
            out.push('g');
        },
        9 => {
            out.push('S');
            out.push('e');
            out.push('p');
        },
        10 => {
            out.push('O');
            out.push('c');
            out.push('t');
        },
        11 => {
            out.push('N');
            out.push('o');
            out.push('v');
        },
        _ => {
            out.push('D');
            out.push('e');
            out.push('c');
        },
    }
    proof {
        assert(out@ =~= old(out)@ + month_name(m as int));
    }
}

impl OffsetDateTime {
    /// The offset magnitude and sign, for rendering.
    fn offset_parts(&self) -> (r: (bool, u64))
        requires
            -86340 <= self.offset_seconds <= 86340,
        ensures
            r.0 == (self.offset_seconds < 0),
            r.1 == off_abs(self.offset_seconds as int),
            r.1 <= 86340,
    {
        if self.offset_seconds < 0 {
            (true, (-(self.offset_seconds as i64)) as u64)
        } else {
            (false, self.offset_seconds as u64)
        }
    }

    /// Render the instant in the human format, the original offset kept.
    pub fn human_format(&self) -> (r: String)
        requires
            self.wf(),
        ensures
            r@ == human_chars(*self),
    {
        let mut out: Vec<char> = Vec::new();
        push_pad4(&mut out, self.year as u64);
        out.push('-');
        push_pad2(&mut out, self.month as u64);
        out.push('-');
        push_pad2(&mut out, self.day as u64);
        out.push(' ');
        push_pad2(&mut out, self.hour as u64);
        out.push(':');
        push_pad2(&mut out, self.minute as u64);
        out.push(':');
        push_pad2(&mut out, self.second as u64);
        out.push(' ');
        let (neg, mag) = self.offset_parts();
        out.push(if neg {
            '-'
        } else {
            '+'
        });
        push_pad2(&mut out, mag / 3600);
        out.push(':');
        push_pad2(&mut out, (mag % 3600) / 60);
        proof {
            assert(out@ =~= human_chars(*self));
        }
        chars_to_string(&out)
    }

    /// Render the instant in the extended format, `Z` standing for a
    /// zero offset.
    pub fn to_rfc3339(&self) -> (r: String)
        requires
            self.wf(),
        ensures
            r@ == rfc3339_chars(*self),
    {
        let mut out: Vec<char> = Vec::new();
        push_pad4(&mut out, self.year as u64);
        out.push('-');
        push_pad2(&mut out, self.month as u64);
        out.push('-');
        push_pad2(&mut out, self.day as u64);
        out.push('T');
        push_pad2(&mut out, self.hour as u64);
        out.push(':');
        push_pad2(&mut out, self.minute as u64);
        out.push(':');
        push_pad2(&mut out, self.second as u64);
        if self.offset_seconds == 0 {
            out.push('Z');
        } else {
            let (neg, mag) = self.offset_parts();
            out.push(if neg {
                '-'
            } else {
                '+'
            });
            push_pad2(&mut out, mag / 3600);
            out.push(':');
            push_pad2(&mut out, (mag % 3600) / 60);
        }
        proof {
            assert(out@ =~= rfc3339_chars(*self));
        }
        chars_to_string(&out)
    }

    /// Render the instant in the internet-mail format.
    pub fn to_rfc2822(&self) -> (r: String)
        requires
            self.wf(),
        ensures
            r@ == rfc2822_chars(*self),
    {
        let mut out: Vec<char> = Vec::new();
        let before_year = days_before_year_x(self.year as u64);
        let before_month = days_before_month_x(self.year as u64, self.month as u64);
        let day_no: u64 = before_year + before_month + (self.day as u64) - 1;
        let w: u64 = day_no % 7;
        proof {
            crate::civil::lemma_days_before_month_bounds(self.year as int, self.month as int);
            assert(day_no == day_index(self.year as int, self.month as int, self.day as int));
        }
        push_weekday(&mut out, w);
        out.push(',');
        out.push(' ');
        push_pad2(&mut out, self.day as u64);
        out.push(' ');
        push_month(&mut out, self.month as u64);
        out.push(' ');
        push_pad4(&mut out, self.year as u64);
        out.push(' ');
        push_pad2(&mut out, self.hour as u64);
        out.push(':');
        push_pad2(&mut out, self.minute as u64);
        out.push(':');
        push_pad2(&mut out, self.second as u64);
        out.push(' ');
        let (neg, mag) = self.offset_parts();
        out.push(if neg {
            '-'
        } else {
            '+'
        });
        push_pad2(&mut out, mag / 3600);
        push_pad2(&mut out, (mag % 3600) / 60);
        proof {
            assert(out@ =~= rfc2822_chars(*self));
        }
        chars_to_string(&out)
    }
}

/// An offset truncated to whole minutes, toward zero in magnitude.
pub open spec fn minute_truncated(off: int) -> int {
    if off < 0 {
        -((-off) - (-off) % 60)
    } else {
        off - off % 60
    }
}

/// Build a well-formed time value from an instant and an offset.
///
/// The offset is truncated to whole minutes; the construction succeeds
/// exactly when the instant read in that offset falls into the supported
/// calendar range.
pub fn from_timestamp_offset(ts: i64, off: i32) -> (r: SdResult<OffsetDateTime>)
    ensures
        match r {
            Ok(o) => {
                &&& o.wf()
                &&& o.unix == ts
                &&& o.offset_seconds == minute_truncated(off as int)
                &&& -86340 <= minute_truncated(off as int) <= 86340
                &&& 0 <= ts + minute_truncated(off as int) + epoch_secs() < days_before_year(
                    10000,
                ) * 86400
            },
            Err(_) => {
                ||| !(-86340 <= minute_truncated(off as int) <= 86340)
                ||| !(0 <= ts + minute_truncated(off as int) + epoch_secs() < days_before_year(
                    10000,
                ) * 86400)
            },
        },
{
    let off64: i64 = off as i64;
    let mag: i64 = if off64 < 0 {
        -off64
    } else {
        off64
    };
    let mag_t: i64 = mag - mag % 60;
    let off_t: i64 = if off64 < 0 {
        -mag_t
    } else {
        mag_t
    };
    proof {
        assert(off_t == minute_truncated(off as int));
    }
    if off_t < -86340 || off_t > 86340 {
        return Err(ShadowError::new(String::from_str("time offset out of range")));
    }
    proof {
        lemma_days_before_year_bounds(10000);
    }
    if ts < -62135596800 - off_t {
        proof {
            assert(days_before_year(10000) * 86400 >= 0) by (nonlinear_arith)
                requires
                    days_before_year(10000) >= 0,
            ;
        }
        return Err(ShadowError::new(String::from_str("timestamp out of range")));
    }
    if ts > 400000000000 {
        proof {
            assert(days_before_year(10000) * 86400 <= 3659634 * 86400) by (nonlinear_arith)
                requires
                    days_before_year(10000) <= 3659634,
            ;
        }
        return Err(ShadowError::new(String::from_str("timestamp out of range")));
    }
    let shifted_i: i64 = ts + off_t + 62135596800;
    let shifted: u64 = shifted_i as u64;
    let limit: u64 = days_before_year_x(10000) * 86400;
    proof {
        assert(days_before_year(10000) * 86400 <= 3659634 * 86400) by (nonlinear_arith)
            requires
                days_before_year(10000) <= 3659634,
        ;
    }
    if shifted >= limit {
        return Err(ShadowError::new(String::from_str("timestamp out of range")));
    }
    let (y, m, d, h, mi, s) = civil_from_secs(shifted);
    let o = OffsetDateTime {
        year: y as u16,
        month: m as u8,
        day: d as u8,
        hour: h as u8,
        minute: mi as u8,
        second: s as u8,
        offset_seconds: off_t as i32,
        unix: ts,
    };
    Ok(o)
}

} // verus!

verus! {

/// What the civil fields and offset build, when they are a valid date
/// and time with a minute-aligned offset in range.
pub open spec fn civil_build(
    y: int,
    m: int,
    d: int,
    h: int,
    mi: int,
    sec: int,
    off: int,
) -> Option<OffsetDateTime> {
    if valid_civil(y, m, d, h, mi, sec) && -86340 <= off <= 86340 && off % 60 == 0 {
        Some(
            OffsetDateTime {
                year: y as u16,
                month: m as u8,
                day: d as u8,
                hour: h as u8,
                minute: mi as u8,
                second: sec as u8,
                offset_seconds: off as i32,
                unix: (civil_secs(y, m, d, h, mi, sec) - off - epoch_secs()) as i64,
            },
        )
    } else {
        None
    }
}

/// The value of the four digit characters at `i`.
pub open spec fn four_digits(s: Seq<char>, i: int) -> int {
    char_digit(s[i]) * 1000 + char_digit(s[i + 1]) * 100 + char_digit(s[i + 2]) * 10 + char_digit(
        s[i + 3],
    )
}

/// The value of the two digit characters at `i`.
pub open spec fn two_digits(s: Seq<char>, i: int) -> int {
    char_digit(s[i]) * 10 + char_digit(s[i + 1])
}

/// Whether positions `i` through `i + 5` hold a numeric offset
/// `±HH:MM` closing the string, and what offset it denotes.
pub open spec fn spec_parse_offset_tail(s: Seq<char>, i: int) -> Option<int> {
    if s.len() != i + 6 {
        None
    } else if !((s[i] == '+' || s[i] == '-') && is_digit(s[i + 1]) && is_digit(s[i + 2]) && s[i
        + 3] == ':' && is_digit(s[i + 4]) && is_digit(s[i + 5])) {
        None
    } else {
        let hh = two_digits(s, i + 1);
        let mm = two_digits(s, i + 4);
        if hh > 23 || mm > 59 {
            None
        } else if s[i] == '-' {
            Some(-(hh * 3600 + mm * 60))
        } else {
            Some(hh * 3600 + mm * 60)
        }
    }
}

/// Whether the first nineteen characters have the shape
/// `YYYY-MM-DD?HH:MM:SS` with `sep` between date and time.
pub open spec fn date_time_shape(s: Seq<char>, sep: char) -> bool {
    &&& s.len() >= 19
    &&& is_digit(s[0]) && is_digit(s[1]) && is_digit(s[2]) && is_digit(s[3])
    &&& s[4] == '-' && is_digit(s[5]) && is_digit(s[6]) && s[7] == '-'
    &&& is_digit(s[8]) && is_digit(s[9]) && s[10] == sep
    &&& is_digit(s[11]) && is_digit(s[12]) && s[13] == ':'
    &&& is_digit(s[14]) && is_digit(s[15]) && s[16] == ':'
    &&& is_digit(s[17]) && is_digit(s[18])
}

/// What parsing an offset-aware extended timestamp yields: the fields,
/// with the offset preserved exactly, `Z` standing for zero.
pub open spec fn spec_parse_iso(s: Seq<char>) -> Option<OffsetDateTime> {
    if !date_time_shape(s, 'T') {
        None
    } else {
        let y = four_digits(s, 0);
        let m = two_digits(s, 5);
        let d = two_digits(s, 8);
        let h = two_digits(s, 11);
        let mi = two_digits(s, 14);
        let sec = two_digits(s, 17);
        if s.len() == 20 {
            if s[19] == 'Z' {
                civil_build(y, m, d, h, mi, sec, 0)
            } else {
                None
            }
        } else {
            match spec_parse_offset_tail(s, 19) {
                Some(off) => civil_build(y, m, d, h, mi, sec, off),
                None => None,
            }
        }
    }
}

/// What parsing a human-format timestamp yields: as the extended form,
/// with spaces around the time and a mandatory signed offset.
pub open spec fn spec_parse_human(s: Seq<char>) -> Option<OffsetDateTime> {
    if !(date_time_shape(s, ' ') && s.len() == 26 && s[19] == ' ') {
        None
    } else {
        let y = four_digits(s, 0);
        let m = two_digits(s, 5);
        let d = two_digits(s, 8);
        let h = two_digits(s, 11);
        let mi = two_digits(s, 14);
        let sec = two_digits(s, 17);
        match spec_parse_offset_tail(s, 20) {
            Some(off) => civil_build(y, m, d, h, mi, sec, off),
            None => None,
        }
    }
}

/// Build a time value from parsed fields, validating them.
fn from_civil_fields(y: u64, m: u64, d: u64, h: u64, mi: u64, sec: u64, neg: bool, mag: u64) -> (r:
    Option<OffsetDateTime>)
    requires
        y < 10000,
        m < 100,
        d < 100,
        h < 100,
        mi < 100,
        sec < 100,
        mag <= 86340,
        mag % 60 == 0,
    ensures
        r == civil_build(
            y as int,
            m as int,
            d as int,
            h as int,
            mi as int,
            sec as int,
            if neg {
                -(mag as int)
            } else {
                mag as int
            },
        ),
{
    let ghost off: int = if neg {
        -(mag as int)
    } else {
        mag as int
    };
    proof {
        assert(off % 60 == 0) by (nonlinear_arith)
            requires
                mag % 60 == 0,
                off == if neg {
                    -(mag as int)
                } else {
                    mag as int
                },
                mag >= 0,
        ;
    }
    if y < 1 || m < 1 || m > 12 || d < 1 || h > 23 || mi > 59 || sec > 59 {
        return None;
    }
    if d > month_days(y, m) {
        return None;
    }
    let secs: u64 = civil_to_secs_x(y, m, d, h, mi, sec);
    proof {
        lemma_days_before_year_bounds(10000);
        assert(days_before_year(10000) * 86400 <= 3659634 * 86400) by (nonlinear_arith)
            requires
                days_before_year(10000) <= 3659634,
        ;
    }
    let off_x: i64 = if neg {
        -(mag as i64)
    } else {
        mag as i64
    };
    let unix: i64 = (secs as i64) - off_x - 62135596800;
    Some(
        OffsetDateTime {
            year: y as u16,
            month: m as u8,
            day: d as u8,
            hour: h as u8,
            minute: mi as u8,
            second: sec as u8,
            offset_seconds: off_x as i32,
            unix,
        },
    )
}

/// Read the two digit characters at `i`.
fn read2(v: &Vec<char>, i: usize) -> (r: u64)
    requires
        i + 2 <= v@.len(),
        is_digit(v@[i as int]),
        is_digit(v@[i + 1]),
    ensures
        r == two_digits(v@, i as int),
        r < 100,
{
    let n: usize = v.len();
    proof {
        assert(char_digit(v@[i as int]) <= 9);
        assert(char_digit(v@[i + 1]) <= 9);
    }
    char_digit_of(v[i]) * 10 + char_digit_of(v[i + 1])
}

/// Parse the `±HH:MM` offset closing the string at `i`.
fn parse_offset_tail(v: &Vec<char>, i: usize) -> (r: Option<(bool, u64)>)
    requires
        i <= v@.len(),
    ensures
        match r {
            Some(p) => {
                &&& spec_parse_offset_tail(v@, i as int) == Some(
                    if p.0 {
                        -(p.1 as int)
                    } else {
                        p.1 as int
                    },
                )
                &&& p.1 <= 86340
                &&& p.1 % 60 == 0
            },
            None => spec_parse_offset_tail(v@, i as int) is None,
        },
{
    let n: usize = v.len();
    if n < 6 || i != n - 6 {
        return None;
    }
    let sign = v[i];
    if !(sign == '+' || sign == '-') {
        return None;
    }
    if !(is_digit_char(v[i + 1]) && is_digit_char(v[i + 2])) {
        return None;
    }
    if v[i + 3] != ':' {
        return None;
    }
    if !(is_digit_char(v[i + 4]) && is_digit_char(v[i + 5])) {
        return None;
    }
    let hh = read2(v, i + 1);
    let mm = read2(v, i + 4);
    if hh > 23 || mm > 59 {
        return None;
    }
    Some((sign == '-', hh * 3600 + mm * 60))
}

/// Whether the first nineteen characters have the date-time shape.
fn check_date_time_shape(v: &Vec<char>, sep: char) -> (r: bool)
    ensures
        r == date_time_shape(v@, sep),
{
    let n: usize = v.len();
    if n < 19 {
        return false;
    }
    is_digit_char(v[0]) && is_digit_char(v[1]) && is_digit_char(v[2]) && is_digit_char(v[3])
        && v[4] == '-' && is_digit_char(v[5]) && is_digit_char(v[6]) && v[7] == '-'
        && is_digit_char(v[8]) && is_digit_char(v[9]) && v[10] == sep && is_digit_char(v[11])
        && is_digit_char(v[12]) && v[13] == ':' && is_digit_char(v[14]) && is_digit_char(v[15])
        && v[16] == ':' && is_digit_char(v[17]) && is_digit_char(v[18])
}

/// Read the four digit characters opening the string.
fn read4(v: &Vec<char>) -> (r: u64)
    requires
        v@.len() >= 4,
        is_digit(v@[0]),
        is_digit(v@[1]),
        is_digit(v@[2]),
        is_digit(v@[3]),
    ensures
        r == four_digits(v@, 0),
        r < 10000,
{
    proof {
        assert(char_digit(v@[0]) <= 9);
        assert(char_digit(v@[1]) <= 9);
        assert(char_digit(v@[2]) <= 9);
        assert(char_digit(v@[3]) <= 9);
    }
    char_digit_of(v[0]) * 1000 + char_digit_of(v[1]) * 100 + char_digit_of(v[2]) * 10
        + char_digit_of(v[3])
}

/// Parse an offset-aware extended timestamp.
pub fn parse_iso8601(s: &str) -> (r: Option<OffsetDateTime>)
    ensures
        r == spec_parse_iso(s@),
{
    let v = str_to_chars(s);
    let n: usize = v.len();
    if !check_date_time_shape(&v, 'T') {
        return None;
    }
    let y = read4(&v);
    let m = read2(&v, 5);
    let d = read2(&v, 8);
    let h = read2(&v, 11);
    let mi = read2(&v, 14);
    let sec = read2(&v, 17);
    if n == 20 {
        if v[19] == 'Z' {
            from_civil_fields(y, m, d, h, mi, sec, false, 0)
        } else {
            None
        }
    } else {
        match parse_offset_tail(&v, 19) {
            Some((neg, mag)) => from_civil_fields(y, m, d, h, mi, sec, neg, mag),
            None => None,
        }
    }
}

/// Parse a human-format timestamp.
pub fn parse_human(s: &str) -> (r: Option<OffsetDateTime>)
    ensures
        r == spec_parse_human(s@),
{
    let v = str_to_chars(s);
    let n: usize = v.len();
    if !check_date_time_shape(&v, ' ') {
        return None;
    }
    if n != 26 {
        return None;
    }
    if v[19] != ' ' {
        return None;
    }
    let y = read4(&v);
    let m = read2(&v, 5);
    let d = read2(&v, 8);
    let h = read2(&v, 11);
    let mi = read2(&v, 14);
    let sec = read2(&v, 17);
    match parse_offset_tail(&v, 20) {
        Some((neg, mag)) => from_civil_fields(y, m, d, h, mi, sec, neg, mag),
        None => None,
    }
}

} // verus!

verus! {

/// The resolver's time value: an instant with its offset, marked by
/// whether it came from the local clock or from a UTC source.
#[derive(Debug, Clone, Copy)]
pub enum DateTime {
    Local(OffsetDateTime),
    Utc(OffsetDateTime),
}

impl DateTime {
    /// The instant-with-offset under either marker.
    pub open spec fn odt_spec(self) -> OffsetDateTime {
        match self {
            DateTime::Local(o) => o,
            DateTime::Utc(o) => o,
        }
    }

    /// Well-formed: the inner value is, and a UTC-marked value carries a
    /// zero offset.
    pub open spec fn wf(self) -> bool {
        &&& self.odt_spec().wf()
        &&& self matches DateTime::Utc(o) ==> o.offset_seconds == 0
    }

    /// The instant-with-offset under either marker.
    pub fn odt(&self) -> (r: OffsetDateTime)
        ensures
            r == self.odt_spec(),
    {
        match self {
            DateTime::Local(o) => *o,
            DateTime::Utc(o) => *o,
        }
    }

    /// The instant as a Unix timestamp; offset-independent.
    pub fn timestamp(&self) -> (r: i64)
        ensures
            r == self.odt_spec().unix,
    {
        self.odt().unix
    }

    /// Interpret a Unix timestamp as a UTC time value.
    ///
    /// Succeeds exactly when the timestamp falls into the supported
    /// calendar range.
    pub fn timestamp_2_utc(time_stamp: i64) -> (r: SdResult<Self>)
        ensures
            match r {
                Ok(dt) => {
                    &&& dt.wf()
                    &&& dt matches DateTime::Utc(o) && o.unix == time_stamp
                        && o.offset_seconds == 0
                    &&& 0 <= time_stamp + epoch_secs() < days_before_year(10000) * 86400
                },
                Err(_) => !(0 <= time_stamp + epoch_secs() < days_before_year(10000) * 86400),
            },
    {
        match from_timestamp_offset(time_stamp, 0) {
            Ok(o) => Ok(DateTime::Utc(o)),
            Err(e) => Err(e),
        }
    }

    /// Parse an offset-aware textual timestamp, the offset preserved
    /// exactly; succeeds exactly when the text has the extended shape
    /// and denotes a valid instant.
    pub fn from_iso8601_string(s: &str) -> (r: SdResult<Self>)
        ensures
            match r {
                Ok(dt) => dt matches DateTime::Local(o) && spec_parse_iso(s@) == Some(o)
                    && dt.wf(),
                Err(_) => spec_parse_iso(s@) is None,
            },
    {
        match parse_iso8601(s) {
            Some(o) => {
                proof {
                    lemma_civil_build_wf(o, s@);
                }
                Ok(DateTime::Local(o))
            },
            None => Err(
                ShadowError::new(String::from_str("timestamp does not match the expected shape")),
            ),
        }
    }

    /// Parse a human-format timestamp back into a time value.
    pub fn from_human_format(s: &str) -> (r: SdResult<Self>)
        ensures
            match r {
                Ok(dt) => dt matches DateTime::Local(o) && spec_parse_human(s@) == Some(o)
                    && dt.wf(),
                Err(_) => spec_parse_human(s@) is None,
            },
    {
        match parse_human(s) {
            Some(o) => {
                proof {
                    lemma_civil_build_human_wf(o, s@);
                }
                Ok(DateTime::Local(o))
            },
            None => Err(
                ShadowError::new(String::from_str("timestamp does not match the expected shape")),
            ),
        }
    }

    /// The current time in the local time zone, from the embedded time
    /// zone database; fails when the zone or the clock cannot be read.
    pub fn local_now() -> (r: SdResult<Self>)
        ensures
            r matches Ok(dt) ==> dt.wf(),
    {
        match tz_local_now() {
            Some((ts, off)) => match from_timestamp_offset(ts, off) {
                Ok(o) => Ok(DateTime::Local(o)),
                Err(e) => Err(e),
            },
            None => Err(ShadowError::new(String::from_str("cannot read the local time zone"))),
        }
    }

    /// The current time: the local clock when it can be read, otherwise
    /// the UTC clock.
    pub fn now() -> (r: Self)
        ensures
            r.wf(),
    {
        match Self::local_now() {
            Ok(dt) => dt,
            Err(_) => {
                let ts = match utc_now_unix() {
                    Some(t) => t,
                    None => 0,
                };
                match from_timestamp_offset(ts, 0) {
                    Ok(o) => DateTime::Utc(o),
                    Err(_) => match from_timestamp_offset(0, 0) {
                        Ok(o) => DateTime::Utc(o),
                        Err(_) => {
                            proof {
                                lemma_epoch_in_range();
                            }
                            DateTime::Utc(
                                OffsetDateTime {
                                    year: 1970,
                                    month: 1,
                                    day: 1,
                                    hour: 0,
                                    minute: 0,
                                    second: 0,
                                    offset_seconds: 0,
                                    unix: 0,
                                },
                            )
                        },
                    },
                }
            },
        }
    }

    /// The current instant-with-offset, from [`DateTime::now`].
    pub fn offset_datetime() -> (r: OffsetDateTime)
        ensures
            r.wf(),
    {
        let date_time = Self::now();
        date_time.odt()
    }

    /// Render in the human format.
    pub fn human_format(&self) -> (r: String)
        requires
            self.wf(),
        ensures
            r@ == human_chars(self.odt_spec()),
    {
        let o = self.odt();
        o.human_format()
    }

    /// Render in the internet-mail format.
    pub fn to_rfc2822(&self) -> (r: String)
        requires
            self.wf(),
        ensures
            r@ == rfc2822_chars(self.odt_spec()),
    {
        let o = self.odt();
        o.to_rfc2822()
    }

    /// Render in the extended format.
    pub fn to_rfc3339(&self) -> (r: String)
        requires
            self.wf(),
        ensures
            r@ == rfc3339_chars(self.odt_spec()),
    {
        let o = self.odt();
        o.to_rfc3339()
    }
}

impl Default for DateTime {
    /// The default time value is the current time.
    fn default() -> (r: Self)
        ensures
            r.wf(),
    {
        Self::now()
    }
}

/// The Unix epoch lies inside the supported calendar range.
proof fn lemma_epoch_in_range()
    ensures
        0 <= epoch_secs() < days_before_year(10000) * 86400,
{
    lemma_days_before_year_bounds(10000);
    assert(days_before_year(10000) * 86400 >= 3649635 * 86400) by (nonlinear_arith)
        requires
            days_before_year(10000) >= 3649635,
    ;
}

/// A valid civil instant's second number lies inside the supported
/// range.
pub proof fn lemma_civil_secs_range(y: int, m: int, d: int, h: int, mi: int, s: int)
    requires
        valid_civil(y, m, d, h, mi, s),
    ensures
        0 <= civil_secs(y, m, d, h, mi, s) < days_before_year(10000) * 86400,
{
    crate::civil::lemma_days_before_year_bounds(y);
    crate::civil::lemma_days_before_month_bounds(y, m);
    crate::civil::lemma_year_of_months(y);
    crate::civil::lemma_days_before_year_monotone(y + 1, 10000);
    assert(days_before_year(y + 1) == days_before_year(y) + crate::civil::days_in_year(y));
    let di = day_index(y, m, d);
    assert(0 <= di < days_before_year(10000));
    let tod = h * 3600 + mi * 60 + s;
    assert(0 <= tod < 86400);
    assert(di * 86400 + tod < days_before_year(10000) * 86400) by (nonlinear_arith)
        requires
            0 <= di,
            di < days_before_year(10000),
            0 <= tod < 86400,
    ;
    assert(di * 86400 >= 0) by (nonlinear_arith)
        requires
            di >= 0,
    ;
}

/// What `civil_build` yields is well-formed.
proof fn lemma_civil_build_result_wf(
    o: OffsetDateTime,
    y: int,
    m: int,
    d: int,
    h: int,
    mi: int,
    sec: int,
    off: int,
)
    requires
        civil_build(y, m, d, h, mi, sec, off) == Some(o),
    ensures
        o.wf(),
{
    lemma_civil_secs_range(y, m, d, h, mi, sec);
    lemma_days_before_year_bounds(10000);
    assert(days_before_year(10000) * 86400 <= 3659634 * 86400) by (nonlinear_arith)
        requires
            days_before_year(10000) <= 3659634,
    ;
    let v = civil_secs(y, m, d, h, mi, sec) - off - epoch_secs();
    assert(i64::MIN <= v <= i64::MAX);
    assert(o.unix == v);
}

/// What the extended parser yields is well-formed.
proof fn lemma_civil_build_wf(o: OffsetDateTime, s: Seq<char>)
    requires
        spec_parse_iso(s) == Some(o),
    ensures
        o.wf(),
{
    let y = four_digits(s, 0);
    let m = two_digits(s, 5);
    let d = two_digits(s, 8);
    let h = two_digits(s, 11);
    let mi = two_digits(s, 14);
    let sec = two_digits(s, 17);
    if s.len() == 20 {
        lemma_civil_build_result_wf(o, y, m, d, h, mi, sec, 0);
    } else {
        match spec_parse_offset_tail(s, 19) {
            Some(off) => lemma_civil_build_result_wf(o, y, m, d, h, mi, sec, off),
            None => {},
        }
    }
}

/// What the human parser yields is well-formed.
proof fn lemma_civil_build_human_wf(o: OffsetDateTime, s: Seq<char>)
    requires
        spec_parse_human(s) == Some(o),
    ensures
        o.wf(),
{
    let y = four_digits(s, 0);
    let m = two_digits(s, 5);
    let d = two_digits(s, 8);
    let h = two_digits(s, 11);
    let mi = two_digits(s, 14);
    let sec = two_digits(s, 17);
    match spec_parse_offset_tail(s, 20) {
        Some(off) => lemma_civil_build_result_wf(o, y, m, d, h, mi, sec, off),
        None => {},
    }
}

/// Relies on `tzdb::now::local` (and `tz::DateTime::unix_time` and
/// `tz::LocalTimeType::ut_offset` to read the result): the current
/// instant and the local zone's UTC offset. Clock- and
/// machine-dependent, so nothing is promised of the values.
#[verifier::external_body]
fn tz_local_now() -> Option<(i64, i32)> {
    match tzdb::now::local() {
        Ok(t) => Some((t.unix_time(), t.local_time_type().ut_offset())),
        Err(_) => None,
    }
}

/// Relies on `tzdb::now::in_tz` with the UTC time zone: the current
/// instant as a Unix timestamp. Clock-dependent, so nothing is promised
/// of the value.
#[verifier::external_body]
fn utc_now_unix() -> Option<i64> {
    match tzdb::now::in_tz(tzdb::time_zone::UTC) {
        Ok(t) => Some(t.unix_time()),
        Err(_) => None,
    }
}

/// Whether the reproducible-build variable of the snapshot, if set,
/// holds a timestamp the calendar can represent.
pub open spec fn source_epoch_ok(env: Seq<crate::fact::EnvEntryView>) -> bool {
    match env_val(env, "SOURCE_DATE_EPOCH"@) {
        None => true,
        Some(v) => match spec_parse_i64(v) {
            None => false,
            Some(ts) => 0 <= ts + epoch_secs() < days_before_year(10000) * 86400,
        },
    }
}

/// The build time: the reproducible-build variable when the snapshot
/// carries it, otherwise the current time.
pub fn now_date_time(env: &EnvSnapshot) -> (r: DateTime)
    requires
        source_epoch_ok(env@),
    ensures
        r.wf(),
        match env_val(env@, "SOURCE_DATE_EPOCH"@) {
            Some(v) => r matches DateTime::Utc(o) && Some(o.unix as int) == spec_parse_i64(v),
            None => true,
        },
{
    match env.get("SOURCE_DATE_EPOCH") {
        Some(raw) => {
            let ts = match parse_i64(raw.as_str()) {
                Some(t) => t,
                None => {
                    proof {
                        assert(false);
                    }
                    0
                },
            };
            match DateTime::timestamp_2_utc(ts) {
                Ok(dt) => dt,
                Err(_) => {
                    proof {
                        assert(false);
                    }
                    DateTime::Utc(
                        OffsetDateTime {
                            year: 1970,
                            month: 1,
                            day: 1,
                            hour: 0,
                            minute: 0,
                            second: 0,
                            offset_seconds: 0,
                            unix: 0,
                        },
                    )
                },
            }
        },
        None => DateTime::now(),
    }
}

} // verus!

verus! {

/// A digit character decodes back to its value.
proof fn lemma_digit_round(x: int)
    requires
        0 <= x <= 9,
    ensures
        char_digit(digit_char(x)) == x,
        is_digit(digit_char(x)),
{
}

/// The two-digit encoding decodes to the encoded value.
proof fn lemma_pad2_value(n: int)
    requires
        0 <= n < 100,
    ensures
        is_digit(pad2(n)[0]),
        is_digit(pad2(n)[1]),
        char_digit(pad2(n)[0]) * 10 + char_digit(pad2(n)[1]) == n,
{
    vstd::arithmetic::div_mod::lemma_fundamental_div_mod(n, 10);
    assert(0 <= n / 10 <= 9) by (nonlinear_arith)
        requires
            0 <= n < 100,
    ;
    lemma_digit_round(n / 10);
    lemma_digit_round(n % 10);
}

/// The four-digit encoding decodes to the encoded value.
proof fn lemma_pad4_value(n: int)
    requires
        0 <= n < 10000,
    ensures
        is_digit(pad4(n)[0]),
        is_digit(pad4(n)[1]),
        is_digit(pad4(n)[2]),
        is_digit(pad4(n)[3]),
        char_digit(pad4(n)[0]) * 1000 + char_digit(pad4(n)[1]) * 100 + char_digit(pad4(n)[2])
            * 10 + char_digit(pad4(n)[3]) == n,
{
    vstd::arithmetic::div_mod::lemma_fundamental_div_mod(n, 10);
    vstd::arithmetic::div_mod::lemma_fundamental_div_mod(n / 10, 10);
    vstd::arithmetic::div_mod::lemma_fundamental_div_mod(n / 100, 10);
    vstd::arithmetic::div_mod::lemma_div_denominator(n, 10, 10);
    vstd::arithmetic::div_mod::lemma_div_denominator(n, 100, 10);
    assert(0 <= n / 1000 <= 9) by (nonlinear_arith)
        requires
            0 <= n < 10000,
    ;
    assert(0 <= (n / 100) % 10 <= 9);
    assert(0 <= (n / 10) % 10 <= 9);
    lemma_digit_round(n / 1000);
    lemma_digit_round((n / 100) % 10);
    lemma_digit_round((n / 10) % 10);
    lemma_digit_round(n % 10);
}

/// A minute-aligned offset within a day decomposes exactly into the
/// hour and minute fields it is rendered with.
proof fn lemma_offset_decompose(off: int)
    requires
        -86340 <= off <= 86340,
        off % 60 == 0,
    ensures
        0 <= off_abs(off) <= 86340,
        0 <= off_abs(off) / 3600 <= 23,
        0 <= (off_abs(off) % 3600) / 60 <= 59,
        (off_abs(off) / 3600) * 3600 + ((off_abs(off) % 3600) / 60) * 60 == off_abs(off),
{
    let a = off_abs(off);
    vstd::arithmetic::div_mod::lemma_fundamental_div_mod(off, 60);
    if off < 0 {
        vstd::arithmetic::div_mod::lemma_mod_multiples_basic(-(off / 60), 60);
        assert(a == (-(off / 60)) * 60);
    }
    vstd::arithmetic::div_mod::lemma_fundamental_div_mod(a, 60);
    vstd::arithmetic::div_mod::lemma_fundamental_div_mod(a, 3600);
    vstd::arithmetic::div_mod::lemma_fundamental_div_mod(a % 3600, 60);
    assert(a % 60 == 0) by {
        if off >= 0 {
        } else {
            vstd::arithmetic::div_mod::lemma_mod_multiples_basic(-(off / 60), 60);
        }
    }
    assert(0 <= a % 3600 < 3600);
    assert(a % 3600 == a - 3600 * (a / 3600));
    assert(a % 3600 == (a / 60 - 60 * (a / 3600)) * 60) by (nonlinear_arith)
        requires
            a == 60 * (a / 60),
            a % 3600 == a - 3600 * (a / 3600),
    ;
    vstd::arithmetic::div_mod::lemma_mod_multiples_basic(a / 60 - 60 * (a / 3600), 60);
    assert((a % 3600) % 60 == 0);
    assert(0 <= a / 3600 <= 23) by (nonlinear_arith)
        requires
            0 <= a <= 86340,
            a == 3600 * (a / 3600) + a % 3600,
            0 <= a % 3600 < 3600,
    ;
    assert(0 <= (a % 3600) / 60 <= 59) by (nonlinear_arith)
        requires
            0 <= a % 3600 < 3600,
            a % 3600 == 60 * ((a % 3600) / 60) + (a % 3600) % 60,
            (a % 3600) % 60 == 0,
    ;
}

/// Re-parsing the human rendering of a well-formed time value yields
/// the value itself: the instant and the offset both survive the
/// round trip.
#[verifier::rlimit(80)]
pub proof fn lemma_human_round_trip(o: OffsetDateTime)
    requires
        o.wf(),
    ensures
        spec_parse_human(human_chars(o)) == Some(o),
{
    let s = human_chars(o);
    let y = o.year as int;
    let m = o.month as int;
    let d = o.day as int;
    let h = o.hour as int;
    let mi = o.minute as int;
    let sec = o.second as int;
    let off = o.offset_seconds as int;
    let a = off_abs(off);
    lemma_offset_decompose(off);
    lemma_pad4_value(y);
    lemma_pad2_value(m);
    lemma_pad2_value(d);
    lemma_pad2_value(h);
    lemma_pad2_value(mi);
    lemma_pad2_value(sec);
    lemma_pad2_value(a / 3600);
    lemma_pad2_value((a % 3600) / 60);
    assert(s.len() == 26);
    assert(s[0] == pad4(y)[0] && s[1] == pad4(y)[1] && s[2] == pad4(y)[2] && s[3] == pad4(y)[3]);
    assert(s[4] == '-' && s[7] == '-' && s[10] == ' ' && s[13] == ':' && s[16] == ':' && s[19]
        == ' ' && s[23] == ':');
    assert(s[5] == pad2(m)[0] && s[6] == pad2(m)[1]);
    assert(s[8] == pad2(d)[0] && s[9] == pad2(d)[1]);
    assert(s[11] == pad2(h)[0] && s[12] == pad2(h)[1]);
    assert(s[14] == pad2(mi)[0] && s[15] == pad2(mi)[1]);
    assert(s[17] == pad2(sec)[0] && s[18] == pad2(sec)[1]);
    assert(s[20] == off_sign_char(off));
    assert(s[21] == pad2(a / 3600)[0] && s[22] == pad2(a / 3600)[1]);
    assert(s[24] == pad2((a % 3600) / 60)[0] && s[25] == pad2((a % 3600) / 60)[1]);
    assert(date_time_shape(s, ' '));
    assert(four_digits(s, 0) == y);
    assert(two_digits(s, 5) == m && two_digits(s, 8) == d && two_digits(s, 11) == h && two_digits(
        s,
        14,
    ) == mi && two_digits(s, 17) == sec);
    assert(two_digits(s, 21) == a / 3600 && two_digits(s, 24) == (a % 3600) / 60);
    assert(spec_parse_offset_tail(s, 20) == Some(off));
    lemma_civil_secs_range(y, m, d, h, mi, sec);
    assert((civil_secs(y, m, d, h, mi, sec) - off - epoch_secs()) as i64 == o.unix);
    assert(civil_build(y, m, d, h, mi, sec, off) == Some(o));
}

/// Re-parsing the extended rendering of a well-formed time value yields
/// the value itself; a zero offset goes out as `Z` and comes back as a
/// zero offset.
#[verifier::rlimit(80)]
pub proof fn lemma_rfc3339_round_trip(o: OffsetDateTime)
    requires
        o.wf(),
    ensures
        spec_parse_iso(rfc3339_chars(o)) == Some(o),
{
    let s = rfc3339_chars(o);
    let y = o.year as int;
    let m = o.month as int;
    let d = o.day as int;
    let h = o.hour as int;
    let mi = o.minute as int;
    let sec = o.second as int;
    let off = o.offset_seconds as int;
    let a = off_abs(off);
    lemma_offset_decompose(off);
    lemma_pad4_value(y);
    lemma_pad2_value(m);
    lemma_pad2_value(d);
    lemma_pad2_value(h);
    lemma_pad2_value(mi);
    lemma_pad2_value(sec);
    lemma_pad2_value(a / 3600);
    lemma_pad2_value((a % 3600) / 60);
    assert(s[0] == pad4(y)[0] && s[1] == pad4(y)[1] && s[2] == pad4(y)[2] && s[3] == pad4(y)[3]);
    assert(s[4] == '-' && s[7] == '-' && s[10] == 'T' && s[13] == ':' && s[16] == ':');
    assert(s[5] == pad2(m)[0] && s[6] == pad2(m)[1]);
    assert(s[8] == pad2(d)[0] && s[9] == pad2(d)[1]);
    assert(s[11] == pad2(h)[0] && s[12] == pad2(h)[1]);
    assert(s[14] == pad2(mi)[0] && s[15] == pad2(mi)[1]);
    assert(s[17] == pad2(sec)[0] && s[18] == pad2(sec)[1]);
    assert(date_time_shape(s, 'T'));
    assert(four_digits(s, 0) == y);
    assert(two_digits(s, 5) == m && two_digits(s, 8) == d && two_digits(s, 11) == h && two_digits(
        s,
        14,
    ) == mi && two_digits(s, 17) == sec);
    lemma_civil_secs_range(y, m, d, h, mi, sec);
    assert((civil_secs(y, m, d, h, mi, sec) - off - epoch_secs()) as i64 == o.unix);
    if o.offset_seconds == 0 {
        assert(s.len() == 20);
        assert(s[19] == 'Z');
        assert(civil_build(y, m, d, h, mi, sec, 0) == Some(o));
    } else {
        assert(s.len() == 25);
        assert(s[19] == off_sign_char(off));
        assert(s[20] == pad2(a / 3600)[0] && s[21] == pad2(a / 3600)[1]);
        assert(s[22] == ':');
        assert(s[23] == pad2((a % 3600) / 60)[0] && s[24] == pad2((a % 3600) / 60)[1]);
        assert(two_digits(s, 20) == a / 3600 && two_digits(s, 23) == (a % 3600) / 60);
        assert(spec_parse_offset_tail(s, 19) == Some(off));
        assert(civil_build(y, m, d, h, mi, sec, off) == Some(o));
    }
}

} // verus!

verus! {

/// The first position at or after `i` that does not hold a decimal
/// digit.
pub open spec fn digits_end(s: Seq<char>, i: int) -> int
    decreases s.len() - i + 1,
{
    if 0 <= i < s.len() && is_digit(s[i]) {
        digits_end(s, i + 1)
    } else {
        i
    }
}

/// The first position at or after `i` that does not hold a space or a
/// tab.
pub open spec fn spaces_end(s: Seq<char>, i: int) -> int
    decreases s.len() - i + 1,
{
    if 0 <= i < s.len() && (s[i] == ' ' || s[i] == '\t') {
        spaces_end(s, i + 1)
    } else {
        i
    }
}

/// Whether `s` has the loosely validated human shape: a non-zero year
/// of any width, bounded month and day fields, two-digit time fields,
/// and a `+`-signed two-digit offset, with runs of blanks between the
/// groups and nothing left over.
pub open spec fn loose_human_ok(s: Seq<char>) -> bool {
    let j1 = digits_end(s, 0);
    let year = crate::strutil::digits_val(s.subrange(0, j1));
    &&& j1 > 0
    &&& 0 < year <= 0xffffffff
    &&& j1 + 6 <= s.len()
    &&& s[j1] == '-'
    &&& is_digit(s[j1 + 1]) && is_digit(s[j1 + 2])
    &&& 1 <= two_digits(s, j1 + 1) <= 12
    &&& s[j1 + 3] == '-'
    &&& is_digit(s[j1 + 4]) && is_digit(s[j1 + 5])
    &&& 1 <= two_digits(s, j1 + 4) <= 31
    &&& {
        let j2 = spaces_end(s, j1 + 6);
        &&& j2 > j1 + 6
        &&& j2 + 8 <= s.len()
        &&& is_digit(s[j2]) && is_digit(s[j2 + 1])
        &&& s[j2 + 2] == ':'
        &&& is_digit(s[j2 + 3]) && is_digit(s[j2 + 4])
        &&& s[j2 + 5] == ':'
        &&& is_digit(s[j2 + 6]) && is_digit(s[j2 + 7])
        &&& {
            let j3 = spaces_end(s, j2 + 8);
            &&& j3 > j2 + 8
            &&& j3 + 6 == s.len()
            &&& s[j3] == '+'
            &&& is_digit(s[j3 + 1]) && is_digit(s[j3 + 2])
            &&& s[j3 + 3] == ':'
            &&& is_digit(s[j3 + 4]) && is_digit(s[j3 + 5])
        }
    }
}

/// The executable digit scan matches `digits_end`.
fn scan_digits(v: &Vec<char>, from: usize) -> (r: usize)
    requires
        from <= v@.len(),
    ensures
        from <= r <= v@.len(),
        r == digits_end(v@, from as int),
{
    let n: usize = v.len();
    let mut i: usize = from;
    while i < n && is_digit_char(v[i])
        invariant
            from <= i <= n,
            n == v@.len(),
            digits_end(v@, from as int) == digits_end(v@, i as int),
        decreases n - i,
    {
        i = i + 1;
    }
    i
}

/// The executable blank scan matches `spaces_end`.
fn scan_spaces(v: &Vec<char>, from: usize) -> (r: usize)
    requires
        from <= v@.len(),
    ensures
        from <= r <= v@.len(),
        r == spaces_end(v@, from as int),
{
    let n: usize = v.len();
    let mut i: usize = from;
    while i < n && (v[i] == ' ' || v[i] == '\t')
        invariant
            from <= i <= n,
            n == v@.len(),
            spaces_end(v@, from as int) == spaces_end(v@, i as int),
        decreases n - i,
    {
        i = i + 1;
    }
    i
}

/// Loosely validate a human-format timestamp, as the historical
/// validator did: the year may have any width, the time-of-day fields
/// any two-digit value, and only a `+`-signed offset is accepted.
pub fn parse_human_format(input: &str) -> (r: SdResult<()>)
    ensures
        r is Ok <==> loose_human_ok(input@),
{
    let fail: ShadowError = ShadowError::new(
        String::from_str("text does not match the human timestamp shape"),
    );
    let v = str_to_chars(input);
    let n: usize = v.len();
    let j1 = scan_digits(&v, 0);
    if j1 == 0 {
        return Err(fail);
    }
    let year = match crate::strutil::parse_digits(&v, 0, j1) {
        Some(y) => y,
        None => {
            proof {
                lemma_digits_scan_all(v@, 0);
            }
            return Err(fail);
        },
    };
    proof {
        lemma_digits_scan_all(v@, 0);
    }
    if year == 0 || year > 0xffffffff {
        return Err(fail);
    }
    if n < 6 || j1 > n - 6 {
        return Err(fail);
    }
    if v[j1] != '-' || !is_digit_char(v[j1 + 1]) || !is_digit_char(v[j1 + 2]) {
        return Err(fail);
    }
    let month = read2(&v, j1 + 1);
    if month < 1 || month > 12 {
        return Err(fail);
    }
    if v[j1 + 3] != '-' || !is_digit_char(v[j1 + 4]) || !is_digit_char(v[j1 + 5]) {
        return Err(fail);
    }
    let day = read2(&v, j1 + 4);
    if day < 1 || day > 31 {
        return Err(fail);
    }
    let j2 = scan_spaces(&v, j1 + 6);
    if j2 == j1 + 6 {
        return Err(fail);
    }
    if n < 8 || j2 > n - 8 {
        return Err(fail);
    }
    if !(is_digit_char(v[j2]) && is_digit_char(v[j2 + 1]) && v[j2 + 2] == ':' && is_digit_char(
        v[j2 + 3],
    ) && is_digit_char(v[j2 + 4]) && v[j2 + 5] == ':' && is_digit_char(v[j2 + 6])
        && is_digit_char(v[j2 + 7])) {
        return Err(fail);
    }
    let j3 = scan_spaces(&v, j2 + 8);
    if j3 == j2 + 8 {
        return Err(fail);
    }
    if n < 6 || j3 != n - 6 {
        return Err(fail);
    }
    if !(v[j3] == '+' && is_digit_char(v[j3 + 1]) && is_digit_char(v[j3 + 2]) && v[j3 + 3] == ':'
        && is_digit_char(v[j3 + 4]) && is_digit_char(v[j3 + 5])) {
        return Err(fail);
    }
    Ok(())
}

/// Every position before a digit scan's end holds a digit.
proof fn lemma_digits_scan_all(s: Seq<char>, from: int)
    requires
        0 <= from <= s.len(),
    ensures
        from <= digits_end(s, from) <= s.len(),
        crate::strutil::all_digits(s.subrange(from, digits_end(s, from))),
    decreases s.len() - from,
{
    let to = digits_end(s, from);
    if from < s.len() && is_digit(s[from]) {
        lemma_digits_scan_all(s, from + 1);
        assert(to == digits_end(s, from + 1));
        assert forall|j: int| 0 <= j < to - from implies is_digit(
            #[trigger] s.subrange(from, to)[j],
        ) by {
            assert(s.subrange(from, to)[j] == s[from + j]);
            if j == 0 {
            } else {
                assert(s.subrange(from + 1, to)[j - 1] == s[from + j]);
            }
        }
    } else {
        assert(to == from);
        assert(s.subrange(from, to) =~= Seq::<char>::empty());
    }
}

} // verus!
