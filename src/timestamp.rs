use vstd::prelude::*;
use vstd::string::*;
use chrono::TimeZone;

verus! {

/// The offset of the site's local time from UTC, in seconds (UTC+09:00).
pub const JST_OFFSET_SECS: i32 = 32400;

/// How the listing writes a publication time, in chrono's notation.
pub const TIMESTAMP_FORMAT: &'static str = "%Y-%m-%d %H:%M:%S";

pub open spec fn is_digit(c: char) -> bool {
    '0' <= c && c <= '9'
}

/// What may stand at position `i` of `YYYY-MM-DD HH:MM:SS`.
pub open spec fn fits_shape_at(c: char, i: int) -> bool {
    if i == 4 || i == 7 {
        c == '-'
    } else if i == 10 {
        c == ' '
    } else if i == 13 || i == 16 {
        c == ':'
    } else {
        is_digit(c)
    }
}

/// `s` is laid out as `YYYY-MM-DD HH:MM:SS`: nineteen characters, digits but
/// for the separators.
pub open spec fn has_timestamp_shape(s: Seq<char>) -> bool {
    s.len() == 19 && forall|i: int| 0 <= i < 19 ==> #[trigger] fits_shape_at(s[i], i)
}

/// The RFC 2822 text of the local time `s`, read with the chrono format `fmt`
/// at the fixed offset of `offset_secs` seconds east of UTC, or `None` where
/// that reading fails (no such date or time, or no such offset).
pub uninterp spec fn rfc2822_at(s: Seq<char>, offset_secs: int, fmt: Seq<char>) -> Option<
    Seq<char>,
>;

/// `t` with its day of the month written in two digits: a day of one digit
/// (`Tue, 2 Jan ...`) gets a leading zero (`Tue, 02 Jan ...`).
pub open spec fn two_digit_day(t: Seq<char>) -> Seq<char> {
    if t.len() >= 7 && is_digit(t[5]) && t[6] == ' ' {
        t.take(5) + seq!['0'] + t.skip(5)
    } else {
        t
    }
}

/// The publication date that a listing timestamp converts to: defined only
/// for text of the exact shape `YYYY-MM-DD HH:MM:SS` that names a real time,
/// and written as RFC 2822 with a two-digit day.
pub open spec fn converted_pub_date(s: Seq<char>) -> Option<Seq<char>> {
    if has_timestamp_shape(s) {
        match rfc2822_at(s, JST_OFFSET_SECS as int, TIMESTAMP_FORMAT@) {
            Some(t) => Some(two_digit_day(t)),
            None => None,
        }
    } else {
        None
    }
}

/// Writes the day of the month of an RFC 2822 date in two digits.
pub fn pad_day(t: String) -> (r: String)
    ensures
        r@ == two_digit_day(t@),
{
    let n = t.unicode_len();
    if n >= 7 {
        let c5 = t.get_char(5);
        let c6 = t.get_char(6);
        if '0' <= c5 && c5 <= '9' && c6 == ' ' {
            let mut r = String::from_str(t.as_str().substring_char(0, 5));
            r.append("0");
            r.append(t.as_str().substring_char(5, n));
            proof {
                reveal_strlit("0");
                assert(r@ =~= two_digit_day(t@));
            }
            return r;
        }
    }
    t
}

fn fits_shape(c: char, i: usize) -> (r: bool)
    ensures
        r == fits_shape_at(c, i as int),
{
    if i == 4 || i == 7 {
        c == '-'
    } else if i == 10 {
        c == ' '
    } else if i == 13 || i == 16 {
        c == ':'
    } else {
        '0' <= c && c <= '9'
    }
}

/// Whether `s` is laid out as `YYYY-MM-DD HH:MM:SS`.
pub fn timestamp_shape_ok(s: &str) -> (r: bool)
    ensures
        r == has_timestamp_shape(s@),
{
    let n = s.unicode_len();
    if n != 19 {
        return false;
    }
    let mut i: usize = 0;
    while i < 19
        invariant
            s@.len() == 19,
            0 <= i <= 19,
            forall|j: int| 0 <= j < i ==> #[trigger] fits_shape_at(s@[j], j),
        decreases 19 - i,
    {
        let c = s.get_char(i);
        if !fits_shape(c, i) {
            return false;
        }
        i = i + 1;
    }
    true
}

/// Relies on chrono: `TimeZone::datetime_from_str` on `FixedOffset::east_opt(offset_secs)`
/// reads the local time `s` with the format `fmt`, and `DateTime::to_rfc2822` writes it.
/// `to_rfc2822` panics on a local year outside 0 to 9999; the `requires` keeps the
/// year to the four digits of `YYYY-MM-DD HH:MM:SS`.
#[verifier::external_body]
fn parse_rfc2822_at(s: &str, offset_secs: i32, fmt: &str) -> (r: Option<String>)
    requires
        has_timestamp_shape(s@),
        fmt@ == TIMESTAMP_FORMAT@,
    ensures
        match r {
            Some(t) => rfc2822_at(s@, offset_secs as int, fmt@) == Some(t@),
            None => rfc2822_at(s@, offset_secs as int, fmt@).is_none(),
        },
{
    #[allow(deprecated)]
    let parsed = chrono::FixedOffset::east_opt(offset_secs)?.datetime_from_str(s, fmt);
    parsed.ok().map(|d| d.to_rfc2822())
}

/// Converts a listing timestamp `YYYY-MM-DD HH:MM:SS`, read at UTC+09:00, to
/// its RFC 2822 text; `None` where the text has another shape or names no time.
pub fn convert_pub_date(s: &str) -> (r: Option<String>)
    ensures
        match r {
            Some(t) => converted_pub_date(s@) == Some(t@),
            None => converted_pub_date(s@).is_none(),
        },
{
    if timestamp_shape_ok(s) {
        match parse_rfc2822_at(s, JST_OFFSET_SECS, TIMESTAMP_FORMAT) {
            Some(t) => Some(pad_day(t)),
            None => None,
        }
    } else {
        None
    }
}

} // verus!
