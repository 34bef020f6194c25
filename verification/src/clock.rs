//! The current time, as the texts the panel records: an RFC 3339 instant for
//! creation and migration dates, and a `YYYYMMDD-HHMMSS` stamp for dump files.

use vstd::prelude::*;

use crate::text::digit_char;

verus! {

/// The first second (after the Unix epoch) of the year 10000: up to it chrono
/// writes the year with four digits.
pub const FIVE_DIGIT_YEARS: u64 = 253402300800;

pub open spec fn is_digit(c: char) -> bool {
    '0' <= c && c <= '9'
}

/// `n` written with exactly `w` decimal digits, zero-padded on the left (the
/// last `w` digits when `n` has more).
pub open spec fn padded(n: nat, w: nat) -> Seq<char>
    decreases w,
{
    if w == 0 {
        Seq::empty()
    } else {
        padded(n / 10, (w - 1) as nat).push(digit_char(n % 10))
    }
}

/// The time of day of the instant `secs` seconds after the epoch, as two-digit
/// hours, minutes and seconds separated by `sep`.
pub open spec fn clock_text(secs: int, sep: Seq<char>) -> Seq<char> {
    let day = secs % 86400;
    padded((day / 3600) as nat, 2) + sep + padded(((day % 3600) / 60) as nat, 2) + sep + padded(
        (day % 60) as nat,
        2,
    )
}

/// The fraction of a second as chrono writes it in RFC 3339: nothing for
/// whole seconds, else a dot and the shortest of 3, 6 or 9 digits.
pub open spec fn fraction_text(nanos: nat) -> Seq<char> {
    if nanos == 0 {
        Seq::empty()
    } else if nanos % 1_000_000 == 0 {
        "."@ + padded(nanos / 1_000_000, 3)
    } else if nanos % 1_000 == 0 {
        "."@ + padded(nanos / 1_000, 6)
    } else {
        "."@ + padded(nanos, 9)
    }
}

/// A year as chrono writes it: four digits up to 9999, else `+` and five or
/// six digits.
pub open spec fn year_text_ok(y: Seq<char>, four_digits: bool) -> bool {
    if four_digits {
        y.len() == 4 && forall|i: int| 0 <= i < 4 ==> is_digit(#[trigger] y[i])
    } else {
        6 <= y.len() <= 7 && y[0] == '+' && forall|i: int| 1 <= i < y.len() ==> is_digit(#[trigger] y[i])
    }
}

/// `s` is chrono's RFC 3339 text (`to_rfc3339`) of the UTC instant `secs`
/// seconds and `nanos` nanoseconds after the Unix epoch: the date (year, `-`,
/// two-digit month, `-`, two-digit day; the calendar is not written out here),
/// `T`, the time of day, the fraction and `+00:00`.
pub open spec fn rfc3339_text_of(s: Seq<char>, secs: int, nanos: nat) -> bool {
    exists|p: int|
        #![trigger s.take(p)]
        year_text_ok(s.take(p), secs < FIVE_DIGIT_YEARS) && s.len() >= p + 6 && s[p] == '-'
            && is_digit(s[p + 1]) && is_digit(s[p + 2]) && s[p + 3] == '-' && is_digit(s[p + 4])
            && is_digit(s[p + 5]) && s.skip(p + 6) == "T"@ + clock_text(secs, ":"@) + fraction_text(
            nanos,
        ) + "+00:00"@
}

/// `s` is chrono's `%Y%m%d-%H%M%S` text of the UTC instant `secs` seconds
/// after the Unix epoch: the year, two-digit month and day, `-`, and the time
/// of day without separators.
pub open spec fn stamp_text_of(s: Seq<char>, secs: int) -> bool {
    exists|p: int|
        #![trigger s.take(p)]
        year_text_ok(s.take(p), secs < FIVE_DIGIT_YEARS) && s.len() == p + 11 && is_digit(s[p])
            && is_digit(s[p + 1]) && is_digit(s[p + 2]) && is_digit(s[p + 3]) && s[p + 4] == '-'
            && s.skip(p + 5) == clock_text(secs, Seq::<char>::empty())
}

/// An RFC 3339 UTC instant at or after the Unix epoch, as the panel records it.
pub open spec fn is_rfc3339_utc(s: Seq<char>) -> bool {
    exists|secs: int, nanos: nat|
        0 <= secs && nanos < 1_000_000_000 && #[trigger] rfc3339_text_of(s, secs, nanos)
}

/// A `YYYYMMDD-HHMMSS` stamp of a UTC instant at or after the Unix epoch.
pub open spec fn is_file_stamp(s: Seq<char>) -> bool {
    exists|secs: int| 0 <= secs && #[trigger] stamp_text_of(s, secs)
}

/// `std::time::UNIX_EPOCH.elapsed()`: how long after the Unix epoch the
/// system clock reads now, as whole seconds and the nanoseconds past them;
/// `None` when it reads before the epoch. The nanoseconds are below one
/// second, as std documents for `Duration::subsec_nanos`; nothing is claimed
/// of which time it is.
#[verifier::external_body]
fn unix_now() -> (r: Option<(u64, u32)>)
    ensures
        r matches Some(t) ==> t.1 < 1_000_000_000,
{
    std::time::UNIX_EPOCH.elapsed().ok().map(|d| (d.as_secs(), d.subsec_nanos()))
}

/// `chrono::DateTime::from_timestamp(secs, nanos)` written with
/// `to_rfc3339()`. chrono gives a date for every instant from the epoch to
/// the end of the year 9999 (and `None` only out of its range); what the text
/// is, is `rfc3339_text_of` (chrono's `write_rfc3339` with `AutoSi` seconds
/// and the `+00:00` offset of UTC). Which calendar date it writes is not
/// spelled out, only that it is digits in their places.
#[verifier::external_body]
fn rfc3339_at(secs: i64, nanos: u32) -> (r: Option<String>)
    ensures
        0 <= secs < FIVE_DIGIT_YEARS && nanos < 1_000_000_000 ==> r is Some,
        0 <= secs && nanos < 1_000_000_000 ==> (r matches Some(t) ==> rfc3339_text_of(
            t@,
            secs as int,
            nanos as nat,
        )),
{
    chrono::DateTime::from_timestamp(secs, nanos).map(|t| t.to_rfc3339())
}

/// `chrono::DateTime::from_timestamp(secs, nanos)` written with
/// `format("%Y%m%d-%H%M%S")`. As for `rfc3339_at`, a date exists for every
/// instant from the epoch to the end of the year 9999; the text is
/// `stamp_text_of`, with the calendar date not spelled out.
#[verifier::external_body]
fn stamp_at(secs: i64, nanos: u32) -> (r: Option<String>)
    ensures
        0 <= secs < FIVE_DIGIT_YEARS && nanos < 1_000_000_000 ==> r is Some,
        0 <= secs && nanos < 1_000_000_000 ==> (r matches Some(t) ==> stamp_text_of(t@, secs as int)),
{
    chrono::DateTime::from_timestamp(secs, nanos).map(|t| t.format("%Y%m%d-%H%M%S").to_string())
}

/// `s` is chrono's `%Y-%m-%dT%H:%M:%SZ` text of the UTC instant `secs`
/// seconds after the Unix epoch: the year, `-`, two-digit month, `-`,
/// two-digit day, `T`, the time of day and `Z`.
pub open spec fn log_time_text_of(s: Seq<char>, secs: int) -> bool {
    exists|p: int|
        #![trigger s.take(p)]
        year_text_ok(s.take(p), secs < FIVE_DIGIT_YEARS) && s.len() >= p + 6 && s[p] == '-'
            && is_digit(s[p + 1]) && is_digit(s[p + 2]) && s[p + 3] == '-' && is_digit(s[p + 4])
            && is_digit(s[p + 5]) && s.skip(p + 6) == "T"@ + clock_text(secs, ":"@) + "Z"@
}

/// A `YYYY-MM-DDTHH:MM:SSZ` text of a UTC instant at or after the Unix epoch.
pub open spec fn is_log_time(s: Seq<char>) -> bool {
    exists|secs: int| 0 <= secs && #[trigger] log_time_text_of(s, secs)
}

/// `chrono::DateTime::from_timestamp(secs, nanos)` written with
/// `format("%Y-%m-%dT%H:%M:%SZ")`. As for `rfc3339_at`, a date exists for
/// every instant from the epoch to the end of the year 9999; the text is
/// `log_time_text_of`, with the calendar date not spelled out.
#[verifier::external_body]
fn log_time_at(secs: i64, nanos: u32) -> (r: Option<String>)
    ensures
        0 <= secs < FIVE_DIGIT_YEARS && nanos < 1_000_000_000 ==> r is Some,
        0 <= secs && nanos < 1_000_000_000 ==> (r matches Some(t) ==> log_time_text_of(t@, secs as int)),
{
    chrono::DateTime::from_timestamp(secs, nanos).map(|t| t.format("%Y-%m-%dT%H:%M:%SZ").to_string())
}

/// The current UTC time as `YYYY-MM-DDTHH:MM:SSZ` (the dump log's form, which
/// sorts as text); `None` when the system clock does not read a time after
/// the Unix epoch that chrono can date.
pub fn now_log_time() -> (r: Option<String>)
    ensures
        r matches Some(t) ==> is_log_time(t@),
{
    match unix_now() {
        Some((secs, nanos)) => {
            if secs <= 9_223_372_036_854_775_807 {
                let r = log_time_at(secs as i64, nanos);
                proof {
                    if let Some(t) = &r {
                        assert(log_time_text_of(t@, secs as int));
                    }
                }
                r
            } else {
                None
            }
        },
        None => None,
    }
}

/// The current UTC time in RFC 3339 form; `None` when the system clock does
/// not read a time after the Unix epoch that chrono can date.
pub fn now_rfc3339() -> (r: Option<String>)
    ensures
        r matches Some(t) ==> is_rfc3339_utc(t@),
{
    match unix_now() {
        Some((secs, nanos)) => {
            if secs <= 9_223_372_036_854_775_807 {
                let r = rfc3339_at(secs as i64, nanos);
                proof {
                    if let Some(t) = &r {
                        assert(rfc3339_text_of(t@, secs as int, nanos as nat));
                    }
                }
                r
            } else {
                None
            }
        },
        None => None,
    }
}

/// The current UTC time as a `YYYYMMDD-HHMMSS` stamp; `None` when the system
/// clock does not read a time after the Unix epoch that chrono can date.
pub fn now_stamp() -> (r: Option<String>)
    ensures
        r matches Some(t) ==> is_file_stamp(t@),
{
    match unix_now() {
        Some((secs, nanos)) => {
            if secs <= 9_223_372_036_854_775_807 {
                let r = stamp_at(secs as i64, nanos);
                proof {
                    if let Some(t) = &r {
                        assert(stamp_text_of(t@, secs as int));
                    }
                }
                r
            } else {
                None
            }
        },
        None => None,
    }
}

} // verus!
