//! Civil times in the site's zone, instants, and their written forms.
use vstd::prelude::*;
use chrono::{Datelike, Timelike};

verus! {

/// A local date and time to the minute, as written in front matter.
pub struct CivilTime {
    pub year: i32,
    pub month: u32,
    pub day: u32,
    pub hour: u32,
    pub minute: u32,
}

/// The fields of the civil time that chrono reads from `s` with `%Y-%m-%d %H:%M`.
pub uninterp spec fn civil_time_of(s: Seq<char>) -> Option<(int, int, int, int, int)>;

/// The instant, in seconds since the Unix epoch, of a civil time in Europe/Berlin,
/// where that civil time names exactly one instant.
pub uninterp spec fn berlin_instant_of(year: int, month: int, day: int, hour: int, minute: int) -> Option<int>;

/// The RFC 2822 form of an instant given in seconds since the Unix epoch.
pub uninterp spec fn rfc2822_of(ts: int) -> Option<Seq<char>>;

/// The `%Y-%m-%d` form, in UTC, of an instant given in seconds since the Unix epoch.
pub uninterp spec fn ymd_of(ts: int) -> Option<Seq<char>>;

/// The fields of a civil time as integers.
pub open spec fn civil_fields(t: CivilTime) -> (int, int, int, int, int) {
    (t.year as int, t.month as int, t.day as int, t.hour as int, t.minute as int)
}

/// Relies on chrono's `NaiveDateTime::parse_from_str` with the pattern
/// `%Y-%m-%d %H:%M`: the fields it reads, or `None` where `s` does not match.
#[verifier::external_body]
pub(crate) fn parse_civil_time(s: &str) -> (r: Option<CivilTime>)
    ensures
        match r {
            Some(t) => civil_time_of(s@) == Some(civil_fields(t)),
            None => civil_time_of(s@).is_none(),
        },
{
    chrono::NaiveDateTime::parse_from_str(s, "%Y-%m-%d %H:%M").ok().map(|t| CivilTime {
        year: t.year(),
        month: t.month(),
        day: t.day(),
        hour: t.hour(),
        minute: t.minute(),
    })
}

/// Relies on chrono's `NaiveDateTime::and_local_timezone` with chrono-tz's
/// `Europe::Berlin`: the single instant that the civil time names, in seconds;
/// `None` for a time that the zone skips or repeats, or an invalid date.
#[verifier::external_body]
pub(crate) fn berlin_to_utc(t: &CivilTime) -> (r: Option<i64>)
    ensures
        match r {
            Some(ts) => berlin_instant_of(t.year as int, t.month as int, t.day as int, t.hour as int, t.minute as int) == Some(ts as int),
            None => berlin_instant_of(t.year as int, t.month as int, t.day as int, t.hour as int, t.minute as int).is_none(),
        },
{
    chrono::NaiveDate::from_ymd_opt(t.year, t.month, t.day)
        .and_then(|d| d.and_hms_opt(t.hour, t.minute, 0))
        .and_then(|n| n.and_local_timezone(chrono_tz::Europe::Berlin).single())
        .map(|z| z.timestamp())
}

/// The first instant of the year 0 and the last of the year 9999, in seconds
/// since the Unix epoch: the years that RFC 2822 can write.
pub const RFC2822_FIRST: i64 = -62167219200;
pub const RFC2822_LAST: i64 = 253402300799;

/// Relies on chrono's `DateTime::<Utc>::to_rfc2822`, for the instant `ts`
/// seconds after the epoch; `None` where chrono cannot represent it. chrono
/// panics on a year outside 0 to 9999, which `requires` leaves out.
#[verifier::external_body]
pub(crate) fn format_rfc2822(ts: i64) -> (r: Option<String>)
    requires
        RFC2822_FIRST <= ts <= RFC2822_LAST,
    ensures
        crate::opt_view(r) == rfc2822_of(ts as int),
{
    chrono::DateTime::from_timestamp(ts, 0).map(|t| t.to_rfc2822())
}

/// Relies on chrono's `DateTime::<Utc>::format` with `%Y-%m-%d`, for the instant
/// `ts` seconds after the epoch; `None` where chrono cannot represent it.
#[verifier::external_body]
pub(crate) fn format_ymd(ts: i64) -> (r: Option<String>)
    ensures
        crate::opt_view(r) == ymd_of(ts as int),
{
    chrono::DateTime::from_timestamp(ts, 0).map(|t| t.format("%Y-%m-%d").to_string())
}

} // verus!
