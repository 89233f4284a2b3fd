use vstd::prelude::*;
use chrono::Timelike;

verus! {

/// Whether `name` is a time-zone database name that chrono-tz knows.
pub uninterp spec fn is_tz_name(name: Seq<char>) -> bool;

/// The hour of the day, in the zone named `name`, at `utc_secs` seconds
/// after the Unix epoch.
pub uninterp spec fn local_hour_of(name: Seq<char>, utc_secs: int) -> int;

/// The last instant (9999-12-31 23:59:59 UTC) that the library accepts.
pub const MAX_INSTANT: i64 = 253402300799;

/// Relies on chrono-tz's `<Tz as FromStr>::from_str`, which looks the name up
/// in its table of zones and fails on names it does not hold.
#[verifier::external_body]
pub(crate) fn tz_name_valid(name: &str) -> (r: bool)
    ensures
        r == is_tz_name(name@),
{
    name.parse::<chrono_tz::Tz>().is_ok()
}

/// Relies on chrono-tz's `<Tz as FromStr>::from_str` to find the zone, on
/// chrono's `DateTime::from_timestamp` (which returns a value for every
/// instant in this range), `DateTime::with_timezone` and `Timelike::hour`
/// (an hour below 24).
#[verifier::external_body]
pub(crate) fn local_hour(name: &str, utc_secs: i64) -> (r: Option<u32>)
    requires
        0 <= utc_secs <= MAX_INSTANT,
    ensures
        r.is_some() == is_tz_name(name@),
        r matches Some(h) ==> h < 24 && h == local_hour_of(name@, utc_secs as int),
{
    let tz: chrono_tz::Tz = match name.parse() {
        Ok(tz) => tz,
        Err(_) => return None,
    };
    let utc = chrono::DateTime::from_timestamp(utc_secs, 0)?;
    Some(utc.with_timezone(&tz).hour())
}

} // verus!
