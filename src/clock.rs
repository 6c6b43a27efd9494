use chrono::TimeZone;
use vstd::prelude::*;

verus! {

/// Largest distance from the Unix epoch, in seconds, of an instant that the
/// calendar renders (about 255,000 years; the calendar itself reaches 262,143).
pub const CLOCK_LIMIT: i64 = 8_000_000_000_000;

/// Seconds in one day of a loan period.
pub const SECS_PER_DAY: i64 = 86_400;

/// Wall-clock zone of a tenant.
#[derive(Clone, Copy, Debug, PartialEq, Eq, Structural)]
pub enum Zone {
    Tokyo,
    Berlin,
}

/// Tokyo wall-clock text "%Y/%m/%d %H:%M" of the instant `secs` seconds after the epoch.
pub uninterp spec fn tokyo_stamp(secs: int) -> Seq<char>;

/// Berlin wall-clock text "%Y/%m/%d %H:%M" of the instant `secs` seconds after the epoch.
pub uninterp spec fn berlin_stamp(secs: int) -> Seq<char>;

pub open spec fn clock_range(secs: int) -> bool {
    -CLOCK_LIMIT <= secs <= CLOCK_LIMIT
}

/// The zone a tenant's configured zone name selects: "Berlin" is Berlin, any other name Tokyo.
pub open spec fn zone_named(name: Seq<char>) -> Zone {
    if name == "Berlin"@ {
        Zone::Berlin
    } else {
        Zone::Tokyo
    }
}

/// Text of the instant `secs` in the wall clock of `zone`.
pub open spec fn stamp(zone: Zone, secs: int) -> Seq<char> {
    match zone {
        Zone::Tokyo => tokyo_stamp(secs),
        Zone::Berlin => berlin_stamp(secs),
    }
}

/// Instant that lies `days` whole days after `now`.
pub open spec fn days_later(now: int, days: u32) -> int {
    now + days * SECS_PER_DAY
}

/// Relies on chrono's `DateTime::from_timestamp`, `TimeZone::from_utc_datetime` for
/// chrono-tz's `Asia::Tokyo`, and `format("%Y/%m/%d %H:%M")`: the text depends on `secs` alone.
#[verifier::external_body]
fn tokyo_text(secs: i64) -> (r: String)
    requires
        clock_range(secs as int),
    ensures
        r@ == tokyo_stamp(secs as int),
{
    match chrono::DateTime::from_timestamp(secs, 0) {
        Some(utc) => chrono_tz::Asia::Tokyo.from_utc_datetime(&utc.naive_utc()).format(
            "%Y/%m/%d %H:%M",
        ).to_string(),
        None => String::new(),
    }
}

/// Relies on chrono's `DateTime::from_timestamp`, `TimeZone::from_utc_datetime` for
/// chrono-tz's `Europe::Berlin`, and `format("%Y/%m/%d %H:%M")`: the text depends on `secs` alone.
#[verifier::external_body]
fn berlin_text(secs: i64) -> (r: String)
    requires
        clock_range(secs as int),
    ensures
        r@ == berlin_stamp(secs as int),
{
    match chrono::DateTime::from_timestamp(secs, 0) {
        Some(utc) => chrono_tz::Europe::Berlin.from_utc_datetime(&utc.naive_utc()).format(
            "%Y/%m/%d %H:%M",
        ).to_string(),
        None => String::new(),
    }
}

impl Zone {
    /// Zone selected by a tenant's setting.
    pub fn from_name(name: &str) -> (z: Zone)
        ensures
            z == zone_named(name@),
    {
        let given = name.to_owned();
        let berlin = "Berlin".to_owned();
        if given == berlin {
            Zone::Berlin
        } else {
            Zone::Tokyo
        }
    }
}

/// Renders the instant `secs` in the wall clock of `zone`.
pub fn stamp_text(zone: Zone, secs: i64) -> (r: String)
    requires
        clock_range(secs as int),
    ensures
        r@ == stamp(zone, secs as int),
{
    match zone {
        Zone::Tokyo => tokyo_text(secs),
        Zone::Berlin => berlin_text(secs),
    }
}

/// Whether `secs` lies in the range the calendar renders.
pub fn in_clock_range(secs: i64) -> (r: bool)
    ensures
        r == clock_range(secs as int),
{
    -CLOCK_LIMIT <= secs && secs <= CLOCK_LIMIT
}

/// The instant `days` days after `now`, when both lie in the rendered range.
pub fn deadline_after(now: i64, days: u32) -> (r: Option<i64>)
    ensures
        r is Some <==> clock_range(now as int) && clock_range(days_later(now as int, days)),
        r is Some ==> r->0 == days_later(now as int, days),
{
    if !in_clock_range(now) {
        return None;
    }
    let later: i128 = now as i128 + days as i128 * SECS_PER_DAY as i128;
    if -(CLOCK_LIMIT as i128) <= later && later <= CLOCK_LIMIT as i128 {
        Some(later as i64)
    } else {
        None
    }
}

} // verus!
