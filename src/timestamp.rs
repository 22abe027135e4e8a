//! Timestamps of runs, as UTC RFC 3339 text.

use vstd::prelude::*;

verus! {

/// Seconds since the Unix epoch of 10000-01-01T00:00:00Z: the first instant
/// whose year no longer fits in four digits.
pub const YEAR_10000_SECS: u64 = 253_402_300_800;

/// Nanoseconds in one second.
pub const NANOS_PER_SEC: u32 = 1_000_000_000;

/// The RFC 3339 text that humantime gives for the instant `secs` seconds and
/// `nanos` nanoseconds after the Unix epoch.
pub uninterp spec fn rfc3339_of(secs: int, nanos: int) -> Seq<char>;

/// Relies on humantime::format_rfc3339, whose text depends on the instant
/// alone (always UTC). Its formatter fails from year 10000 on, which would
/// make `to_string` panic; `requires` leaves those instants out.
#[verifier::external_body]
fn rfc3339(secs: u64, nanos: u32) -> (r: String)
    requires
        secs < YEAR_10000_SECS,
        nanos < NANOS_PER_SEC,
    ensures
        r@ == rfc3339_of(secs as int, nanos as int),
{
    let instant = std::time::UNIX_EPOCH + std::time::Duration::new(secs, nanos);
    humantime::format_rfc3339(instant).to_string()
}

/// The RFC 3339 text of the instant `secs` seconds and `nanos` nanoseconds
/// after the Unix epoch, or `None` where `nanos` is not below one second or
/// the year is past 9999.
pub fn format_timestamp(secs: u64, nanos: u32) -> (r: Option<String>)
    ensures
        r is Some <==> secs < YEAR_10000_SECS && nanos < NANOS_PER_SEC,
        r matches Some(t) ==> t@ == rfc3339_of(secs as int, nanos as int),
{
    if secs < YEAR_10000_SECS && nanos < NANOS_PER_SEC {
        Some(rfc3339(secs, nanos))
    } else {
        None
    }
}

} // verus!
