//! The wall clock, read through std and written out through chrono.
use vstd::prelude::*;

verus! {

/// std's reading of the system clock, carried through unopened.
#[verifier::external_type_specification]
#[verifier::external_body]
pub struct ExSystemTime(std::time::SystemTime);

/// Calls `std::time::SystemTime::now`: the system clock's current reading. Nothing is stated
/// of it: it depends on the clock.
#[verifier::external_body]
fn system_now() -> std::time::SystemTime {
    std::time::SystemTime::now()
}

/// Calls `SystemTime::duration_since` with `UNIX_EPOCH`: `Ok(d)` when `t` lies `d` after the
/// Unix epoch, `Err(d)` with the duration of the error when it lies `d` before it. The
/// durations are opaque here; their seconds and nanoseconds are read with `as_secs` and
/// `subsec_nanos`.
#[verifier::external_body]
fn since_unix_epoch(t: &std::time::SystemTime) -> Result<
    core::time::Duration,
    core::time::Duration,
> {
    t.duration_since(std::time::UNIX_EPOCH).map_err(|e| e.duration())
}

/// `Duration::as_secs`: the whole seconds of the duration.
pub assume_specification[ core::time::Duration::as_secs ](d: &core::time::Duration) -> u64;

/// `Duration::subsec_nanos`: the fractional part of the duration in nanoseconds, which std
/// documents as always less than one billion.
pub assume_specification[ core::time::Duration::subsec_nanos ](d: &core::time::Duration) -> (r:
    u32)
    ensures
        r < 1_000_000_000,
;

/// 0001-01-01T00:00:00Z in seconds since the Unix epoch.
pub const EARLIEST_STAMP_SECS: i64 = -62135596800;

/// 9999-12-31T00:00:00Z in seconds since the Unix epoch.
pub const LATEST_STAMP_SECS: i64 = 253402214400;

/// Whether `c` is an ASCII decimal digit.
pub open spec fn ascii_digit(c: char) -> bool {
    48 <= (c as u32) <= 57
}

/// The shape of an RFC 3339 time with a four-digit year and a numeric offset:
/// `YYYY-MM-DDTHH:MM:SS`, an optional fraction of a second, then `+HH:MM` or `-HH:MM`.
pub open spec fn rfc3339_shaped(s: Seq<char>) -> bool {
    let n = s.len();
    &&& n >= 25
    &&& ascii_digit(s[0]) && ascii_digit(s[1]) && ascii_digit(s[2]) && ascii_digit(s[3])
    &&& s[4] == '-'
    &&& ascii_digit(s[5]) && ascii_digit(s[6])
    &&& s[7] == '-'
    &&& ascii_digit(s[8]) && ascii_digit(s[9])
    &&& s[10] == 'T'
    &&& ascii_digit(s[11]) && ascii_digit(s[12])
    &&& s[13] == ':'
    &&& ascii_digit(s[14]) && ascii_digit(s[15])
    &&& s[16] == ':'
    &&& ascii_digit(s[17]) && ascii_digit(s[18])
    &&& (s[n - 6] == '+' || s[n - 6] == '-')
    &&& ascii_digit(s[n - 5]) && ascii_digit(s[n - 4])
    &&& s[n - 3] == ':'
    &&& ascii_digit(s[n - 2]) && ascii_digit(s[n - 1])
}

/// A time stamp as the board keeps it: an RFC 3339 time, or empty when the clock gave no
/// time that can be written so.
pub open spec fn stamp_or_blank(s: Seq<char>) -> bool {
    s.len() == 0 || rfc3339_shaped(s)
}

/// Calls `chrono::Local.timestamp_opt(secs, nanos)` and writes the local time with
/// `DateTime::to_rfc3339`. For a time between the years 1 and 9999 chrono's `from_timestamp`
/// accepts it, the local offset (under a day) keeps the local year within 0..=9999, and
/// chrono's writer puts out `YYYY-MM-DDTHH:MM:SS`, a fraction only when `nanos` is not 0, and
/// the offset as `+HH:MM` or `-HH:MM`. chrono's `DateTime` is not declared to Verus (its
/// `TimeZone` bound cannot be), so the value goes straight to text here. Left unstated, and
/// not excludable by any argument: chrono panics when the machine's time-zone data cannot
/// give an offset for the time (`unwrap` in `Local::offset_from_utc_datetime`).
#[verifier::external_body]
fn local_rfc3339(secs: i64, nanos: u32) -> (r: Option<String>)
    requires
        EARLIEST_STAMP_SECS <= secs <= LATEST_STAMP_SECS,
        nanos < 1_000_000_000,
    ensures
        r is Some,
        rfc3339_shaped(r.unwrap()@),
{
    chrono::TimeZone::timestamp_opt(&chrono::Local, secs, nanos).single().map(|t| t.to_rfc3339())
}

/// The current local time as RFC 3339 text, or none when the clock reads a time outside the
/// years 1 to 9999 (including a reading too far from the epoch to count in seconds).
pub fn now_rfc3339() -> (r: Option<String>)
    ensures
        r matches Some(s) ==> rfc3339_shaped(s@),
{
    let t = system_now();
    let (after, d) = match since_unix_epoch(&t) {
        Ok(d) => (true, d),
        Err(d) => (false, d),
    };
    let secs: u64 = d.as_secs();
    let nanos: u32 = d.subsec_nanos();
    if secs > 253402300800 {
        return None;
    }
    let whole: i64 = secs as i64;
    let (unix_secs, unix_nanos): (i64, u32) = if after {
        (whole, nanos)
    } else if nanos == 0 {
        (-whole, 0)
    } else {
        (-whole - 1, 1_000_000_000 - nanos)
    };
    if unix_secs < EARLIEST_STAMP_SECS || unix_secs > LATEST_STAMP_SECS {
        None
    } else {
        local_rfc3339(unix_secs, unix_nanos)
    }
}

} // verus!
