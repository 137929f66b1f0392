//! The wall clock, read without any call that can panic.

use vstd::prelude::*;

verus! {

#[verifier::external_type_specification]
#[verifier::external_body]
pub struct ExSystemTime(std::time::SystemTime);

/// Text in the shape that chrono's RFC 3339 writer gives a UTC time:
/// `YYYY-MM-DDTHH:MM:SS`, optional fraction, then the zero offset `+00:00`.
pub open spec fn utc_rfc3339_shaped(s: Seq<char>) -> bool {
    &&& s.len() >= 25
    &&& s.contains('T')
    &&& s.subrange(s.len() - 6, s.len() as int) == seq!['+', '0', '0', ':', '0', '0']
}

/// Relies on std's `SystemTime::now`: the current system time.
#[verifier::external_body]
fn system_now() -> std::time::SystemTime {
    std::time::SystemTime::now()
}

/// Relies on std's `SystemTime::duration_since` with `UNIX_EPOCH`: the whole
/// seconds and the nanoseconds of the time since the epoch, or `None` when
/// the time is earlier. `Duration::subsec_nanos` is below one billion.
#[verifier::external_body]
fn since_unix_epoch(t: &std::time::SystemTime) -> (r: Option<(u64, u32)>)
    ensures
        r matches Some((_, nanos)) ==> nanos < 1_000_000_000,
{
    t.duration_since(std::time::UNIX_EPOCH).ok().map(|d| (d.as_secs(), d.subsec_nanos()))
}

/// Relies on chrono's `DateTime::from_timestamp` (`None` when the instant is
/// out of chrono's range) and `DateTime::to_rfc3339`, which writes a UTC time
/// as a four-digit or signed year, `-MM-DDTHH:MM:SS`, an optional fraction
/// and `+00:00`.
#[verifier::external_body]
fn utc_rfc3339(secs: i64, nanos: u32) -> (r: Option<String>)
    ensures
        r matches Some(t) ==> utc_rfc3339_shaped(t@),
{
    chrono::DateTime::from_timestamp(secs, nanos).map(|d| d.to_rfc3339())
}

/// The current UTC time as RFC 3339 text, or `None` when the system clock
/// reads earlier than the Unix epoch or beyond chrono's range.
pub fn now_rfc3339() -> (r: Option<String>)
    ensures
        r matches Some(t) ==> utc_rfc3339_shaped(t@),
{
    let now = system_now();
    match since_unix_epoch(&now) {
        None => None,
        Some((secs, nanos)) => {
            if secs > i64::MAX as u64 {
                None
            } else {
                utc_rfc3339(secs as i64, nanos)
            }
        },
    }
}

} // verus!
