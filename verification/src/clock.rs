//! The wall clock, read through `std::time`.
//!
//! A reading of the clock comes as a whole number of seconds since the Unix
//! epoch and a fraction of a second in nanoseconds. The library puts the two
//! together; where the reading stands is the clock's affair.

use vstd::prelude::*;

verus! {

/// The nanoseconds of a second.
pub const NANOS_PER_SECOND: u32 = 1_000_000_000;

/// `std::time::SystemTime`, a reading of the clock.
#[verifier::external_type_specification]
#[verifier::external_body]
pub struct ExSystemTime(std::time::SystemTime);

/// `std::time::SystemTimeError`, the error of a reading that lies before the
/// moment it is measured from.
#[verifier::external_type_specification]
#[verifier::external_body]
pub struct ExSystemTimeError(std::time::SystemTimeError);

/// The nanoseconds in `secs` whole seconds and a fraction of `fraction`
/// nanoseconds.
pub open spec fn nanos_total(secs: u64, fraction: u32) -> int {
    secs * NANOS_PER_SECOND + fraction
}

/// Whether a number is a timestamp: the nanoseconds of some whole number of
/// seconds and a fraction of less than a second.
pub open spec fn is_timestamp(stamp: u128) -> bool {
    exists|secs: u64, fraction: u32|
        fraction < NANOS_PER_SECOND && stamp == #[trigger] nanos_total(secs, fraction)
}

/// `SystemTime::now`. The result is whatever the clock shows; nothing is
/// claimed of it.
#[verifier::external_body]
fn system_now() -> std::time::SystemTime {
    std::time::SystemTime::now()
}

/// `SystemTime::duration_since`, measured from the Unix epoch. It fails where
/// the clock stands before the epoch; nothing is claimed of the result.
#[verifier::external_body]
fn since_epoch(at: &std::time::SystemTime) -> Result<
    std::time::Duration,
    std::time::SystemTimeError,
> {
    at.duration_since(std::time::UNIX_EPOCH)
}

/// `Duration::as_secs`, the whole seconds of a span of time. Nothing is
/// claimed of the result.
#[verifier::external_body]
fn whole_secs(span: &std::time::Duration) -> u64 {
    span.as_secs()
}

/// `Duration::subsec_nanos`, what a span of time holds beyond its whole
/// seconds, in nanoseconds. As its documentation says, the result is less
/// than one billion; nothing else is claimed of it.
#[verifier::external_body]
fn fraction_nanos(span: &std::time::Duration) -> (nanos: u32)
    ensures
        nanos < NANOS_PER_SECOND,
{
    span.subsec_nanos()
}

/// The nanoseconds in a span of whole seconds and a fraction given in
/// nanoseconds.
pub fn total_nanos(secs: u64, fraction: u32) -> (total: u128)
    ensures
        total == nanos_total(secs, fraction),
{
    assert(secs * NANOS_PER_SECOND <= u64::MAX * NANOS_PER_SECOND) by (nonlinear_arith)
        requires
            secs <= u64::MAX,
    ;
    (secs as u128) * (NANOS_PER_SECOND as u128) + (fraction as u128)
}

/// The time now as a timestamp: the nanoseconds that have passed since the
/// Unix epoch, or `None` where the clock stands before the epoch. Which
/// seconds and which fraction go into the timestamp is the clock's to say,
/// and differs from call to call.
pub fn time_now_ms() -> (stamp: Option<u128>)
    ensures
        stamp matches Some(nanos) ==> is_timestamp(nanos),
{
    let now = system_now();
    match since_epoch(&now) {
        Ok(span) => {
            let secs: u64 = whole_secs(&span);
            let fraction: u32 = fraction_nanos(&span);
            let total = total_nanos(secs, fraction);
            assert(total == nanos_total(secs, fraction));
            Some(total)
        },
        Err(_) => None,
    }
}

} // verus!
