//! What the library takes on trust of `std::time`.
//!
//! `Duration` and `SystemTime` are opaque to the verifier. Two names stand
//! for what they hold, a length of time and a distance from the Unix epoch,
//! and each item below says over those names what the standard library
//! documents of one of its functions. Which instants a platform can represent
//! is the platform's to say, so nothing is claimed of when the arithmetic
//! succeeds.

use std::time::Duration;
use std::time::SystemTime;
use vstd::prelude::*;

verus! {

/// `std::time::SystemTime`, carried through as an opaque value.
#[verifier::external_type_specification]
#[verifier::external_body]
pub struct ExSystemTime(SystemTime);

/// What a duration holds: its length, in nanoseconds.
pub uninterp spec fn duration_nanos(d: Duration) -> nat;

/// What a system time holds: the signed distance from the Unix epoch to the
/// instant, in nanoseconds; negative for an instant before the epoch.
pub uninterp spec fn time_nanos(t: SystemTime) -> int;

/// `Duration::clone`: a duration is `Copy`, and its clone is the same
/// duration.
pub assume_specification[ <Duration as Clone>::clone ](d: &Duration) -> (r: Duration)
    ensures
        r == *d,
;

/// `SystemTime::clone`: a system time is `Copy`, and its clone is the same
/// instant.
pub assume_specification[ <SystemTime as Clone>::clone ](t: &SystemTime) -> (r: SystemTime)
    ensures
        r == *t,
;

/// `Duration::from_millis`: the duration of that many milliseconds.
pub assume_specification[ Duration::from_millis ](millis: u64) -> (r: Duration)
    ensures
        duration_nanos(r) == millis * 1_000_000,
;

/// `SystemTime::checked_add`: the instant `d` after `t`, or `None` where the
/// platform cannot represent it. The sum is claimed for durations that are a
/// multiple of 100 ns, the coarsest resolution that std documents for a
/// platform's system time.
pub assume_specification[ SystemTime::checked_add ](t: &SystemTime, d: Duration) -> (r: Option<
    SystemTime,
>)
    ensures
        r matches Some(u) ==> (duration_nanos(d) % 100 == 0 ==> time_nanos(u) == time_nanos(*t)
            + duration_nanos(d)),
;

/// `SystemTime::checked_sub`: the instant `d` before `t`, or `None` where the
/// platform cannot represent it. The difference is claimed for durations that
/// are a multiple of 100 ns, as for `checked_add`.
pub assume_specification[ SystemTime::checked_sub ](t: &SystemTime, d: Duration) -> (r: Option<
    SystemTime,
>)
    ensures
        r matches Some(u) ==> (duration_nanos(d) % 100 == 0 ==> time_nanos(u) == time_nanos(*t)
            - duration_nanos(d)),
;

/// `SystemTime::UNIX_EPOCH`: the instant at distance zero from the epoch.
#[verifier::external_body]
pub(crate) fn unix_epoch() -> (r: SystemTime)
    ensures
        time_nanos(r) == 0,
{
    SystemTime::UNIX_EPOCH
}

} // verus!
