//! The real clock of the system, as `std::time` offers it. Each function here makes one
//! call into `std::time`, or converts a span between `std::time::Duration` and this
//! library's `Duration`. What the clock functions return depends on the machine's clock,
//! so no contract says more than their types.
use vstd::prelude::*;

use crate::duration::Duration;

verus! {

#[verifier::external_type_specification]
#[verifier::external_body]
pub struct ExInstant(std::time::Instant);

#[verifier::external_type_specification]
#[verifier::external_body]
pub struct ExSystemTime(std::time::SystemTime);

#[verifier::external_type_specification]
#[verifier::external_body]
pub struct ExSystemTimeError(std::time::SystemTimeError);

/// Relies on `std::time::Duration::as_secs` and `subsec_nanos`: the same span, taken
/// apart into seconds and nanoseconds below one second.
#[verifier::external_body]
pub(crate) fn from_std(d: std::time::Duration) -> (r: Duration) {
    Duration::new(d.as_secs(), d.subsec_nanos())
}

/// Relies on `std::time::Duration::new`: the same span, from its seconds and the
/// nanoseconds below one second.
#[verifier::external_body]
pub(crate) fn to_std(d: Duration) -> std::time::Duration {
    std::time::Duration::new(d.as_secs(), d.subsec_nanos())
}

/// Relies on `std::time::Instant::now`: the system's monotonic clock now.
#[verifier::external_body]
pub(crate) fn instant_now() -> std::time::Instant {
    std::time::Instant::now()
}

/// Relies on `std::time::Instant::duration_since`, which saturates at zero.
#[verifier::external_body]
pub(crate) fn instant_duration_since(
    now: &std::time::Instant,
    earlier: std::time::Instant,
) -> std::time::Duration {
    now.duration_since(earlier)
}

/// Relies on `std::time::Instant::checked_duration_since`.
#[verifier::external_body]
pub(crate) fn instant_checked_duration_since(
    now: &std::time::Instant,
    earlier: std::time::Instant,
) -> Option<std::time::Duration> {
    now.checked_duration_since(earlier)
}

/// Relies on `std::time::Instant::saturating_duration_since`.
#[verifier::external_body]
pub(crate) fn instant_saturating_duration_since(
    now: &std::time::Instant,
    earlier: std::time::Instant,
) -> std::time::Duration {
    now.saturating_duration_since(earlier)
}

/// Relies on `std::time::Instant::elapsed`: the span from the instant to now.
#[verifier::external_body]
pub(crate) fn instant_elapsed(i: &std::time::Instant) -> std::time::Duration {
    i.elapsed()
}

/// Relies on `std::time::Instant::checked_add`.
#[verifier::external_body]
pub(crate) fn instant_checked_add(
    i: &std::time::Instant,
    d: std::time::Duration,
) -> Option<std::time::Instant> {
    i.checked_add(d)
}

/// Relies on `std::time::Instant::checked_sub`.
#[verifier::external_body]
pub(crate) fn instant_checked_sub(
    i: &std::time::Instant,
    d: std::time::Duration,
) -> Option<std::time::Instant> {
    i.checked_sub(d)
}

/// Relies on `std::time::SystemTime::now`: the system's wall clock now.
#[verifier::external_body]
pub(crate) fn system_now() -> std::time::SystemTime {
    std::time::SystemTime::now()
}

/// Relies on `std::time::SystemTime::UNIX_EPOCH`.
#[verifier::external_body]
pub(crate) fn system_unix_epoch() -> std::time::SystemTime {
    std::time::SystemTime::UNIX_EPOCH
}

/// Relies on `std::time::SystemTime::duration_since`: an error where `earlier` is later.
#[verifier::external_body]
pub(crate) fn system_duration_since(
    now: &std::time::SystemTime,
    earlier: std::time::SystemTime,
) -> Result<std::time::Duration, std::time::SystemTimeError> {
    now.duration_since(earlier)
}

/// Relies on `std::time::SystemTime::elapsed`: the span from the time to now.
#[verifier::external_body]
pub(crate) fn system_elapsed(t: &std::time::SystemTime) -> Result<
    std::time::Duration,
    std::time::SystemTimeError,
> {
    t.elapsed()
}

/// Relies on `std::time::SystemTime::checked_add`.
#[verifier::external_body]
pub(crate) fn system_checked_add(
    t: &std::time::SystemTime,
    d: std::time::Duration,
) -> Option<std::time::SystemTime> {
    t.checked_add(d)
}

/// Relies on `std::time::SystemTime::checked_sub`.
#[verifier::external_body]
pub(crate) fn system_checked_sub(
    t: &std::time::SystemTime,
    d: std::time::Duration,
) -> Option<std::time::SystemTime> {
    t.checked_sub(d)
}

} // verus!
