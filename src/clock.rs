use vstd::prelude::*;

verus! {

/// Relies on the declaration of `std::time::Instant`, carried opaquely as the
/// start of a test.
#[verifier::external_type_specification]
#[verifier::external_body]
pub struct ExInstant(std::time::Instant);

/// Relies on `Instant::now`: reads the monotonic clock; nothing is promised of
/// the value.
pub assume_specification[ std::time::Instant::now ]() -> std::time::Instant;

/// Relies on `Instant::elapsed`: time since the instant, saturating at zero;
/// nothing is promised of the value.
pub assume_specification[ std::time::Instant::elapsed ](i: &std::time::Instant) -> core::time::Duration;

/// Relies on `Duration::as_secs`: whole seconds of a duration; it never panics.
pub assume_specification[ core::time::Duration::as_secs ](d: &core::time::Duration) -> u64;

} // verus!
