use vstd::prelude::*;
use std::time::{Duration, Instant};

verus! {

/// `std::time::Instant`, a reading of the monotonic clock. Nothing is known
/// of what a value holds.
#[verifier::external_type_specification]
#[verifier::external_body]
pub struct ExInstant(std::time::Instant);

/// The length of a duration in whole nanoseconds, as `Duration::as_nanos`
/// gives it.
pub uninterp spec fn duration_nanos(length: Duration) -> nat;

/// `Duration::as_nanos`: the whole duration in nanoseconds. The result is a
/// function of the duration alone.
pub assume_specification[ Duration::as_nanos ](length: &Duration) -> (nanos: u128)
    ensures
        nanos as nat == duration_nanos(*length),
;

/// `Instant::now`: reads the monotonic clock. Nothing is promised of the reading.
pub assume_specification[ Instant::now ]() -> (reading: Instant);

/// `Instant::elapsed`: the time that has passed since the reading was taken.
/// Nothing is promised of its length.
pub assume_specification[ Instant::elapsed ](reading: &Instant) -> (passed: Duration);

} // verus!
