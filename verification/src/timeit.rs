//! Timing instrumentation: readings of the monotonic clock taken around a
//! computation phase, reported as an elapsed duration.
//!
//! A clock reading depends on the machine and the moment, so nothing is
//! promised of these values; they are observational only and no decision
//! in this library depends on them.

use vstd::prelude::*;

verus! {

/// Declares `std::time::Instant` to the verifier as an opaque type: a
/// clock reading carried through, with nothing visible inside it.
#[verifier::external_type_specification]
#[verifier::external_body]
pub struct ExInstant(std::time::Instant);

/// Relies on `std::time::Instant::now`: an opaque reading of the
/// monotonic clock.
pub assume_specification[ std::time::Instant::now ]() -> std::time::Instant;

/// Relies on `std::time::Instant::elapsed`: the time passed since the
/// reading was taken.
pub assume_specification[ std::time::Instant::elapsed ](
    this: &std::time::Instant,
) -> core::time::Duration;

} // verus!
