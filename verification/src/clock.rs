//! The monotonic clock of the standard library, as far as uptime needs it.
//! What the clock reads is not for any contract to say: these items promise
//! nothing of their results.

use std::time::Duration;
use std::time::Instant;
use vstd::prelude::*;

verus! {

/// `std::time::Instant`: a reading of the monotonic clock.
#[verifier::external_type_specification]
#[verifier::external_body]
pub struct ExInstant(Instant);

/// `Instant::now`: reads the clock. Two readings may differ.
pub assume_specification[ Instant::now ]() -> Instant;

/// `Clone` of `Instant`: the same reading.
pub assume_specification[ <Instant as Clone>::clone ](reading: &Instant) -> (copy: Instant)
    ensures
        copy == *reading,
;

/// `Instant::elapsed`: the time since the reading was taken. It depends on
/// when it is asked.
pub assume_specification[ Instant::elapsed ](start: &Instant) -> Duration;

/// `Duration::as_secs`: the whole seconds of a span of time.
pub assume_specification[ Duration::as_secs ](span: &Duration) -> u64;

} // verus!
