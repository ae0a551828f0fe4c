//! The monotonic clock of the standard library, as far as the library reads
//! it.
//!
//! Nothing in this file is proved. What the clock returns depends on when
//! it is asked, so no contract below says anything about a result.

use vstd::prelude::*;
use std::time::Duration;
use std::time::Instant;

verus! {

/// `std::time::Instant`, a reading of the monotonic clock. Its contents are
/// not visible to the verifier.
#[verifier::external_type_specification]
#[verifier::external_body]
pub struct ExInstant(std::time::Instant);

/// `Instant::now`: the current reading of the clock.
pub assume_specification[ Instant::now ]() -> (now: Instant);

/// `Instant::elapsed`: the time that has passed since the reading was taken.
pub assume_specification[ Instant::elapsed ](since: &Instant) -> (waited: Duration);

/// `Duration::as_nanos`: the whole span in nanoseconds.
pub assume_specification[ Duration::as_nanos ](span: &Duration) -> (nanos: u128);

} // verus!
