//! The clock, as far as the editor asks it.
//!
//! Nothing is known of what the clock answers, and two readings need not
//! agree: whatever depends on a reading is proved for every value of it.

use std::time::{Duration, Instant};
use vstd::prelude::*;

verus! {

/// A moment of the monotonic clock of the standard library, carried through
/// as an opaque value.
#[verifier::external_type_specification]
#[verifier::external_body]
pub struct ExInstant(Instant);

/// `Instant::now` reads the clock; nothing is claimed of the moment it gives.
pub assume_specification[ Instant::now ]() -> Instant;

/// `Instant::elapsed` measures the time since a moment against the clock;
/// nothing is claimed of the span it gives.
pub assume_specification[ Instant::elapsed ](moment: &Instant) -> Duration;

/// `Duration::as_millis` gives the whole milliseconds of a span. The span is
/// opaque here, so nothing is claimed of the number.
pub assume_specification[ Duration::as_millis ](span: &Duration) -> u128;

} // verus!
