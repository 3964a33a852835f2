//! The high-resolution clock behind request timing.

use vstd::prelude::*;

verus! {

/// Relies on std::time::SystemTime::now and duration_since: a wall-clock
/// reading in microseconds since the Unix epoch. Nothing is promised of
/// its value; every contract downstream holds for every reading.
#[verifier::external_body]
pub fn now_micros() -> u64 {
    match std::time::SystemTime::now().duration_since(std::time::UNIX_EPOCH) {
        Ok(d) => d.as_micros() as u64,
        Err(_) => 0,
    }
}

} // verus!
