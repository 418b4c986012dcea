//! The system clock, read through one trusted call.

use vstd::prelude::*;

verus! {

/// Reads the system clock with `std::time::SystemTime::now` and
/// measures it from `UNIX_EPOCH` with `duration_since`: whole seconds
/// (`as_secs`) and the nanoseconds within the second (`subsec_nanos`),
/// or `(0, 0)` when the clock reads before the epoch. Nothing is
/// claimed of the values: they depend on the machine and the moment.
#[verifier::external_body]
pub(crate) fn unix_time() -> (r: (u64, u32)) {
    match std::time::SystemTime::now().duration_since(std::time::UNIX_EPOCH) {
        Ok(d) => (d.as_secs(), d.subsec_nanos()),
        Err(_) => (0, 0),
    }
}

} // verus!
