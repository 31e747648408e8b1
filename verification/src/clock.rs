//! The one clock reading the core takes from its environment.

use vstd::prelude::*;

verus! {

/// Relies on chrono's `Utc::now` and `DateTime::timestamp_micros`: reads the
/// current wall-clock instant as microseconds since the Unix epoch. The value
/// depends on the machine's clock, so nothing is promised of it; every caller
/// must hold for any reading. As `Utc::now` itself does, the call presumes a
/// system clock at or after the Unix epoch.
#[verifier::external_body]
pub(crate) fn now_micros() -> i64 {
    chrono::Utc::now().timestamp_micros()
}

} // verus!
