//! Wall-clock access for timestamping chat messages.

use vstd::prelude::*;

verus! {

/// Relies on std::time::SystemTime::now and Duration::as_millis: the
/// milliseconds elapsed since the Unix epoch, saturating to 0 if the clock
/// reads earlier than the epoch. The clock may return anything, so nothing
/// is promised of the result.
#[verifier::external_body]
pub fn now_millis() -> u64 {
    std::time::SystemTime::now()
        .duration_since(std::time::UNIX_EPOCH)
        .map(|d| d.as_millis() as u64)
        .unwrap_or(0)
}

} // verus!
