//! The system clock, read as the time since the Unix epoch.

use vstd::prelude::*;

verus! {

/// Calls `std::time::SystemTime::elapsed` on `UNIX_EPOCH`: the whole seconds and the
/// nanoseconds past them since 1970-01-01T00:00:00Z, or nothing when the clock reads an
/// earlier time. The value depends on the clock; only that the nanoseconds stay under
/// a second (as `Duration::subsec_nanos` documents) is stated.
#[verifier::external_body]
pub(crate) fn epoch_elapsed() -> (r: Option<(u64, u32)>)
    ensures
        r matches Some((_, nanos)) ==> nanos < 1_000_000_000,
{
    std::time::UNIX_EPOCH.elapsed().ok().map(|d| (d.as_secs(), d.subsec_nanos()))
}

} // verus!
