//! The clock and the identifier source: the two outside effects the record
//! stores depend on, each behind one declared call.

use vstd::prelude::*;

verus! {

/// Relies on `uuid::Uuid::new_v4` and its `Display`: a random identifier,
/// rendered in the hyphenated form of exactly 36 characters.
#[verifier::external_body]
pub(crate) fn fresh_id() -> (r: String)
    ensures
        r@.len() == 36,
{
    uuid::Uuid::new_v4().to_string()
}

/// Relies on `chrono::Utc::now`: whole seconds since the Unix epoch,
/// negative before it. Nothing can be promised of the clock's reading.
#[verifier::external_body]
fn now_unix() -> i64 {
    chrono::Utc::now().timestamp()
}

/// The current time as the stores take it: seconds since the Unix epoch,
/// clamped to zero for clocks set before it.
pub fn current_time() -> (r: u64)
    ensures
        r <= i64::MAX as u64,
{
    crate::clamp_time(now_unix())
}

} // verus!
