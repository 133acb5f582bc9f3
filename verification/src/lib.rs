//! A small library for managing stored HTTP test cases: user accounts with
//! hashed passwords and session claims, a repository of case records scoped
//! to their owners, and the planning and recording of outbound dispatches.

use vstd::prelude::*;

pub mod auth;
pub mod dispatch;
pub mod errors;
pub mod ext;
pub mod laws;
pub mod model;
pub mod schema;
pub mod store;
pub mod text;
pub mod users;

verus! {

/// Clamps a signed Unix timestamp to an unsigned second count.
pub fn clamp_time(t: i64) -> (r: u64)
    ensures
        t >= 0 ==> r == t as u64,
        t < 0 ==> r == 0,
        r <= i64::MAX as u64,
{
    if t < 0 {
        0
    } else {
        t as u64
    }
}

} // verus!
