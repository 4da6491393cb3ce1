//! Values that differ from call to call: new ids and the current time.
//!
//! Nothing can be promised of either, so the functions here have no
//! contract, and whatever takes their results is verified for every text.

use vstd::prelude::*;

verus! {

/// Calls `Uuid::new_v4` and renders the id with `to_string`. The id is
/// random: nothing is claimed of it. `Uuid::new_v4` gives up on a machine
/// that has no source of random numbers.
#[verifier::external_body]
pub(crate) fn fresh_id() -> String {
    uuid::Uuid::new_v4().to_string()
}

/// Calls `Utc::now` and renders the time with `to_rfc3339_opts`, in the form
/// in which times are stored and served. The time is that of the machine:
/// nothing is claimed of it. `Utc::now` gives up on a machine whose clock
/// stands before 1970.
#[verifier::external_body]
pub(crate) fn now_text() -> String {
    chrono::Utc::now().to_rfc3339_opts(chrono::SecondsFormat::AutoSi, true)
}

} // verus!
