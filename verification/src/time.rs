//! The server clock. Each successful progress update stamps the record with
//! the wall-clock time read here, never with a client-supplied value.

use vstd::prelude::*;

verus! {

/// Relies on chrono's `Utc::now` and `DateTime::timestamp`: the current
/// wall-clock time as whole seconds since the Unix epoch. Nothing is promised
/// of the value — it depends on the machine's clock; callers state what holds
/// whatever comes back. A pre-epoch clock wraps through the unsigned cast.
#[verifier::external_body]
pub(crate) fn now_seconds() -> u64 {
    chrono::Utc::now().timestamp() as u64
}

} // verus!
