//! The wall clock, the one input of the library that is neither an argument
//! nor stored state.
use vstd::prelude::*;

verus! {

/// Relies on `chrono::Utc::now` and `DateTime::timestamp`: the current time
/// as whole seconds since the Unix epoch. Nothing is promised of the value.
#[verifier::external_body]
pub(crate) fn unix_now() -> (r: i64) {
    chrono::Utc::now().timestamp()
}

} // verus!
