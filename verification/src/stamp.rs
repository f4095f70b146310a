//! What only the machine can tell: the present time and a fresh
//! identifier. Nothing is stated of either, and nothing is proved from
//! them: they differ from call to call.

use vstd::prelude::*;

verus! {

/// `chrono::Utc::now().to_rfc3339()`: the present time in UTC, written
/// as RFC 3339 asks. The call does not return on a machine whose clock
/// stands before 1970.
#[verifier::external_body]
pub(crate) fn now_rfc3339() -> (text: String) {
    chrono::Utc::now().to_rfc3339()
}

/// `uuid::Uuid::new_v4().to_string()`: a random identifier in its
/// hyphenated form. The call does not return on a machine that has no
/// source of random numbers.
#[verifier::external_body]
pub(crate) fn new_uuid() -> (id: String) {
    uuid::Uuid::new_v4().to_string()
}

} // verus!
