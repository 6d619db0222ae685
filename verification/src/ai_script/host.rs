//! What the engine takes from its surroundings: identifiers and the time.

use vstd::prelude::*;

verus! {

/// `uuid::Uuid::new_v4`, written out as text: a random identifier. Nothing
/// is promised of it: two calls may even return the same text.
#[verifier::external_body]
pub(crate) fn fresh_id() -> String {
    uuid::Uuid::new_v4().to_string()
}

/// `chrono::Utc::now`, as milliseconds since the Unix epoch. Nothing is
/// promised of it: the clock may stand still or go back.
#[verifier::external_body]
pub(crate) fn now_millis() -> i64 {
    chrono::Utc::now().timestamp_millis()
}

} // verus!
