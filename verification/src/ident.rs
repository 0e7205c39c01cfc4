//! Fresh identifiers and creation stamps for new records.

use vstd::prelude::*;

verus! {

/// A new random identifier: the text of `uuid::Uuid::new_v4()`. The value is
/// random, so nothing is claimed of it. The call gives up only where the
/// system has no random bytes to give.
#[verifier::external_body]
pub(crate) fn fresh_id() -> (id: String) {
    uuid::Uuid::new_v4().to_string()
}

/// The current time in UTC as RFC 3339 text, from `chrono::Utc::now()` and
/// `DateTime::to_rfc3339`. The value depends on the clock, so nothing is
/// claimed of it. The call takes the system clock to stand at or after the
/// start of 1970.
#[verifier::external_body]
pub(crate) fn timestamp_now() -> (stamp: String) {
    chrono::Utc::now().to_rfc3339()
}

} // verus!
