//! Fresh-id generation.

use vstd::prelude::*;

verus! {

/// Relies on uuid::Uuid::new_v4 and its hyphenated text form (the Display
/// impl): a freshly drawn version-4 UUID rendered as 36 characters. The
/// value is random, so nothing beyond its length is promised.
#[verifier::external_body]
pub(crate) fn new_uuid_string() -> (r: String)
    ensures
        r@.len() == 36,
{
    uuid::Uuid::new_v4().to_string()
}

} // verus!
