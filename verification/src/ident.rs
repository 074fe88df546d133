//! Fresh identifiers.

use vstd::prelude::*;

verus! {

/// Number of characters in the hyphenated form of a UUID.
pub const UUID_LENGTH: usize = 36;

/// A random (version 4) UUID from `uuid::Uuid::new_v4`, in the lower-case
/// hyphenated form that its `Display` writes. Which one comes back is up to
/// the system's random source, so only the length is promised. The call
/// panics if that source cannot be read.
#[verifier::external_body]
pub(crate) fn random_uuid() -> (text: String)
    ensures
        text@.len() == UUID_LENGTH,
{
    uuid::Uuid::new_v4().to_string()
}

} // verus!
