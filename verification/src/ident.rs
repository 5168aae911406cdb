//! Fresh identifiers for records the library creates.

use vstd::prelude::*;

verus! {

/// Relies on uuid's `Uuid::new_v4` and its `Display` form: a fresh random
/// version-4 identifier rendered hyphenated, which is always 36
/// characters. The value is random, so only its shape can be promised.
#[verifier::external_body]
pub(crate) fn fresh_id() -> (r: String)
    ensures
        r@.len() == 36,
{
    uuid::Uuid::new_v4().to_string()
}

} // verus!
