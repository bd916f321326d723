//! Fresh identifiers for new rows.

use vstd::prelude::*;

verus! {

/// A fresh random identifier, from `uuid::Uuid::new_v4` and the text form
/// that `Uuid` has through `Display`. All that is claimed is the length
/// of that form, thirty-six characters; the identifier itself is random.
/// The outside function stops the program if the system cannot supply
/// random bytes.
#[verifier::external_body]
pub(crate) fn fresh_id() -> (id: String)
    ensures
        id@.len() == 36,
{
    uuid::Uuid::new_v4().to_string()
}

} // verus!
