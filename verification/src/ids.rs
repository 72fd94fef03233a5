//! Fresh keys for scopes and symbol tables.

use vstd::prelude::*;

verus! {

/// Calls `Uuid::new_v4` and formats the result with `Uuid::simple`. Trusted, and nothing
/// is claimed of the key: it is random.
#[verifier::external_body]
pub(crate) fn allocate_element_key() -> (key: String) {
    uuid::Uuid::new_v4().simple().to_string()
}

} // verus!
