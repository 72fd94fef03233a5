//! Traits shared by the scope types.

use vstd::prelude::*;

verus! {

/// Something that was created under a parent scope.
pub trait ScopeParentId {
    /// The identity of that parent, if there is one.
    fn parent_id(&self) -> Option<&str>;
}

} // verus!
