//! The kernel heap allocator: a placeholder that owns no memory.

use vstd::prelude::*;

verus! {

#[verifier::external_type_specification]
#[verifier::external_body]
pub struct ExLayout(core::alloc::Layout);

/// An allocator without any memory: every request fails.
pub struct Dummy;

impl Dummy {
    /// The start of the block handed out for a request with the given
    /// layout, or `None` (a null pointer) where there is none.  This
    /// allocator never hands out memory, whatever the layout.
    pub fn allocate(&self, _layout: core::alloc::Layout) -> (r: Option<usize>)
        ensures
            r is None,
    {
        None
    }
}

} // verus!
