//! The task state segment's interrupt stack used for double faults.

use vstd::prelude::*;

use crate::memory::{spec_virt_addr, spec_virt_addr_add, virt_addr, virt_addr_add};

verus! {

/// Index of the interrupt stack table entry the CPU switches to on a double fault.
pub const DOUBLE_FAULT_IST_INDEX: u16 = 0;

/// Size in bytes of the stack reserved for the double-fault handler.
pub const DOUBLE_FAULT_STACK_SIZE: u64 = 4096 * 5;

/// The address just past the double-fault stack that starts at
/// `stack_start`, which is what the stack table entry holds (stacks grow
/// downwards).  `None` where the start is not a valid virtual address or
/// the end overflows the address space.
pub open spec fn spec_double_fault_stack_end(stack_start: u64) -> Option<u64> {
    match spec_virt_addr(stack_start) {
        Some(start) => spec_virt_addr_add(start, DOUBLE_FAULT_STACK_SIZE),
        None => None,
    }
}

/// Computes the stack table entry for the double-fault stack at `stack_start`.
pub fn double_fault_stack_end(stack_start: u64) -> (r: Option<u64>)
    ensures
        r == spec_double_fault_stack_end(stack_start),
{
    match virt_addr(stack_start) {
        Some(start) => virt_addr_add(start, DOUBLE_FAULT_STACK_SIZE),
        None => None,
    }
}

} // verus!
