use bitos::allocator::Dummy;
use bitos::gdt::{double_fault_stack_end, DOUBLE_FAULT_IST_INDEX, DOUBLE_FAULT_STACK_SIZE};
use std::alloc::Layout;

#[test]
fn dummy_allocator_never_allocates() {
    let d = Dummy;
    assert_eq!(d.allocate(Layout::new::<u64>()), None);
    assert_eq!(d.allocate(Layout::from_size_align(4096, 4096).unwrap()), None);
}

#[test]
fn double_fault_stack() {
    assert_eq!(DOUBLE_FAULT_IST_INDEX, 0);
    assert_eq!(DOUBLE_FAULT_STACK_SIZE, 20480);
    assert_eq!(double_fault_stack_end(0x10_0000), Some(0x10_5000));
    assert_eq!(double_fault_stack_end(0x0000_7fff_ffff_f000), Some(0xffff_8000_0000_4000));
    assert_eq!(double_fault_stack_end(0xffff_ffff_ffff_f000), None);
    assert_eq!(double_fault_stack_end(0x0001_0000_0000_0000), None);
}
