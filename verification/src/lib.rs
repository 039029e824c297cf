//! The verified core of a small x86_64 hobby kernel: interrupt numbering,
//! keyboard scancode decoding, page-table walking, boot-time frame
//! allocation and cooperative task executors.

pub mod allocator;
pub mod boot_info;
pub mod gdt;
pub mod interrupts;
pub mod memory;
pub mod task;
