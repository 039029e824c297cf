use bitos::boot_info::{FrameRange, MemoryMap, MemoryRegion, MemoryRegionType};
use bitos::memory::BootInfoFrameAllocator;

use bootloader::bootinfo as bl;
use x86_64::structures::paging::PhysFrame;
use x86_64::PhysAddr;

fn region(start: u64, end: u64, region_type: MemoryRegionType) -> MemoryRegion {
    MemoryRegion {
        range: FrameRange { start_frame_number: start, end_frame_number: end },
        region_type,
    }
}

fn map(regions: &[MemoryRegion]) -> MemoryMap {
    let mut m = MemoryMap::new();
    for r in regions {
        m.push_region(*r);
    }
    m
}

#[test]
fn allocates_usable_frames_in_order() {
    let m = map(&[
        region(0, 1, MemoryRegionType::FrameZero),
        region(1, 3, MemoryRegionType::Usable),
        region(3, 5, MemoryRegionType::Kernel),
        region(5, 6, MemoryRegionType::Usable),
    ]);
    assert!(m.check_in_bounds());
    let mut a = BootInfoFrameAllocator::init(m);
    assert_eq!(a.allocate_frame(), Some(0x1000));
    assert_eq!(a.allocate_frame(), Some(0x2000));
    assert_eq!(a.allocate_frame(), Some(0x5000));
    assert_eq!(a.allocate_frame(), None);
    assert_eq!(a.allocate_frame(), None);
    assert_eq!(a.allocated(), 5);
}

#[test]
fn empty_and_reversed_regions_give_no_frames() {
    let m = map(&[
        region(4, 4, MemoryRegionType::Usable),
        region(9, 7, MemoryRegionType::Usable),
        region(10, 11, MemoryRegionType::Usable),
    ]);
    let a = BootInfoFrameAllocator::init(m);
    assert_eq!(a.nth_usable_frame(0), Some(0xa000));
    assert_eq!(a.nth_usable_frame(1), None);
}

#[test]
fn no_usable_region() {
    let m = map(&[region(0, 100, MemoryRegionType::Reserved)]);
    let mut a = BootInfoFrameAllocator::init(m);
    assert_eq!(a.allocate_frame(), None);
}

#[test]
fn bounds_check() {
    let ok = map(&[region(0, 0x100_0000_0000, MemoryRegionType::Usable)]);
    assert!(ok.check_in_bounds());
    let bad = map(&[region(0, 0x100_0000_0001, MemoryRegionType::Usable)]);
    assert!(!bad.check_in_bounds());
    assert_eq!(bad.len(), 1);
    assert_eq!(bad.region(0).range.end_addr(), 0x100_0000_0001 * 4096);
}

#[test]
fn frame_range_addresses() {
    let r = FrameRange { start_frame_number: 2, end_frame_number: 5 };
    assert_eq!(r.start_addr(), 0x2000);
    assert_eq!(r.end_addr(), 0x5000);
    assert!(!r.is_empty());
    assert!(FrameRange { start_frame_number: 3, end_frame_number: 3 }.is_empty());
}

fn to_library_type(t: bl::MemoryRegionType) -> MemoryRegionType {
    match t {
        bl::MemoryRegionType::Usable => MemoryRegionType::Usable,
        bl::MemoryRegionType::InUse => MemoryRegionType::InUse,
        bl::MemoryRegionType::Reserved => MemoryRegionType::Reserved,
        bl::MemoryRegionType::AcpiReclaimable => MemoryRegionType::AcpiReclaimable,
        bl::MemoryRegionType::AcpiNvs => MemoryRegionType::AcpiNvs,
        bl::MemoryRegionType::BadMemory => MemoryRegionType::BadMemory,
        bl::MemoryRegionType::Kernel => MemoryRegionType::Kernel,
        bl::MemoryRegionType::KernelStack => MemoryRegionType::KernelStack,
        bl::MemoryRegionType::PageTable => MemoryRegionType::PageTable,
        bl::MemoryRegionType::Bootloader => MemoryRegionType::Bootloader,
        bl::MemoryRegionType::FrameZero => MemoryRegionType::FrameZero,
        bl::MemoryRegionType::Empty => MemoryRegionType::Empty,
        bl::MemoryRegionType::BootInfo => MemoryRegionType::BootInfo,
        bl::MemoryRegionType::Package => MemoryRegionType::Package,
        _ => MemoryRegionType::NonExhaustive,
    }
}

#[test]
fn agrees_with_iterator_over_bootloader_map() {
    let mut bm = bl::MemoryMap::new();
    let spec = [
        (0u64, 1u64, bl::MemoryRegionType::FrameZero),
        (1, 0x9f, bl::MemoryRegionType::Usable),
        (0x9f, 0x100, bl::MemoryRegionType::Reserved),
        (0x100, 0x400, bl::MemoryRegionType::Kernel),
        (0x400, 0x480, bl::MemoryRegionType::Usable),
        (0x480, 0x490, bl::MemoryRegionType::PageTable),
        (0x490, 0x7fe0, bl::MemoryRegionType::Usable),
    ];
    for (s, e, t) in spec.iter() {
        bm.add_region(bl::MemoryRegion {
            range: bl::FrameRange { start_frame_number: *s, end_frame_number: *e },
            region_type: *t,
        });
    }
    let mut m = MemoryMap::new();
    for r in bm.iter() {
        m.push_region(region(
            r.range.start_frame_number,
            r.range.end_frame_number,
            to_library_type(r.region_type),
        ));
    }
    let expected: Vec<u64> = bm
        .iter()
        .filter(|r| r.region_type == bl::MemoryRegionType::Usable)
        .map(|r| r.range.start_addr()..r.range.end_addr())
        .flat_map(|r| r.step_by(4096))
        .map(|addr| PhysFrame::<x86_64::structures::paging::Size4KiB>::containing_address(PhysAddr::new(addr)))
        .map(|f| f.start_address().as_u64())
        .collect();
    let mut a = BootInfoFrameAllocator::init(m);
    for probe in [0usize, 1, 0x9d, 0x9e, 0x11d, 0x11e, expected.len() - 1].iter() {
        assert_eq!(a.nth_usable_frame(*probe), Some(expected[*probe]));
    }
    assert_eq!(a.nth_usable_frame(expected.len()), None);
    for f in expected.iter().take(300) {
        assert_eq!(a.allocate_frame(), Some(*f));
    }
}

#[test]
fn frames_are_handed_out_once() {
    let m = map(&[
        region(2, 40, MemoryRegionType::Usable),
        region(40, 50, MemoryRegionType::Reserved),
        region(50, 90, MemoryRegionType::Usable),
    ]);
    let mut a = BootInfoFrameAllocator::init(m);
    let mut seen = std::collections::HashSet::new();
    while let Some(f) = a.allocate_frame() {
        assert_eq!(f % 4096, 0);
        assert!((2 * 4096..40 * 4096).contains(&f) || (50 * 4096..90 * 4096).contains(&f));
        assert!(seen.insert(f));
    }
    assert_eq!(seen.len(), 78);
}
