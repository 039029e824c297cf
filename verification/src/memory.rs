//! Virtual and physical addresses, page-table entries, and the four-level
//! page-table walk that translates a virtual address into a physical one.
//!
//! Physical memory is reached through a linear mapping that starts at the
//! virtual address `physical_memory_offset`.  The walk itself is a small
//! state machine: it asks for the page-table entry it needs next, and the
//! caller, which owns the memory, reads that entry and hands it back.

use vstd::prelude::*;

use crate::boot_info::{
    lemma_usable_frame_in_region, lemma_usable_frames_distinct, lemma_usable_frames_prefix,
    lemma_usable_frames_take_step, region_in_bounds, usable_frames, usable_regions_disjoint,
    MemoryMap, MemoryRegionType,
};

verus! {

/// First address that is not a valid physical address (2^52).
pub const PHYS_ADDR_LIMIT: u64 = 0x0010_0000_0000_0000;

/// Bits of a page-table entry that hold the physical address.
pub const ENTRY_ADDR_MASK: u64 = 0x000f_ffff_ffff_f000;

/// Entry flag: the entry is present.
pub const FLAG_PRESENT: u64 = 1;

/// Entry flag: writes are allowed.
pub const FLAG_WRITABLE: u64 = 2;

/// Entry flag: the entry maps a huge page instead of a page table.
pub const FLAG_HUGE_PAGE: u64 = 0x80;

/// Physical address of the VGA text buffer, the frame used for the example mapping.
pub const EXAMPLE_FRAME_ADDR: u64 = 0xb8000;

/// Flags of the example mapping: present and writable.
pub const EXAMPLE_MAPPING_FLAGS: u64 = FLAG_PRESENT | FLAG_WRITABLE;

/// The canonical form of a virtual address: bits 48 to 63 must copy bit 47.
/// An address whose bits 48 to 63 are all zero while bit 47 is set is
/// sign-extended; any other address with data in bits 48 to 63 is refused.
pub open spec fn spec_virt_addr(addr: u64) -> Option<u64> {
    let high = addr >> 47u64;
    if high == 0 || high == 0x1ffff {
        Some(addr)
    } else if high == 1 {
        Some(addr | 0xffff_0000_0000_0000u64)
    } else {
        None
    }
}

/// Makes a virtual address canonical (the checks of `VirtAddr::try_new`).
pub fn virt_addr(addr: u64) -> (r: Option<u64>)
    ensures
        r == spec_virt_addr(addr),
{
    let high = addr >> 47u64;
    if high == 0 || high == 0x1ffff {
        Some(addr)
    } else if high == 1 {
        Some(addr | 0xffff_0000_0000_0000u64)
    } else {
        None
    }
}

/// `base + offset` as a virtual address: `None` where the sum overflows or
/// is not a valid virtual address (the cases in which adding to a
/// `VirtAddr` panics).
pub open spec fn spec_virt_addr_add(base: u64, offset: u64) -> Option<u64> {
    if base + offset > u64::MAX {
        None
    } else {
        spec_virt_addr((base + offset) as u64)
    }
}

/// Adds an offset to a virtual address.
pub fn virt_addr_add(base: u64, offset: u64) -> (r: Option<u64>)
    ensures
        r == spec_virt_addr_add(base, offset),
{
    match base.checked_add(offset) {
        Some(sum) => virt_addr(sum),
        None => None,
    }
}

/// The virtual address at which the physical address `phys` is visible,
/// given that all of physical memory is mapped from `physical_memory_offset`.
pub fn physical_to_virtual(physical_memory_offset: u64, phys: u64) -> (r: Option<u64>)
    ensures
        r == spec_virt_addr_add(physical_memory_offset, phys),
{
    virt_addr_add(physical_memory_offset, phys)
}

/// A frame address: aligned to 4 KiB and a valid physical address.
pub open spec fn is_frame(addr: u64) -> bool {
    addr % 4096 == 0 && addr < PHYS_ADDR_LIMIT
}

/// The index into the page table of the given level (0 for the level-4
/// table, 3 for the level-1 table) that the walk for `addr` uses.
pub open spec fn spec_table_index(addr: u64, level: nat) -> u16 {
    if level == 0 {
        ((addr >> 39u64) % 512) as u16
    } else if level == 1 {
        ((addr >> 30u64) % 512) as u16
    } else if level == 2 {
        ((addr >> 21u64) % 512) as u16
    } else {
        ((addr >> 12u64) % 512) as u16
    }
}

/// The offset of `addr` inside its 4 KiB page.
pub open spec fn spec_page_offset(addr: u64) -> u64 {
    addr % 4096
}

/// Index into the level-4 page table.
pub fn p4_index(addr: u64) -> (r: u16)
    ensures
        r == spec_table_index(addr, 0),
{
    ((addr >> 39u64) % 512) as u16
}

/// Index into the level-3 page table.
pub fn p3_index(addr: u64) -> (r: u16)
    ensures
        r == spec_table_index(addr, 1),
{
    ((addr >> 30u64) % 512) as u16
}

/// Index into the level-2 page table.
pub fn p2_index(addr: u64) -> (r: u16)
    ensures
        r == spec_table_index(addr, 2),
{
    ((addr >> 21u64) % 512) as u16
}

/// Index into the level-1 page table.
pub fn p1_index(addr: u64) -> (r: u16)
    ensures
        r == spec_table_index(addr, 3),
{
    ((addr >> 12u64) % 512) as u16
}

/// Offset of `addr` inside its page.
pub fn page_offset(addr: u64) -> (r: u16)
    ensures
        r == spec_page_offset(addr),
{
    (addr % 4096) as u16
}

/// Why a page-table entry does not lead to a 4 KiB frame.
#[derive(Debug, Clone, Copy, PartialEq, Eq, Structural)]
pub enum FrameError {
    /// The entry's present flag is clear.
    FrameNotPresent,
    /// The entry maps a huge page.
    HugeFrame,
}

/// The frame a page-table entry points to.
pub open spec fn spec_entry_frame(entry: u64) -> Result<u64, FrameError> {
    if entry & FLAG_PRESENT == 0 {
        Err(FrameError::FrameNotPresent)
    } else if entry & FLAG_HUGE_PAGE != 0 {
        Err(FrameError::HugeFrame)
    } else {
        Ok(entry & ENTRY_ADDR_MASK)
    }
}

/// Decodes a raw page-table entry into the frame it points to.
pub fn entry_frame(entry: u64) -> (r: Result<u64, FrameError>)
    ensures
        r == spec_entry_frame(entry),
        r matches Ok(f) ==> is_frame(f),
        r == Err::<u64, FrameError>(FrameError::FrameNotPresent) <==> entry & 1 == 0,
        r == Err::<u64, FrameError>(FrameError::HugeFrame) <==> (entry & 1 == 1 && entry & 0x80 == 0x80),
        r is Ok ==> r == Ok::<u64, FrameError>(entry & 0x000f_ffff_ffff_f000u64),
{
    proof {
        lemma_entry_frame_by_flags(entry);
    }
    if entry & FLAG_PRESENT == 0 {
        Err(FrameError::FrameNotPresent)
    } else if entry & FLAG_HUGE_PAGE != 0 {
        Err(FrameError::HugeFrame)
    } else {
        proof {
            lemma_entry_addr_is_frame(entry);
        }
        Ok(entry & ENTRY_ADDR_MASK)
    }
}

/// The address bits of an entry form a frame address.
pub proof fn lemma_entry_addr_is_frame(entry: u64)
    ensures
        is_frame(entry & ENTRY_ADDR_MASK),
{
    assert((entry & 0x000f_ffff_ffff_f000u64) % 4096 == 0) by (bit_vector);
    assert((entry & 0x000f_ffff_ffff_f000u64) < 0x0010_0000_0000_0000u64) by (bit_vector);
}

/// How an entry decodes, flag by flag: it is not present exactly when bit 0
/// (present) is clear; it is a huge page exactly when bit 0 and bit 7
/// (huge page) are set; otherwise it points to the frame in bits 12 to 51.
pub proof fn lemma_entry_frame_by_flags(entry: u64)
    ensures
        spec_entry_frame(entry) == Err::<u64, FrameError>(FrameError::FrameNotPresent)
            <==> entry & 1 == 0,
        spec_entry_frame(entry) == Err::<u64, FrameError>(FrameError::HugeFrame)
            <==> (entry & 1 == 1 && entry & 0x80 == 0x80),
        spec_entry_frame(entry) is Ok ==> spec_entry_frame(entry) == Ok::<u64, FrameError>(
            entry & 0x000f_ffff_ffff_f000u64,
        ),
{
    assert(entry & 1 != 1 ==> entry & 1 == 0) by (bit_vector);
    assert(entry & 0x80 != 0 ==> entry & 0x80 == 0x80) by (bit_vector);
}

/// The flags other than present and huge page (writable, user, global,
/// accessed, dirty, no-execute, the available bits, ...) never change how
/// an entry decodes: setting or clearing any of them gives the same answer.
pub proof fn lemma_entry_frame_ignores_other_flags(entry: u64, flags: u64)
    requires
        flags & 0x81 == 0,
        flags & 0x000f_ffff_ffff_f000u64 == 0,
    ensures
        spec_entry_frame(entry | flags) == spec_entry_frame(entry & !flags),
{
    assert((entry | flags) & 1 == (entry & !flags) & 1) by (bit_vector)
        requires
            flags & 0x81 == 0,
    ;
    assert((entry | flags) & 0x80 == (entry & !flags) & 0x80) by (bit_vector)
        requires
            flags & 0x81 == 0,
    ;
    assert((entry | flags) & 0x000f_ffff_ffff_f000u64 == (entry & !flags) & 0x000f_ffff_ffff_f000u64)
        by (bit_vector)
        requires
            flags & 0x000f_ffff_ffff_f000u64 == 0,
    ;
}

/// What a translation ends in.
#[derive(Debug, Clone, Copy, PartialEq, Eq, Structural)]
pub enum Translation {
    /// The virtual address is mapped to this physical address.
    Mapped(u64),
    /// An entry on the way is not present.
    NotMapped,
    /// An entry on the way maps a huge page, which the walk does not follow.
    HugePage,
}

/// The translation of `addr` by the page tables held in physical memory,
/// starting at the table in `frame` of the given level.  `read(t, i)` is
/// the entry at index `i` of the page table whose frame is `t`.
pub open spec fn spec_translate(
    read: spec_fn(u64, u16) -> u64,
    addr: u64,
    frame: u64,
    level: nat,
) -> Translation
    decreases 4 - level,
{
    if level >= 4 {
        Translation::Mapped((frame + spec_page_offset(addr)) as u64)
    } else {
        match spec_entry_frame(read(frame, spec_table_index(addr, level))) {
            Ok(next) => spec_translate(read, addr, next, level + 1),
            Err(FrameError::FrameNotPresent) => Translation::NotMapped,
            Err(FrameError::HugeFrame) => Translation::HugePage,
        }
    }
}

/// A canonical virtual address stays as it is when made canonical again.
pub proof fn lemma_virt_addr_idempotent(addr: u64)
    ensures
        spec_virt_addr(addr) matches Some(c) ==> spec_virt_addr(c) == Some(c),
{
    assert((addr >> 47u64) == 1u64 ==> ((addr | 0xffff_0000_0000_0000u64) >> 47u64) == 0x1ffffu64)
        by (bit_vector);
}

/// A translated address lies in a valid frame at the same offset inside
/// its page as the virtual address it came from.
pub proof fn lemma_translation_keeps_page_offset(
    read: spec_fn(u64, u16) -> u64,
    addr: u64,
    frame: u64,
    level: nat,
)
    requires
        is_frame(frame),
        level <= 4,
    ensures
        spec_translate(read, addr, frame, level) matches Translation::Mapped(p) ==> {
            &&& p % 4096 == addr % 4096
            &&& p < PHYS_ADDR_LIMIT
            &&& is_frame((p - p % 4096) as u64)
        },
    decreases 4 - level,
{
    if level < 4 {
        let entry = read(frame, spec_table_index(addr, level));
        lemma_entry_addr_is_frame(entry);
        if let Ok(next) = spec_entry_frame(entry) {
            lemma_translation_keeps_page_offset(read, addr, next, level + 1);
        }
    } else {
        let off = addr % 4096;
        assert((frame + off) % 4096 == off && (frame + off) - off == frame) by (nonlinear_arith)
            requires
                frame % 4096 == 0,
                0 <= off < 4096,
        {
            vstd::arithmetic::div_mod::lemma_mod_multiples_vanish(
                (frame / 4096) as int,
                off as int,
                4096,
            );
        }
    }
}

/// The page-table indices of an address depend only on its page number.
pub proof fn lemma_same_page_same_indices(a1: u64, a2: u64, level: nat)
    requires
        a1 >> 12u64 == a2 >> 12u64,
    ensures
        spec_table_index(a1, level) == spec_table_index(a2, level),
{
    assert(a1 >> 12u64 == a2 >> 12u64 ==> (a1 >> 39u64) % 512 == (a2 >> 39u64) % 512) by (bit_vector);
    assert(a1 >> 12u64 == a2 >> 12u64 ==> (a1 >> 30u64) % 512 == (a2 >> 30u64) % 512) by (bit_vector);
    assert(a1 >> 12u64 == a2 >> 12u64 ==> (a1 >> 21u64) % 512 == (a2 >> 21u64) % 512) by (bit_vector);
}

/// Two virtual addresses in the same 4 KiB page translate alike: both fail
/// in the same way, or both are mapped into the same frame.
pub proof fn lemma_same_page_same_frame(
    read: spec_fn(u64, u16) -> u64,
    a1: u64,
    a2: u64,
    frame: u64,
    level: nat,
)
    requires
        a1 >> 12u64 == a2 >> 12u64,
        is_frame(frame),
    ensures
        spec_translate(read, a1, frame, level) is NotMapped
            <==> spec_translate(read, a2, frame, level) is NotMapped,
        spec_translate(read, a1, frame, level) is HugePage
            <==> spec_translate(read, a2, frame, level) is HugePage,
        spec_translate(read, a1, frame, level) is Mapped
            <==> spec_translate(read, a2, frame, level) is Mapped,
        spec_translate(read, a1, frame, level) matches Translation::Mapped(p1)
            ==> spec_translate(read, a2, frame, level) matches Translation::Mapped(p2)
            && p1 - spec_page_offset(a1) == p2 - spec_page_offset(a2),
    decreases 4 - level,
{
    if level < 4 {
        lemma_same_page_same_indices(a1, a2, level);
        let entry = read(frame, spec_table_index(a1, level));
        lemma_entry_addr_is_frame(entry);
        if let Ok(next) = spec_entry_frame(entry) {
            lemma_same_page_same_frame(read, a1, a2, next, level + 1);
        }
    }
}

/// What the walk needs next.
#[derive(Debug, Clone, Copy, PartialEq, Eq, Structural)]
pub enum WalkStep {
    /// The entry at `index` of the page table in frame `table_frame` must be read.
    ReadEntry { table_frame: u64, index: u16 },
    /// The walk is done: the virtual address maps to this physical address.
    Translated(u64),
}

/// A page-table walk in progress for one virtual address.
pub struct PageWalk {
    addr: u64,
    level: usize,
    frame: u64,
}

impl PageWalk {
    #[verifier::type_invariant]
    spec fn inv(self) -> bool {
        &&& self.level <= 4
        &&& is_frame(self.frame)
    }

    /// The virtual address being translated.
    pub closed spec fn virtual_address(self) -> u64 {
        self.addr
    }

    /// How many page tables the walk has gone through (0 to 4).
    pub closed spec fn level(self) -> nat {
        self.level as nat
    }

    /// The frame of the next page table, or of the page once the walk is done.
    pub closed spec fn table_frame(self) -> u64 {
        self.frame
    }

    /// The translation the walk will reach when its entries come from `read`.
    pub open spec fn outcome(self, read: spec_fn(u64, u16) -> u64) -> Translation {
        spec_translate(read, self.virtual_address(), self.table_frame(), self.level())
    }

    /// Starts a walk for `addr` at the level-4 table in `level_4_table_frame`
    /// (the frame that the CR3 register names).
    pub fn new(addr: u64, level_4_table_frame: u64) -> (r: PageWalk)
        requires
            is_frame(level_4_table_frame),
        ensures
            r.virtual_address() == addr,
            r.level() == 0,
            r.table_frame() == level_4_table_frame,
    {
        PageWalk { addr, level: 0, frame: level_4_table_frame }
    }

    /// Whether the walk has gone through all four tables.
    pub fn is_done(&self) -> (r: bool)
        ensures
            r == (self.level() >= 4),
    {
        self.level >= 4
    }

    /// The entry the walk reads next, or the physical address it arrived at.
    pub fn request(&self) -> (r: WalkStep)
        ensures
            self.level() < 4 ==> r == (WalkStep::ReadEntry {
                table_frame: self.table_frame(),
                index: spec_table_index(self.virtual_address(), self.level()),
            }),
            self.level() >= 4 ==> r == WalkStep::Translated(
                (self.table_frame() + spec_page_offset(self.virtual_address())) as u64,
            ),
            forall|read: spec_fn(u64, u16) -> u64|
                #![trigger self.outcome(read)]
                r matches WalkStep::Translated(p) ==> self.outcome(read) == Translation::Mapped(p),
    {
        proof {
            use_type_invariant(self);
        }
        if self.level >= 4 {
            assert(self.frame + self.addr % 4096 < PHYS_ADDR_LIMIT);
            WalkStep::Translated(self.frame + (self.addr % 4096))
        } else {
            let index = if self.level == 0 {
                p4_index(self.addr)
            } else if self.level == 1 {
                p3_index(self.addr)
            } else if self.level == 2 {
                p2_index(self.addr)
            } else {
                p1_index(self.addr)
            };
            WalkStep::ReadEntry { table_frame: self.frame, index }
        }
    }

    /// Consumes the entry that `request` asked for.  A present entry that
    /// points to a page table moves the walk one level down; an entry that
    /// is not present ends the walk: the address is not mapped.  An entry
    /// mapping a huge page cannot be followed, which stops the kernel; the
    /// caller checks for it (with `entry_frame`) before advancing.
    pub fn advance(&mut self, entry: u64) -> (r: Result<(), FrameError>)
        requires
            old(self).level() < 4,
            !(spec_entry_frame(entry) matches Err(FrameError::HugeFrame)),
        ensures
            final(self).virtual_address() == old(self).virtual_address(),
            match spec_entry_frame(entry) {
                Ok(next) => {
                    &&& r == Ok::<(), FrameError>(())
                    &&& final(self).level() == old(self).level() + 1
                    &&& final(self).table_frame() == next
                },
                Err(_) => {
                    &&& r == Err::<(), FrameError>(FrameError::FrameNotPresent)
                    &&& final(self).level() == old(self).level()
                    &&& final(self).table_frame() == old(self).table_frame()
                },
            },
            forall|read: spec_fn(u64, u16) -> u64|
                #![trigger old(self).outcome(read)]
                read(old(self).table_frame(), spec_table_index(old(self).virtual_address(), old(self).level())) == entry
                    ==> old(self).outcome(read) == match r {
                        Ok(_) => final(self).outcome(read),
                        Err(FrameError::FrameNotPresent) => Translation::NotMapped,
                        Err(FrameError::HugeFrame) => Translation::HugePage,
                    },
    {
        proof {
            use_type_invariant(&*self);
        }
        match entry_frame(entry) {
            Ok(next) => {
                self.level = self.level + 1;
                self.frame = next;
                Ok(())
            },
            Err(e) => Err(e),
        }
    }
}

/// A frame allocator that hands out the usable frames of the boot memory
/// map one after the other, never going back.
pub struct BootInfoFrameAllocator {
    memory_map: MemoryMap,
    next: usize,
}

impl BootInfoFrameAllocator {
    #[verifier::type_invariant]
    spec fn inv(self) -> bool {
        self.memory_map.in_bounds()
    }

    /// The regions of the memory map the frames come from.
    pub closed spec fn regions(self) -> Seq<crate::boot_info::MemoryRegion> {
        self.memory_map@
    }

    /// How many frames have been asked for so far.
    pub closed spec fn next(self) -> nat {
        self.next as nat
    }

    /// The frames this allocator can hand out, in the order it hands them out.
    pub open spec fn frames(self) -> Seq<u64> {
        usable_frames(self.regions())
    }

    /// Creates an allocator over the usable frames of `memory_map`.  The
    /// map must describe real memory: every region lies inside the
    /// physical address space.
    pub fn init(memory_map: MemoryMap) -> (r: BootInfoFrameAllocator)
        requires
            memory_map.in_bounds(),
        ensures
            r.regions() == memory_map@,
            r.next() == 0,
    {
        BootInfoFrameAllocator { memory_map, next: 0 }
    }

    /// How many frames have been asked for so far.
    pub fn allocated(&self) -> (r: usize)
        ensures
            r == self.next(),
    {
        self.next
    }

    /// The `n`-th usable frame of the memory map, counting from zero, if
    /// there are that many.
    pub fn nth_usable_frame(&self, n: usize) -> (r: Option<u64>)
        ensures
            r == (if n < self.frames().len() {
                Some(self.frames()[n as int])
            } else {
                None::<u64>
            }),
            r matches Some(f) ==> is_frame(f),
    {
        proof {
            use_type_invariant(self);
        }
        let ghost regions = self.memory_map@;
        let mut i: usize = 0;
        let mut remaining: u64 = n as u64;
        let len = self.memory_map.len();
        while i < len
            invariant
                len == regions.len(),
                regions == self.memory_map@,
                i <= len,
                usable_frames(regions.take(i as int)).len() + remaining == n,
                forall|j: int| 0 <= j < regions.len() ==> #[trigger] region_in_bounds(regions[j]),
            decreases len - i,
        {
            let region = self.memory_map.region(i);
            proof {
                lemma_usable_frames_take_step(regions, i as int);
                assert(region_in_bounds(regions[i as int]));
            }
            let start = region.range.start_frame_number;
            let end = region.range.end_frame_number;
            if region.region_type == MemoryRegionType::Usable && start < end {
                let count = end - start;
                if remaining < count {
                    proof {
                        lemma_usable_frames_prefix(regions, i as int + 1);
                        let k = n as int;
                        assert(usable_frames(regions)[k] == usable_frames(regions.take(i as int + 1))[k]);
                        lemma_usable_frame_in_region(regions, k);
                    }
                    return Some((start + remaining) * 4096);
                }
                remaining = remaining - count;
            }
            i = i + 1;
        }
        proof {
            assert(regions.take(len as int) =~= regions);
        }
        None
    }

    /// Hands out the next usable frame, or `None` once the usable frames
    /// are used up.  Either way the count of requests goes up by one.
    pub fn allocate_frame(&mut self) -> (r: Option<u64>)
        requires
            old(self).next() < usize::MAX,
        ensures
            final(self).regions() == old(self).regions(),
            final(self).next() == old(self).next() + 1,
            r == (if old(self).next() < old(self).frames().len() {
                Some(old(self).frames()[old(self).next() as int])
            } else {
                None::<u64>
            }),
            r matches Some(f) ==> is_frame(f),
    {
        proof {
            use_type_invariant(&*self);
        }
        let frame = self.nth_usable_frame(self.next);
        self.next = self.next + 1;
        frame
    }
}

/// Every frame the allocator hands out lies in a usable region of its map.
pub proof fn lemma_allocated_frame_is_usable(alloc: BootInfoFrameAllocator, k: int)
    requires
        0 <= k < alloc.frames().len(),
        forall|j: int| 0 <= j < alloc.regions().len() ==> #[trigger] region_in_bounds(alloc.regions()[j]),
    ensures
        exists|j: int|
            #![trigger alloc.regions()[j]]
            0 <= j < alloc.regions().len() && alloc.regions()[j].region_type is Usable
                && alloc.regions()[j].range.start_frame_number * 4096 <= alloc.frames()[k]
                && alloc.frames()[k] < alloc.regions()[j].range.end_frame_number * 4096,
{
    lemma_usable_frame_in_region(alloc.regions(), k);
}

/// Where the usable regions of the map do not overlap, the allocator never
/// hands out the same frame twice: the `i`-th and `j`-th requests differ.
pub proof fn lemma_allocated_frames_distinct(alloc: BootInfoFrameAllocator, i: int, j: int)
    requires
        usable_regions_disjoint(alloc.regions()),
        forall|k: int| 0 <= k < alloc.regions().len() ==> #[trigger] region_in_bounds(alloc.regions()[k]),
        0 <= i < alloc.frames().len(),
        0 <= j < alloc.frames().len(),
        i != j,
    ensures
        alloc.frames()[i] != alloc.frames()[j],
{
    lemma_usable_frames_distinct(alloc.regions());
}

/// Two requests made on the same allocator (or on later states of it,
/// which keep the same map) hand out different frames where the usable
/// regions of the map do not overlap: the earlier request got the frame at
/// its count, the later one the frame at its larger count.
pub proof fn lemma_requests_get_distinct_frames(
    earlier: BootInfoFrameAllocator,
    later: BootInfoFrameAllocator,
)
    requires
        later.regions() == earlier.regions(),
        earlier.next() < later.next(),
        later.next() < later.frames().len(),
        usable_regions_disjoint(earlier.regions()),
        forall|k: int| 0 <= k < earlier.regions().len() ==> #[trigger] region_in_bounds(earlier.regions()[k]),
    ensures
        earlier.frames()[earlier.next() as int] != later.frames()[later.next() as int],
{
    lemma_usable_frames_distinct(earlier.regions());
}

/// Once a request got `None`, every later request gets `None` too: the map
/// never changes and the count of requests only grows, so it stays at or
/// past the number of usable frames.
pub proof fn lemma_none_stays_none(earlier: BootInfoFrameAllocator, later: BootInfoFrameAllocator)
    requires
        later.regions() == earlier.regions(),
        earlier.next() <= later.next(),
        earlier.next() >= earlier.frames().len(),
    ensures
        later.next() >= later.frames().len(),
{
}

} // verus!
