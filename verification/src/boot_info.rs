//! The memory map that the bootloader hands to the kernel: a list of
//! physical memory regions, each a range of 4 KiB frames with a type.

use vstd::prelude::*;

verus! {

/// Frame numbers at or above this bound lie beyond the physical address space.
pub const FRAME_NUMBER_LIMIT: u64 = 0x100_0000_0000;

/// What a region of physical memory is used for.
#[derive(Debug, Clone, Copy, PartialEq, Eq, Structural)]
pub enum MemoryRegionType {
    /// Free memory the kernel may use.
    Usable,
    /// Memory that is in use.
    InUse,
    /// Memory reserved by the hardware.
    Reserved,
    /// ACPI reclaimable memory.
    AcpiReclaimable,
    /// ACPI NVS memory.
    AcpiNvs,
    /// Defective memory.
    BadMemory,
    /// Memory holding the kernel.
    Kernel,
    /// Memory holding the kernel stack.
    KernelStack,
    /// Memory holding page tables.
    PageTable,
    /// Memory used by the bootloader.
    Bootloader,
    /// The frame at address zero.
    FrameZero,
    /// An unused entry of the map.
    Empty,
    /// Memory holding the boot information.
    BootInfo,
    /// Memory holding a package passed by the bootloader.
    Package,
    /// A type this map does not know.
    NonExhaustive,
}

/// A range of frames, from `start_frame_number` up to but not including
/// `end_frame_number`.
#[derive(Debug, Clone, Copy, PartialEq, Eq, Structural)]
pub struct FrameRange {
    pub start_frame_number: u64,
    pub end_frame_number: u64,
}

impl FrameRange {
    /// Whether the range holds no frame number.
    pub fn is_empty(&self) -> (r: bool)
        ensures
            r == (self.start_frame_number == self.end_frame_number),
    {
        self.start_frame_number == self.end_frame_number
    }

    /// Physical address of the first frame.
    pub fn start_addr(&self) -> (r: u64)
        requires
            self.start_frame_number * 4096 <= u64::MAX,
        ensures
            r == self.start_frame_number * 4096,
    {
        self.start_frame_number * 4096
    }

    /// Physical address just past the last frame.
    pub fn end_addr(&self) -> (r: u64)
        requires
            self.end_frame_number * 4096 <= u64::MAX,
        ensures
            r == self.end_frame_number * 4096,
    {
        self.end_frame_number * 4096
    }
}

/// One region of the memory map.
#[derive(Debug, Clone, Copy, PartialEq, Eq, Structural)]
pub struct MemoryRegion {
    pub range: FrameRange,
    pub region_type: MemoryRegionType,
}

/// A region lies inside the physical address space.
pub open spec fn region_in_bounds(r: MemoryRegion) -> bool {
    &&& r.range.start_frame_number <= FRAME_NUMBER_LIMIT
    &&& r.range.end_frame_number <= FRAME_NUMBER_LIMIT
}

/// The start addresses of the frames a region offers for allocation: the
/// frames of a usable region, in increasing order; none for other regions.
pub open spec fn region_frames(r: MemoryRegion) -> Seq<u64> {
    if r.region_type is Usable && r.range.start_frame_number < r.range.end_frame_number {
        Seq::new(
            (r.range.end_frame_number - r.range.start_frame_number) as nat,
            |i: int| ((r.range.start_frame_number + i) * 4096) as u64,
        )
    } else {
        Seq::empty()
    }
}

/// The usable frames of a list of regions, region after region.
pub open spec fn usable_frames(regions: Seq<MemoryRegion>) -> Seq<u64>
    decreases regions.len(),
{
    if regions.len() == 0 {
        Seq::empty()
    } else {
        usable_frames(regions.drop_last()) + region_frames(regions.last())
    }
}

/// The usable regions that hold frames do not overlap.
pub open spec fn usable_regions_disjoint(regions: Seq<MemoryRegion>) -> bool {
    forall|i: int, j: int|
        #![trigger regions[i], regions[j]]
        0 <= i < j < regions.len() && region_frames(regions[i]).len() > 0
            && region_frames(regions[j]).len() > 0 ==> {
            ||| regions[i].range.end_frame_number <= regions[j].range.start_frame_number
            ||| regions[j].range.end_frame_number <= regions[i].range.start_frame_number
        }
}

/// The physical memory map.
pub struct MemoryMap {
    regions: Vec<MemoryRegion>,
}

impl View for MemoryMap {
    type V = Seq<MemoryRegion>;

    closed spec fn view(&self) -> Seq<MemoryRegion> {
        self.regions@
    }
}

impl MemoryMap {
    /// An empty map.
    pub fn new() -> (r: MemoryMap)
        ensures
            r@ == Seq::<MemoryRegion>::empty(),
    {
        MemoryMap { regions: Vec::new() }
    }

    /// Appends a region at the end of the map.
    pub fn push_region(&mut self, region: MemoryRegion)
        ensures
            final(self)@ == old(self)@.push(region),
    {
        self.regions.push(region);
    }

    /// The number of regions.
    pub fn len(&self) -> (r: usize)
        ensures
            r == self@.len(),
    {
        self.regions.len()
    }

    /// The region at position `i`.
    pub fn region(&self, i: usize) -> (r: MemoryRegion)
        requires
            i < self@.len(),
        ensures
            r == self@[i as int],
    {
        self.regions[i]
    }

    /// Every region lies inside the physical address space.
    pub open spec fn in_bounds(&self) -> bool {
        forall|i: int| 0 <= i < self@.len() ==> #[trigger] region_in_bounds(self@[i])
    }

    /// Checks that every region lies inside the physical address space.
    pub fn check_in_bounds(&self) -> (r: bool)
        ensures
            r == self.in_bounds(),
    {
        let mut i: usize = 0;
        while i < self.regions.len()
            invariant
                i <= self@.len(),
                self@ == self.regions@,
                forall|j: int| 0 <= j < i ==> #[trigger] region_in_bounds(self@[j]),
            decreases self@.len() - i,
        {
            let r = self.regions[i];
            if r.range.start_frame_number > FRAME_NUMBER_LIMIT
                || r.range.end_frame_number > FRAME_NUMBER_LIMIT {
                assert(!region_in_bounds(self@[i as int]));
                return false;
            }
            i += 1;
        }
        true
    }
}

/// Going one region further in a prefix appends that region's frames.
pub proof fn lemma_usable_frames_take_step(regions: Seq<MemoryRegion>, i: int)
    requires
        0 <= i < regions.len(),
    ensures
        usable_frames(regions.take(i + 1)) == usable_frames(regions.take(i)) + region_frames(regions[i]),
{
    assert(regions.take(i + 1).drop_last() =~= regions.take(i));
}

/// The frames of a prefix of the regions come first among all frames.
pub proof fn lemma_usable_frames_prefix(regions: Seq<MemoryRegion>, i: int)
    requires
        0 <= i <= regions.len(),
    ensures
        usable_frames(regions.take(i)).len() <= usable_frames(regions).len(),
        forall|k: int|
            0 <= k < usable_frames(regions.take(i)).len() ==> #[trigger] usable_frames(regions)[k]
                == usable_frames(regions.take(i))[k],
    decreases regions.len(),
{
    if i == regions.len() {
        assert(regions.take(i) =~= regions);
    } else {
        let d = regions.drop_last();
        assert(d.take(i) =~= regions.take(i));
        lemma_usable_frames_prefix(d, i);
    }
}

/// Every usable frame is the start of a frame inside a usable region that
/// holds frames: an address aligned to 4 KiB below the end of that region.
pub proof fn lemma_usable_frame_in_region(regions: Seq<MemoryRegion>, k: int)
    requires
        0 <= k < usable_frames(regions).len(),
        forall|j: int| 0 <= j < regions.len() ==> #[trigger] region_in_bounds(regions[j]),
    ensures
        usable_frames(regions)[k] % 4096 == 0,
        usable_frames(regions)[k] < FRAME_NUMBER_LIMIT * 4096,
        exists|j: int|
            #![trigger regions[j]]
            0 <= j < regions.len() && region_frames(regions[j]).len() > 0
                && regions[j].region_type is Usable
                && regions[j].range.start_frame_number * 4096 <= usable_frames(regions)[k]
                && usable_frames(regions)[k] < regions[j].range.end_frame_number * 4096,
    decreases regions.len(),
{
    let d = regions.drop_last();
    let a = usable_frames(d);
    assert forall|j: int| 0 <= j < d.len() implies #[trigger] region_in_bounds(d[j]) by {
        assert(region_in_bounds(regions[j]));
    }
    if k < a.len() {
        lemma_usable_frame_in_region(d, k);
        let j = choose|j: int|
            #![trigger d[j]]
            0 <= j < d.len() && region_frames(d[j]).len() > 0 && d[j].region_type is Usable
                && d[j].range.start_frame_number * 4096 <= a[k]
                && a[k] < d[j].range.end_frame_number * 4096;
        assert(regions[j] == d[j]);
    } else {
        let r = regions.last();
        assert(region_in_bounds(regions[regions.len() - 1]));
        let m = k - a.len();
        let n = r.range.start_frame_number + m;
        assert(n < r.range.end_frame_number);
        assert(0 <= n * 4096 < FRAME_NUMBER_LIMIT * 4096) by (nonlinear_arith)
            requires
                0 <= n < FRAME_NUMBER_LIMIT,
        ;
        assert((n * 4096) % 4096 == 0) by (nonlinear_arith)
            requires
                0 <= n,
        ;
        assert(r.range.start_frame_number * 4096 <= n * 4096 < r.range.end_frame_number * 4096)
            by (nonlinear_arith)
            requires
                r.range.start_frame_number <= n < r.range.end_frame_number,
        ;
        assert(usable_frames(regions)[k] == n * 4096);
        assert(regions[regions.len() - 1] == r);
    }
}

/// Where the usable regions do not overlap, no frame appears twice among
/// the usable frames.
pub proof fn lemma_usable_frames_distinct(regions: Seq<MemoryRegion>)
    requires
        usable_regions_disjoint(regions),
        forall|j: int| 0 <= j < regions.len() ==> #[trigger] region_in_bounds(regions[j]),
    ensures
        usable_frames(regions).no_duplicates(),
    decreases regions.len(),
{
    if regions.len() > 0 {
        let d = regions.drop_last();
        let last = regions.last();
        let a = usable_frames(d);
        let b = region_frames(last);
        let all = usable_frames(regions);
        assert forall|j: int| 0 <= j < d.len() implies #[trigger] region_in_bounds(d[j]) by {
            assert(region_in_bounds(regions[j]));
        }
        assert(usable_regions_disjoint(d)) by {
            assert forall|i: int, j: int|
                #![trigger d[i], d[j]]
                0 <= i < j < d.len() && region_frames(d[i]).len() > 0
                    && region_frames(d[j]).len() > 0 implies {
                ||| d[i].range.end_frame_number <= d[j].range.start_frame_number
                ||| d[j].range.end_frame_number <= d[i].range.start_frame_number
            } by {
                assert(regions[i] == d[i] && regions[j] == d[j]);
            }
        }
        lemma_usable_frames_distinct(d);
        assert(region_in_bounds(regions[regions.len() - 1]));
        assert forall|x: int, y: int|
            0 <= x < all.len() && 0 <= y < all.len() && x != y implies all[x] != all[y] by {
            if x < a.len() && y < a.len() {
                assert(all[x] == a[x] && all[y] == a[y]);
            } else if x >= a.len() && y >= a.len() {
                let s = last.range.start_frame_number;
                let (mx, my) = ((x - a.len()) as int, (y - a.len()) as int);
                assert(all[x] == b[mx] && all[y] == b[my]);
                assert((s + mx) * 4096 != (s + my) * 4096) by (nonlinear_arith)
                    requires
                        mx != my,
                ;
            } else {
                let (k, m) = if x < a.len() {
                    (x, (y - a.len()) as int)
                } else {
                    (y, (x - a.len()) as int)
                };
                lemma_usable_frame_in_region(d, k);
                let j = choose|j: int|
                    #![trigger d[j]]
                    0 <= j < d.len() && region_frames(d[j]).len() > 0 && d[j].region_type is Usable
                        && d[j].range.start_frame_number * 4096 <= a[k]
                        && a[k] < d[j].range.end_frame_number * 4096;
                assert(regions[j] == d[j]);
                assert(regions[regions.len() - 1] == last);
                let s = last.range.start_frame_number;
                let e = last.range.end_frame_number;
                let sj = d[j].range.start_frame_number;
                let ej = d[j].range.end_frame_number;
                assert(b[m] == (s + m) * 4096);
                assert(ej <= s || e <= sj);
                assert(s * 4096 <= (s + m) * 4096 < e * 4096) by (nonlinear_arith)
                    requires
                        0 <= m,
                        s + m < e,
                ;
                assert(ej <= s ==> ej * 4096 <= s * 4096) by (nonlinear_arith);
                assert(e <= sj ==> e * 4096 <= sj * 4096) by (nonlinear_arith);
                assert(a[k] != b[m]);
                assert(all[k] == a[k] && all[(a.len() + m) as int] == b[m]);
            }
        }
    }
}

} // verus!
