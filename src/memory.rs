use vstd::prelude::*;

verus! {

/// Bytes in one firmware page.
pub const PAGE_SIZE: u64 = 4096;

/// How many regions an inventory holds unless told otherwise.
pub const MAX_REGIONS: usize = 32;

/// Extra descriptors' worth of buffer kept free, in case the firmware's map
/// grows between the size probe and the fetch.
pub const HEADROOM_DESCRIPTORS: usize = 8;

/// The largest page count whose byte size fits in 64 bits.
pub const MAX_PAGES: u64 = 0xF_FFFF_FFFF_FFFF;

/// The firmware's type tag for free, general-purpose RAM.
pub const CONVENTIONAL_MEMORY: u32 = 7;

/// A range of usable physical memory: its first address and its length in bytes.
#[derive(Debug, Clone, Copy, PartialEq, Eq, Structural)]
pub struct MemoryRegion {
    pub start: u64,
    pub size: u64,
}

impl MemoryRegion {
    /// The first address past the region, where it fits in 64 bits.
    pub fn end(&self) -> (r: Option<u64>)
        ensures
            self.start + self.size <= u64::MAX ==> r == Some((self.start + self.size) as u64),
            self.start + self.size > u64::MAX ==> r is None,
    {
        self.start.checked_add(self.size)
    }

    /// The region's size in whole KiB.
    pub fn size_kib(&self) -> (r: u64)
        ensures
            r == self.size / 1024,
    {
        self.size / 1024
    }
}

/// One entry of the firmware's memory map, as plain values: the firmware's type
/// tag, the first physical address and the number of pages.
#[derive(Debug, Clone, Copy, PartialEq, Eq, Structural)]
pub struct Descriptor {
    pub ty: u32,
    pub phys_start: u64,
    pub page_count: u64,
}

/// Why a discovery pass stored nothing.
#[derive(Debug, Clone, Copy, PartialEq, Eq, Structural)]
pub enum DiscoveryError {
    /// The working buffer is smaller than the reported map plus headroom.
    BufferTooSmall,
    /// The firmware did not hand over its memory map.
    FetchFailed,
}

/// Bytes taken by one firmware memory descriptor.
pub open spec fn descriptor_bytes() -> int {
    40
}

/// Bytes of headroom added to the size that the firmware reports.
pub open spec fn headroom_bytes() -> int {
    HEADROOM_DESCRIPTORS as int * descriptor_bytes()
}

/// Whether the buffer can take the reported map plus headroom.
pub open spec fn buffer_suffices(buffer_len: nat, map_size: nat) -> bool {
    buffer_len >= map_size + headroom_bytes()
}

/// A descriptor of free, general-purpose RAM.
pub open spec fn is_usable(d: Descriptor) -> bool {
    d.ty == CONVENTIONAL_MEMORY
}

/// A descriptor whose size in bytes fits in 64 bits.
pub open spec fn size_fits(d: Descriptor) -> bool {
    d.page_count <= MAX_PAGES
}

/// The region that a descriptor covers.
pub open spec fn region_of(d: Descriptor) -> MemoryRegion {
    MemoryRegion { start: d.phys_start, size: (d.page_count * PAGE_SIZE) as u64 }
}

/// The regions of the usable descriptors, in the order of the map.
pub open spec fn usable_regions(ds: Seq<Descriptor>) -> Seq<MemoryRegion>
    decreases ds.len(),
{
    if ds.len() == 0 {
        Seq::empty()
    } else {
        let before = usable_regions(ds.drop_last());
        if is_usable(ds.last()) {
            before.push(region_of(ds.last()))
        } else {
            before
        }
    }
}

/// What a discovery pass over `ds` keeps: the usable regions, cut at `capacity`.
pub open spec fn snapshot_of(ds: Seq<Descriptor>, capacity: nat) -> Seq<MemoryRegion> {
    let all = usable_regions(ds);
    if all.len() <= capacity {
        all
    } else {
        all.take(capacity as int)
    }
}

/// Whether a discovery pass over `ds` had to drop usable regions.
pub open spec fn overflows(ds: Seq<Descriptor>, capacity: nat) -> bool {
    usable_regions(ds).len() > capacity
}

/// The usable regions of a prefix of the map are a prefix of those of the map.
pub proof fn lemma_usable_prefix(ds: Seq<Descriptor>, j: int)
    requires
        0 <= j <= ds.len(),
    ensures
        usable_regions(ds.take(j)).len() <= usable_regions(ds).len(),
        usable_regions(ds).take(usable_regions(ds.take(j)).len() as int) == usable_regions(
            ds.take(j),
        ),
    decreases ds.len(),
{
    let u = usable_regions(ds);
    if j == ds.len() {
        assert(ds.take(j) =~= ds);
        assert(u.take(u.len() as int) =~= u);
    } else {
        let p = ds.drop_last();
        assert(ds.take(j) =~= p.take(j));
        lemma_usable_prefix(p, j);
        let up = usable_regions(p);
        let k = usable_regions(ds.take(j)).len() as int;
        if is_usable(ds.last()) {
            assert(u.take(k) =~= up.take(k));
        }
    }
}

/// The usable regions of a map are its usable descriptors, as the map's
/// filter keeps them, each turned into the region it covers.
pub proof fn lemma_usable_regions_filter(ds: Seq<Descriptor>)
    ensures
        usable_regions(ds) == ds.filter(|d: Descriptor| is_usable(d)).map_values(
            |d: Descriptor| region_of(d),
        ),
    decreases ds.len(),
{
    let f = |d: Descriptor| is_usable(d);
    let g = |d: Descriptor| region_of(d);
    if ds.len() == 0 {
        assert(ds.filter(f).map_values(g) =~= Seq::<MemoryRegion>::empty());
    } else {
        lemma_usable_regions_filter(ds.drop_last());
        let rest = ds.drop_last().filter(f);
        reveal(Seq::filter);
        assert(ds.filter(f) == if f(ds.last()) {
            rest.push(ds.last())
        } else {
            rest
        });
        if f(ds.last()) {
            assert(rest.push(ds.last()).map_values(g) =~= rest.map_values(g).push(g(ds.last())));
            assert(usable_regions(ds) =~= ds.filter(f).map_values(g));
        } else {
            assert(usable_regions(ds) =~= ds.filter(f).map_values(g));
        }
    }
}

/// A discovery pass keeps the usable descriptors of the map, in the map's
/// order, each turned into its region, and stops at the capacity.
pub proof fn lemma_snapshot_takes_usable(ds: Seq<Descriptor>, capacity: nat)
    ensures
        ({
            let usable = ds.filter(|d: Descriptor| is_usable(d)).map_values(
                |d: Descriptor| region_of(d),
            );
            snapshot_of(ds, capacity) == usable.take(
                if usable.len() <= capacity {
                    usable.len() as int
                } else {
                    capacity as int
                },
            )
        }),
{
    lemma_usable_regions_filter(ds);
    let u = usable_regions(ds);
    assert(u.take(u.len() as int) =~= u);
}

/// Where the usable descriptors fit in the capacity, a discovery pass drops
/// none of them and keeps one region for each.
pub proof fn lemma_within_capacity(ds: Seq<Descriptor>, capacity: nat)
    requires
        ds.filter(|d: Descriptor| is_usable(d)).len() <= capacity,
    ensures
        !overflows(ds, capacity),
        snapshot_of(ds, capacity).len() == ds.filter(|d: Descriptor| is_usable(d)).len(),
{
    lemma_usable_regions_filter(ds);
}

/// Relies on the `#[repr(C)]` layout of uefi's `MemoryDescriptor` on 64-bit
/// targets: a 32-bit type tag padded to eight bytes, then four 64-bit fields.
#[verifier::external_body]
fn descriptor_size() -> (r: usize)
    ensures
        r == descriptor_bytes(),
{
    core::mem::size_of::<uefi::table::boot::MemoryDescriptor>()
}

/// Relies on uefi's `MemoryType`, a newtype over the firmware's `u32` tag
/// compared by value, whose `CONVENTIONAL` constant holds the tag 7.
#[verifier::external_body]
fn is_conventional(ty: u32) -> (r: bool)
    ensures
        r == (ty == CONVENTIONAL_MEMORY),
{
    uefi::table::boot::MemoryType(ty) == uefi::table::boot::MemoryType::CONVENTIONAL
}

/// Whether a working buffer of `buffer_len` bytes may receive a memory map that
/// the firmware reported as `map_size` bytes.
pub fn check_buffer(buffer_len: usize, map_size: usize) -> (r: Result<(), DiscoveryError>)
    ensures
        r is Ok <==> buffer_suffices(buffer_len as nat, map_size as nat),
        r is Err ==> r == Err::<(), DiscoveryError>(DiscoveryError::BufferTooSmall),
{
    let headroom: usize = HEADROOM_DESCRIPTORS * descriptor_size();
    if buffer_len < headroom || buffer_len - headroom < map_size {
        Err(DiscoveryError::BufferTooSmall)
    } else {
        Ok(())
    }
}

/// Whether every usable descriptor has a byte size that fits in 64 bits.
pub fn usable_sizes_fit(ds: &[Descriptor]) -> (r: bool)
    ensures
        r == forall|i: int| 0 <= i < ds@.len() && is_usable(#[trigger] ds@[i]) ==> size_fits(ds@[i]),
{
    let mut i: usize = 0;
    while i < ds.len()
        invariant
            i <= ds@.len(),
            forall|k: int| 0 <= k < i && is_usable(#[trigger] ds@[k]) ==> size_fits(ds@[k]),
        decreases ds@.len() - i,
    {
        if is_conventional(ds[i].ty) && ds[i].page_count > MAX_PAGES {
            return false;
        }
        i = i + 1;
    }
    true
}

/// What an inventory holds: the current snapshot, its capacity, and whether
/// the last discovery pass had to drop usable regions.
pub struct InventoryView {
    pub regions: Seq<MemoryRegion>,
    pub capacity: nat,
    pub truncated: bool,
}

/// The usable memory regions found by the last discovery pass, up to a fixed
/// capacity, in the order of the firmware's map.
pub struct MemoryInventory {
    regions: Vec<MemoryRegion>,
    capacity: usize,
    truncated: bool,
}

impl View for MemoryInventory {
    type V = InventoryView;

    closed spec fn view(&self) -> InventoryView {
        InventoryView {
            regions: self.regions@,
            capacity: self.capacity as nat,
            truncated: self.truncated,
        }
    }
}

impl MemoryInventory {
    /// An empty inventory that holds up to `MAX_REGIONS` regions.
    pub fn new() -> (r: MemoryInventory)
        ensures
            r@.regions == Seq::<MemoryRegion>::empty(),
            r@.capacity == MAX_REGIONS,
            !r@.truncated,
    {
        MemoryInventory::with_capacity(MAX_REGIONS)
    }

    /// An empty inventory that holds up to `capacity` regions.
    pub fn with_capacity(capacity: usize) -> (r: MemoryInventory)
        ensures
            r@.regions == Seq::<MemoryRegion>::empty(),
            r@.capacity == capacity,
            !r@.truncated,
    {
        MemoryInventory { regions: Vec::new(), capacity, truncated: false }
    }

    /// The most regions a snapshot holds.
    pub fn capacity(&self) -> (r: usize)
        ensures
            r == self@.capacity,
    {
        self.capacity
    }

    /// Whether the last discovery pass had to drop usable regions.
    pub fn truncated(&self) -> (r: bool)
        ensures
            r == self@.truncated,
    {
        self.truncated
    }

    /// The current snapshot, in the order of the firmware's map.
    pub fn get_usable_memory_regions(&self) -> (r: &[MemoryRegion])
        ensures
            r@ == self@.regions,
    {
        self.regions.as_slice()
    }

    /// One discovery pass. `map_size` is the size in bytes that the firmware
    /// reported for its map, `buffer_len` the size of the working buffer, and
    /// `fetched` the descriptors that the fetch returned, or `None` where it
    /// failed. On success the snapshot becomes the usable regions of `fetched`,
    /// cut at the capacity; on failure the inventory is left as it was.
    pub fn store_usable_memory_regions(
        &mut self,
        buffer_len: usize,
        map_size: usize,
        fetched: Option<&[Descriptor]>,
    ) -> (r: Result<(), DiscoveryError>)
        requires
            fetched matches Some(ds) ==> forall|i: int|
                0 <= i < ds@.len() && is_usable(#[trigger] ds@[i]) ==> size_fits(ds@[i]),
        ensures
            r == Err::<(), DiscoveryError>(DiscoveryError::BufferTooSmall) <==> !buffer_suffices(
                buffer_len as nat,
                map_size as nat,
            ),
            r == Err::<(), DiscoveryError>(DiscoveryError::FetchFailed) <==> (buffer_suffices(
                buffer_len as nat,
                map_size as nat,
            ) && fetched is None),
            r is Ok <==> (buffer_suffices(buffer_len as nat, map_size as nat) && fetched is Some),
            r is Err ==> final(self)@ == old(self)@,
            r is Ok ==> (fetched matches Some(ds) && final(self)@ == (InventoryView {
                regions: snapshot_of(ds@, old(self)@.capacity),
                capacity: old(self)@.capacity,
                truncated: overflows(ds@, old(self)@.capacity),
            })),
    {
        match check_buffer(buffer_len, map_size) {
            Err(e) => {
                return Err(e);
            },
            Ok(()) => {},
        }
        let ds = match fetched {
            None => {
                return Err(DiscoveryError::FetchFailed);
            },
            Some(ds) => ds,
        };
        let mut regions: Vec<MemoryRegion> = Vec::new();
        let mut truncated = false;
        let mut i: usize = 0;
        while i < ds.len()
            invariant_except_break
                regions@ == usable_regions(ds@.take(i as int)),
                !truncated,
            invariant
                i <= ds@.len(),
                forall|k: int| 0 <= k < ds@.len() && is_usable(#[trigger] ds@[k]) ==> size_fits(ds@[k]),
                regions@.len() <= self.capacity,
            ensures
                !truncated ==> i == ds@.len() && regions@ == usable_regions(ds@.take(i as int)),
                truncated ==> regions@ == snapshot_of(ds@, self.capacity as nat) && overflows(
                    ds@,
                    self.capacity as nat,
                ),
            decreases ds@.len() - i,
        {
            let d = ds[i];
            assert(ds@.take(i + 1).drop_last() =~= ds@.take(i as int));
            if is_conventional(d.ty) {
                if regions.len() < self.capacity {
                    regions.push(MemoryRegion { start: d.phys_start, size: d.page_count * PAGE_SIZE });
                } else {
                    proof {
                        lemma_usable_prefix(ds@, i + 1);
                        let cap = self.capacity as int;
                        assert(usable_regions(ds@.take(i + 1)).take(cap) =~= regions@);
                    }
                    truncated = true;
                    break;
                }
            }
            i = i + 1;
        }
        proof {
            if !truncated {
                assert(ds@.take(ds@.len() as int) =~= ds@);
            }
        }
        self.regions = regions;
        self.truncated = truncated;
        Ok(())
    }
}

} // verus!
