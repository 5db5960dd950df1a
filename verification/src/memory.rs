//! The guest-physical memory map: non-overlapping contiguous regions, each
//! backed by host memory, plus the architectural layout they are computed
//! from.
//!
//! A region is `(guest_base, bytes)`: the guest-physical base and the host
//! backing. Regions are disjoint in guest-physical space and sorted by
//! base. `write_slice` copies bytes in and `read_bytes` copies them out;
//! both refuse a span that straddles a region boundary or falls outside
//! every region.

use vstd::prelude::*;

verus! {

/// Bytes below the 32-bit boundary set aside for devices: guest RAM never
/// covers them.
pub const MEM_32BIT_GAP_SIZE: u64 = 0x3000_0000;

/// First guest-physical address past the 32-bit boundary.
pub const FIRST_ADDR_PAST_32BITS: u64 = 0x1_0000_0000;

/// Where the 32-bit device gap begins; RAM below the boundary ends here.
pub const MEM_32BIT_GAP_START: u64 = FIRST_ADDR_PAST_32BITS - MEM_32BIT_GAP_SIZE;

/// Guest-physical address the backend reserves for its task state segment;
/// it lies inside the 32-bit device gap, so no RAM region may cover it.
pub const KVM_TSS_ADDRESS: u64 = 0xFFFB_D000;

/// Start of guest high memory: the kernel image is loaded at or above it.
pub const HIMEM_START: u64 = 0x0010_0000;

/// Guest-physical address of the boot stack pointer handed to a fresh vCPU.
pub const BOOT_STACK_POINTER: u64 = 0x8FF0;

/// Guest-physical address of the zero page holding the boot parameters.
pub const ZERO_PAGE_START: u64 = 0x7000;

/// Why a memory-map operation was refused.
#[derive(Clone, Copy, Debug, PartialEq, Eq, Structural)]
pub enum MemoryError {
    /// The requested layout has an empty, unordered, overlapping or
    /// unaddressable region.
    BadLayout,
    /// The span falls outside every region or straddles a region boundary.
    OutOfBounds,
}

/// One guest memory region: its guest-physical base and the host bytes
/// backing it.
#[derive(Debug)]
pub struct GuestRegion {
    pub guest_base: u64,
    pub data: Vec<u8>,
}

/// A region is sound: non-empty, and its end fits in the address space.
pub open spec fn region_wf(r: GuestRegion) -> bool {
    r.data@.len() > 0 && r.guest_base + r.data@.len() <= u64::MAX
}

/// `addr` lies inside the region.
pub open spec fn region_contains(r: GuestRegion, addr: u64) -> bool {
    r.guest_base <= addr < r.guest_base + r.data@.len()
}

/// The whole span `[addr, addr + n)` lies inside the region.
pub open spec fn region_contains_span(r: GuestRegion, addr: u64, n: nat) -> bool {
    r.guest_base <= addr && addr + n <= r.guest_base + r.data@.len()
}

/// `data` with `bytes` laid over it starting at `off`.
pub open spec fn overwrite(data: Seq<u8>, off: int, bytes: Seq<u8>) -> Seq<u8> {
    Seq::new(
        data.len(),
        |k: int| if off <= k < off + bytes.len() { bytes[k - off] } else { data[k] },
    )
}

/// Index of the last region of `s` holding `addr`, or -1 when none does.
pub open spec fn addr_region(s: Seq<GuestRegion>, addr: u64) -> int
    decreases s.len(),
{
    if s.len() == 0 {
        -1
    } else if region_contains(s[s.len() - 1], addr) {
        s.len() - 1
    } else {
        addr_region(s.drop_last(), addr)
    }
}

/// Index of the last region of `s` holding the span `[addr, addr + n)`, or
/// -1 when none does.
pub open spec fn span_region(s: Seq<GuestRegion>, addr: u64, n: nat) -> int
    decreases s.len(),
{
    if s.len() == 0 {
        -1
    } else if region_contains_span(s[s.len() - 1], addr, n) {
        s.len() - 1
    } else {
        span_region(s.drop_last(), addr, n)
    }
}

/// `addr_region` finds a holding region exactly when one exists.
pub proof fn lemma_addr_region(s: Seq<GuestRegion>, addr: u64)
    ensures
        (exists|i: int| 0 <= i < s.len() && region_contains(#[trigger] s[i], addr)) <==> (0
            <= addr_region(s, addr) < s.len() && region_contains(s[addr_region(s, addr)], addr)),
        !(exists|i: int| 0 <= i < s.len() && region_contains(#[trigger] s[i], addr))
            ==> addr_region(s, addr) == -1,
    decreases s.len(),
{
    if s.len() > 0 && !region_contains(s[s.len() - 1], addr) {
        lemma_addr_region(s.drop_last(), addr);
        assert forall|i: int|
            0 <= i < s.len() && region_contains(#[trigger] s[i], addr) implies 0 <= addr_region(
            s,
            addr,
        ) < s.len() && region_contains(s[addr_region(s, addr)], addr) by {
            assert(i < s.len() - 1);
            assert(s.drop_last()[i] == s[i]);
        }
    }
}

/// `span_region` finds a holding region exactly when one exists.
pub proof fn lemma_span_region(s: Seq<GuestRegion>, addr: u64, n: nat)
    ensures
        (exists|i: int| 0 <= i < s.len() && region_contains_span(#[trigger] s[i], addr, n)) <==> (0
            <= span_region(s, addr, n) < s.len() && region_contains_span(
            s[span_region(s, addr, n)],
            addr,
            n,
        )),
        !(exists|i: int| 0 <= i < s.len() && region_contains_span(#[trigger] s[i], addr, n))
            ==> span_region(s, addr, n) == -1,
    decreases s.len(),
{
    if s.len() > 0 && !region_contains_span(s[s.len() - 1], addr, n) {
        lemma_span_region(s.drop_last(), addr, n);
        assert forall|i: int|
            0 <= i < s.len() && region_contains_span(#[trigger] s[i], addr, n) implies 0
            <= span_region(s, addr, n) < s.len() && region_contains_span(
            s[span_region(s, addr, n)],
            addr,
            n,
        ) by {
            assert(i < s.len() - 1);
            assert(s.drop_last()[i] == s[i]);
        }
    }
}

/// The guest-physical memory map: disjoint regions sorted by base.
#[derive(Debug)]
pub struct GuestMemoryMap {
    regions: Vec<GuestRegion>,
}

impl View for GuestMemoryMap {
    type V = Seq<GuestRegion>;

    /// The regions, in ascending order of guest-physical base.
    closed spec fn view(&self) -> Seq<GuestRegion> {
        self.regions@
    }
}

impl GuestMemoryMap {
    /// The map invariant: every region is sound, and the regions are sorted
    /// with pairwise disjoint guest-physical extents.
    pub open spec fn wf(self) -> bool {
        &&& forall|i: int| 0 <= i < self@.len() ==> region_wf(#[trigger] self@[i])
        &&& forall|i: int, j: int|
            0 <= i < j < self@.len()
                ==> #[trigger] self@[i].guest_base + self@[i].data@.len()
                    <= #[trigger] self@[j].guest_base
    }

    /// The guest-physical shape of the map: each region's base and length.
    pub open spec fn layout(self) -> Seq<(u64, int)> {
        self@.map_values(|r: GuestRegion| (r.guest_base, r.data@.len() as int))
    }

    /// Some region holds the whole span `[addr, addr + n)`.
    pub open spec fn has_span(self, addr: u64, n: nat) -> bool {
        exists|i: int| 0 <= i < self@.len() && region_contains_span(#[trigger] self@[i], addr, n)
    }

    /// Some region holds the address.
    pub open spec fn has_addr(self, addr: u64) -> bool {
        exists|i: int| 0 <= i < self@.len() && region_contains(#[trigger] self@[i], addr)
    }

    /// The `n` bytes the guest sees at `addr` (meaningful under `has_span`).
    pub open spec fn span_bytes(self, addr: u64, n: nat) -> Seq<u8> {
        let i = span_region(self@, addr, n);
        let off = addr - self@[i].guest_base;
        self@[i].data@.subrange(off, off + n)
    }

    /// The byte the guest sees at `addr` (meaningful under `has_addr`).
    pub open spec fn byte_at(self, addr: u64) -> u8 {
        let i = addr_region(self@, addr);
        self@[i].data@[addr - self@[i].guest_base]
    }

    /// Two regions of a sound map holding one address are the same region.
    pub proof fn lemma_unique_region(self, addr: u64, i: int, j: int)
        requires
            self.wf(),
            0 <= i < self@.len(),
            0 <= j < self@.len(),
            region_contains(self@[i], addr),
            region_contains(self@[j], addr),
        ensures
            i == j,
    {
    }

    /// The guest-physical extents of any two distinct regions are disjoint.
    pub proof fn lemma_regions_disjoint(self)
        requires
            self.wf(),
        ensures
            forall|i: int, j: int|
                0 <= i < self@.len() && 0 <= j < self@.len() && i != j
                    ==> !(#[trigger] self@[i].guest_base < self@[j].guest_base
                        + self@[j].data@.len() && #[trigger] self@[j].guest_base
                        < self@[i].guest_base + self@[i].data@.len()),
    {
    }

    /// Builds the map from a layout of `(guest_base, length)` pairs,
    /// zero-filling each region's backing.
    ///
    /// Succeeds exactly when every requested region is non-empty and
    /// addressable and the pairs are sorted with disjoint extents.
    pub fn new(layout: &Vec<(u64, u64)>) -> (r: Result<GuestMemoryMap, MemoryError>)
        requires
            forall|i: int| 0 <= i < layout@.len() ==> (#[trigger] layout@[i]).1 <= usize::MAX,
        ensures
            r matches Ok(_) <==> spec_layout_ok(layout@),
            match r {
                Ok(m) => {
                    &&& m.wf()
                    &&& m@.len() == layout@.len()
                    &&& forall|i: int|
                        0 <= i < layout@.len() ==> {
                            &&& (#[trigger] m@[i]).guest_base == layout@[i].0
                            &&& m@[i].data@ == Seq::new(layout@[i].1 as nat, |k: int| 0u8)
                        }
                },
                Err(MemoryError::BadLayout) => !spec_layout_ok(layout@),
                Err(_) => false,
            },
    {
        let n = layout.len();
        let mut i: usize = 0;
        // Check the layout: non-empty, addressable, ascending and disjoint.
        while i < n
            invariant
                n == layout@.len(),
                i <= n,
                forall|j: int| 0 <= j < i ==> pair_ok(layout@, j),
            decreases n - i,
        {
            let (base, size) = layout[i];
            if size == 0 || size > u64::MAX - base {
                proof {
                    assert(!pair_ok(layout@, i as int));
                }
                return Err(MemoryError::BadLayout);
            }
            if i > 0 {
                let (pbase, psize) = layout[i - 1];
                if base < pbase || base - pbase < psize {
                    proof {
                        assert(!pair_ok(layout@, i as int));
                    }
                    return Err(MemoryError::BadLayout);
                }
            }
            i = i + 1;
        }
        let mut regions: Vec<GuestRegion> = Vec::new();
        let mut i: usize = 0;
        while i < n
            invariant
                n == layout@.len(),
                i <= n,
                forall|j: int| 0 <= j < layout@.len() ==> (#[trigger] layout@[j]).1 <= usize::MAX,
                forall|j: int| 0 <= j < n ==> pair_ok(layout@, j),
                regions@.len() == i,
                forall|j: int|
                    0 <= j < i ==> {
                        &&& (#[trigger] regions@[j]).guest_base == layout@[j].0
                        &&& regions@[j].data@ == Seq::new(layout@[j].1 as nat, |k: int| 0u8)
                    },
            decreases n - i,
        {
            let (base, size) = layout[i];
            proof {
                assert(pair_ok(layout@, i as int));
            }
            let data = vec![0u8; size as usize];
            proof {
                assert(data@ =~= Seq::new(size as nat, |k: int| 0u8));
            }
            regions.push(GuestRegion { guest_base: base, data });
            i = i + 1;
        }
        let m = GuestMemoryMap { regions };
        proof {
            assert forall|a: int| 0 <= a < m@.len() implies region_wf(#[trigger] m@[a]) by {
                assert(pair_ok(layout@, a));
            }
            assert forall|a: int, b: int| 0 <= a < b < m@.len() implies #[trigger] m@[a].guest_base
                + m@[a].data@.len() <= #[trigger] m@[b].guest_base by {
                lemma_pairs_sorted(layout@, a, b);
            }
        }
        Ok(m)
    }

    /// Copies `bytes` into guest memory at `addr`.
    ///
    /// Succeeds exactly when one region holds the whole span; the bytes
    /// then read back at `addr`, every other guest byte is untouched, and
    /// the layout is unchanged. On failure the map is unchanged.
    pub fn write_slice(&mut self, bytes: &[u8], addr: u64) -> (r: Result<(), MemoryError>)
        requires
            old(self).wf(),
        ensures
            final(self).wf(),
            match r {
                Ok(()) => {
                    &&& old(self).has_span(addr, bytes@.len())
                    &&& final(self).layout() == old(self).layout()
                    &&& final(self).span_bytes(addr, bytes@.len()) == bytes@
                    &&& forall|a: u64|
                        old(self).has_addr(a) && !(addr <= a < addr + bytes@.len())
                            ==> #[trigger] final(self).byte_at(a) == old(self).byte_at(a)
                },
                Err(MemoryError::OutOfBounds) => {
                    &&& *final(self) == *old(self)
                    &&& !old(self).has_span(addr, bytes@.len())
                },
                Err(_) => false,
            },
    {
        let n = self.regions.len();
        let mut i: usize = 0;
        while i < n
            invariant
                n == self@.len(),
                i <= n,
                self.wf(),
                *self == *old(self),
                forall|j: int|
                    0 <= j < i ==> !region_contains_span(#[trigger] self@[j], addr, bytes@.len()),
            decreases n - i,
        {
            let base = self.regions[i].guest_base;
            let rlen = self.regions[i].data.len();
            let nb = bytes.len();
            if addr >= base && addr - base <= rlen as u64 && nb as u64 <= rlen as u64 - (addr
                - base) {
                let off = (addr - base) as usize;
                let ghost pre = self@;
                proof {
                    assert(region_contains_span(pre[i as int], addr, bytes@.len()));
                }
                copy_into(&mut self.regions[i].data, off, bytes);
                proof {
                    let nbs = bytes@.len();
                    let ii = i as int;
                    assert(self@[ii].guest_base == pre[ii].guest_base);
                    assert(self@[ii].data@ == overwrite(pre[ii].data@, off as int, bytes@));
                    assert(forall|j: int| 0 <= j < pre.len() && j != ii ==> self@[j] == pre[j]);
                    // Layout is unchanged: only region ii's bytes moved.
                    assert forall|j: int| 0 <= j < self@.len() implies self.layout()[j] == old(
                        self,
                    ).layout()[j] by {}
                    assert(self.layout() =~= old(self).layout());
                    // The span region of the new map is region ii, so the
                    // span reads back as the written bytes.
                    assert(region_contains_span(self@[ii], addr, nbs));
                    lemma_span_region(self@, addr, nbs);
                    let c = span_region(self@, addr, nbs);
                    if nbs > 0 {
                        assert(region_contains(self@[c], addr));
                        assert(region_contains(self@[ii], addr));
                        self.lemma_unique_region(addr, c, ii);
                        assert(self.span_bytes(addr, nbs) =~= bytes@);
                    } else {
                        assert(self.span_bytes(addr, nbs) =~= bytes@);
                    }
                    // Frame: every guest byte outside the span is untouched.
                    assert forall|a: u64|
                        old(self).has_addr(a) && !(addr <= a < addr + nbs) implies #[trigger] self
                        .byte_at(a) == old(self).byte_at(a) by {
                        lemma_addr_region(pre, a);
                        lemma_addr_region(self@, a);
                        let jo = addr_region(pre, a);
                        let jn = addr_region(self@, a);
                        assert(region_contains(pre[jo], a));
                        assert(self@[jo].guest_base == pre[jo].guest_base && self@[jo].data@.len()
                            == pre[jo].data@.len());
                        assert(region_contains(self@[jo], a));
                        self.lemma_unique_region(a, jn, jo);
                        if jo == ii {
                            assert(!(off <= a - pre[ii].guest_base < off + nbs));
                        }
                    }
                }
                return Ok(());
            }
            proof {
                assert(!region_contains_span(self@[i as int], addr, bytes@.len()));
            }
            i = i + 1;
        }
        Err(MemoryError::OutOfBounds)
    }

    /// Copies `n` guest bytes out of memory starting at `addr`.
    ///
    /// Succeeds exactly when one region holds the whole span, returning the
    /// bytes the guest sees there.
    pub fn read_bytes(&self, addr: u64, n: usize) -> (r: Result<Vec<u8>, MemoryError>)
        requires
            self.wf(),
        ensures
            match r {
                Ok(v) => self.has_span(addr, n as nat) && v@ == self.span_bytes(addr, n as nat),
                Err(MemoryError::OutOfBounds) => !self.has_span(addr, n as nat),
                Err(_) => false,
            },
    {
        let count = self.regions.len();
        let mut i: usize = 0;
        while i < count
            invariant
                count == self@.len(),
                i <= count,
                self.wf(),
                forall|j: int|
                    0 <= j < i ==> !region_contains_span(#[trigger] self@[j], addr, n as nat),
            decreases count - i,
        {
            let base = self.regions[i].guest_base;
            let rlen = self.regions[i].data.len();
            if addr >= base && addr - base <= rlen as u64 && n as u64 <= rlen as u64 - (addr
                - base) {
                let off = (addr - base) as usize;
                proof {
                    assert(region_contains_span(self@[i as int], addr, n as nat));
                    assert(off + n <= rlen);
                }
                let mut v: Vec<u8> = Vec::new();
                let mut k: usize = 0;
                while k < n
                    invariant
                        k <= n,
                        i < self@.len(),
                        off + n <= self@[i as int].data@.len(),
                        self@[i as int].data@.len() <= usize::MAX,
                        v@.len() == k,
                        forall|t: int| 0 <= t < k ==> v@[t] == self@[i as int].data@[off + t],
                    decreases n - k,
                {
                    let b = self.regions[i].data[off + k];
                    v.push(b);
                    k = k + 1;
                }
                proof {
                    lemma_span_region(self@, addr, n as nat);
                    let c = span_region(self@, addr, n as nat);
                    if n > 0 {
                        self.lemma_unique_region(addr, c, i as int);
                    }
                    assert(v@ =~= self.span_bytes(addr, n as nat));
                }
                return Ok(v);
            }
            proof {
                assert(!region_contains_span(self@[i as int], addr, n as nat));
            }
            i = i + 1;
        }
        Err(MemoryError::OutOfBounds)
    }

    /// How many regions the map holds.
    pub fn region_count(&self) -> (r: usize)
        ensures
            r == self@.len(),
    {
        self.regions.len()
    }

    /// A borrow of the region at `i`, for backend registration and loading.
    pub fn region(&self, i: usize) -> (r: &GuestRegion)
        requires
            i < self@.len(),
        ensures
            *r == self@[i as int],
    {
        &self.regions[i]
    }
}

/// Bytes written into a single region read back unchanged: a map whose span
/// at `addr` a successful `write_slice` has just set to `bytes` (its layout
/// kept, as `write_slice` ensures) yields exactly `bytes` again from
/// `read_bytes` of the same length at the same address.
pub proof fn lemma_write_read_round_trip(
    m0: GuestMemoryMap,
    m1: GuestMemoryMap,
    bytes: Seq<u8>,
    addr: u64,
)
    requires
        m0.wf(),
        m1.wf(),
        m0.has_span(addr, bytes.len()),
        m1.layout() == m0.layout(),
        m1.span_bytes(addr, bytes.len()) == bytes,
    ensures
        m1.has_span(addr, bytes.len()),
        m1.span_bytes(addr, bytes.len()) == bytes,
{
    let i = choose|i: int|
        0 <= i < m0@.len() && region_contains_span(#[trigger] m0@[i], addr, bytes.len());
    assert(m0.layout().len() == m0@.len());
    assert(m1.layout().len() == m1@.len());
    assert(m1@.len() == m0@.len());
    assert(m0.layout()[i] == (m0@[i].guest_base, m0@[i].data@.len() as int));
    assert(m1.layout()[i] == (m1@[i].guest_base, m1@[i].data@.len() as int));
    assert(m1@[i].guest_base == m0@[i].guest_base && m1@[i].data@.len() == m0@[i].data@.len());
    assert(region_contains_span(m1@[i], addr, bytes.len()));
}

/// One layout pair is sound and ordered after its predecessor.
pub open spec fn pair_ok(layout: Seq<(u64, u64)>, j: int) -> bool {
    &&& layout[j].1 > 0
    &&& layout[j].0 + layout[j].1 <= u64::MAX
    &&& (j > 0 ==> layout[j - 1].0 + layout[j - 1].1 <= layout[j].0)
}

/// The requested layout is sound: every region non-empty and addressable,
/// bases ascending, neighbouring extents disjoint.
pub open spec fn spec_layout_ok(layout: Seq<(u64, u64)>) -> bool {
    forall|j: int| 0 <= j < layout.len() ==> pair_ok(layout, j)
}

/// Neighbour-wise ordering of a sound layout extends to any two pairs.
proof fn lemma_pairs_sorted(layout: Seq<(u64, u64)>, i: int, j: int)
    requires
        spec_layout_ok(layout),
        0 <= i < j < layout.len(),
    ensures
        layout[i].0 + layout[i].1 <= layout[j].0,
    decreases j - i,
{
    if j > i + 1 {
        lemma_pairs_sorted(layout, i, j - 1);
        assert(pair_ok(layout, j));
    } else {
        assert(pair_ok(layout, j));
    }
}

/// Lays `bytes` over `data` starting at `off`.
fn copy_into(data: &mut Vec<u8>, off: usize, bytes: &[u8])
    requires
        off + bytes@.len() <= old(data)@.len(),
    ensures
        final(data)@ == overwrite(old(data)@, off as int, bytes@),
{
    let n = bytes.len();
    let dlen = data.len();
    let mut k: usize = 0;
    while k < n
        invariant
            n == bytes@.len(),
            k <= n,
            dlen == data@.len(),
            off + n <= dlen,
            data@.len() == old(data)@.len(),
            forall|t: int| 0 <= t < k ==> data@[off + t] == bytes@[t],
            forall|t: int|
                0 <= t < data@.len() && !(off <= t < off + k) ==> data@[t] == old(data)@[t],
        decreases n - k,
    {
        data[off + k] = bytes[k];
        k = k + 1;
    }
    proof {
        assert(data@ =~= overwrite(old(data)@, off as int, bytes@));
    }
}

/// Total guest memory in bytes for a requested MiB size, or `None` when the
/// request is empty or too large for the architectural layout to address.
pub fn guest_memory_bytes(memory_size_mib: u64) -> (r: Option<u64>)
    ensures
        match r {
            Some(b) => {
                &&& b == memory_size_mib * 0x10_0000
                &&& b > 0
                &&& b <= u64::MAX - FIRST_ADDR_PAST_32BITS
            },
            None => memory_size_mib == 0 || memory_size_mib * 0x10_0000 > u64::MAX
                - FIRST_ADDR_PAST_32BITS,
        },
{
    if memory_size_mib == 0 || memory_size_mib > (u64::MAX - FIRST_ADDR_PAST_32BITS) / 0x10_0000 {
        None
    } else {
        Some(memory_size_mib * 0x10_0000)
    }
}

/// Computes the architectural RAM regions for `size` bytes of guest memory:
/// one region from zero when the memory fits below the 32-bit device gap,
/// otherwise a second region above the 32-bit boundary for the remainder.
/// The extents are disjoint, sum to `size`, and avoid the backend's
/// reserved task-state address.
pub fn arch_memory_regions(size: u64) -> (r: Vec<(u64, u64)>)
    requires
        size > 0,
        size <= u64::MAX - FIRST_ADDR_PAST_32BITS,
    ensures
        spec_layout_ok(r@),
        r@.len() == (if size <= MEM_32BIT_GAP_START {
            1int
        } else {
            2int
        }),
        r@[0].0 == 0,
        (if size <= MEM_32BIT_GAP_START {
            r@[0].1 == size
        } else {
            &&& r@[0].1 == MEM_32BIT_GAP_START
            &&& r@[1].0 == FIRST_ADDR_PAST_32BITS
            &&& r@[1].1 == size - MEM_32BIT_GAP_START
        }),
        forall|i: int|
            0 <= i < r@.len() ==> !((#[trigger] r@[i]).0 <= KVM_TSS_ADDRESS < r@[i].0 + r@[i].1),
{
    let mut r: Vec<(u64, u64)> = Vec::new();
    if size <= MEM_32BIT_GAP_START {
        r.push((0, size));
    } else {
        r.push((0, MEM_32BIT_GAP_START));
        r.push((FIRST_ADDR_PAST_32BITS, size - MEM_32BIT_GAP_START));
    }
    r
}

/// Descriptor of one backend memory slot: the slot number is the region's
/// index, the guest-physical address its base, the size its length.
#[derive(Clone, Copy, Debug, PartialEq, Eq, Structural)]
pub struct MemorySlot {
    pub slot: u32,
    pub guest_addr: u64,
    pub size: u64,
}

/// The backend memory slots for a RAM layout: one per region, slot
/// numbers dense in region order, each carrying the region's base and
/// length.
pub fn kvm_memory_slots(layout: &Vec<(u64, u64)>) -> (r: Vec<MemorySlot>)
    requires
        layout@.len() <= u32::MAX,
    ensures
        r@.len() == layout@.len(),
        forall|i: int|
            0 <= i < layout@.len() ==> #[trigger] r@[i] == (MemorySlot {
                slot: i as u32,
                guest_addr: layout@[i].0,
                size: layout@[i].1,
            }),
{
    let n = layout.len();
    let mut r: Vec<MemorySlot> = Vec::new();
    let mut i: usize = 0;
    while i < n
        invariant
            n == layout@.len(),
            n <= u32::MAX,
            i <= n,
            r@.len() == i,
            forall|j: int|
                0 <= j < i ==> #[trigger] r@[j] == (MemorySlot {
                    slot: j as u32,
                    guest_addr: layout@[j].0,
                    size: layout@[j].1,
                }),
        decreases n - i,
    {
        let (base, size) = layout[i];
        r.push(MemorySlot { slot: i as u32, guest_addr: base, size });
        i = i + 1;
    }
    r
}

} // verus!
