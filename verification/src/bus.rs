//! The I/O port bus: a sorted interval map from guest port ranges to device
//! handles.
//!
//! Devices live in an arena outside the bus; the bus stores a stable handle
//! per range. A range is half open, `[base, base + len)`. Ranges never
//! overlap: `insert` rejects a range that would. Lookup finds the owning
//! range by binary search and hands back the handle and the offset of the
//! port inside the range; a port nobody claimed resolves to `None` (the
//! caller drops such accesses silently).

use vstd::prelude::*;

verus! {

/// Why an insertion into the bus was refused.
#[derive(Clone, Copy, Debug, PartialEq, Eq, Structural)]
pub enum BusError {
    /// The range is empty, runs past the end of the port space, or overlaps
    /// a registered range.
    Overlap,
}

/// One registered range: the ports `[base, base + len)` and the handle of
/// the device that owns them.
#[derive(Clone, Copy, Debug, PartialEq, Eq, Structural)]
pub struct BusEntry {
    pub base: u64,
    pub len: u64,
    pub device: u32,
}

/// Two half-open ranges share at least one port.
pub open spec fn ranges_overlap(base1: u64, len1: u64, base2: u64, len2: u64) -> bool {
    base1 < base2 + len2 && base2 < base1 + len1
}

/// `addr` lies inside the entry's range.
pub open spec fn entry_contains(e: BusEntry, addr: u64) -> bool {
    e.base <= addr < e.base + e.len
}

/// A single entry is sound: the range is non-empty and its end fits in the
/// port space.
pub open spec fn entry_wf(e: BusEntry) -> bool {
    e.len > 0 && e.base + e.len <= u64::MAX
}

/// A sorted interval map from port ranges to device handles. Clones share
/// nothing mutable: the map is effectively read-only once the VM starts.
#[derive(Clone)]
pub struct IoBus {
    entries: Vec<BusEntry>,
}

impl View for IoBus {
    type V = Seq<BusEntry>;

    /// The registered ranges, in ascending order of base.
    closed spec fn view(&self) -> Seq<BusEntry> {
        self.entries@
    }
}

impl IoBus {
    /// The bus invariant: every entry is sound, and the entries are sorted
    /// with pairwise disjoint ranges.
    pub open spec fn wf(self) -> bool {
        &&& forall|i: int| 0 <= i < self@.len() ==> entry_wf(#[trigger] self@[i])
        &&& forall|i: int, j: int|
            0 <= i < j < self@.len()
                ==> #[trigger] self@[i].base + self@[i].len <= #[trigger] self@[j].base
    }

    /// An empty bus.
    pub fn new() -> (r: IoBus)
        ensures
            r@ == Seq::<BusEntry>::empty(),
            r.wf(),
    {
        IoBus { entries: Vec::new() }
    }

    /// Any two distinct registered ranges are disjoint.
    pub proof fn lemma_ranges_disjoint(self)
        requires
            self.wf(),
        ensures
            forall|i: int, j: int|
                0 <= i < self@.len() && 0 <= j < self@.len() && i != j
                    ==> !ranges_overlap(
                        #[trigger] self@[i].base,
                        self@[i].len,
                        #[trigger] self@[j].base,
                        self@[j].len,
                    ),
    {
    }

    /// Whether `[base, base + len)` shares a port with a registered range.
    pub fn overlaps_existing(&self, base: u64, len: u64) -> (r: bool)
        requires
            self.wf(),
            len > 0,
            base + len <= u64::MAX,
        ensures
            r == exists|i: int|
                0 <= i < self@.len() && ranges_overlap(
                    #[trigger] self@[i].base,
                    self@[i].len,
                    base,
                    len,
                ),
    {
        let n = self.entries.len();
        let mut i: usize = 0;
        while i < n
            invariant
                n == self@.len(),
                i <= n,
                self.wf(),
                len > 0,
                base + len <= u64::MAX,
                forall|j: int|
                    0 <= j < i ==> !ranges_overlap(
                        #[trigger] self@[j].base,
                        self@[j].len,
                        base,
                        len,
                    ),
            decreases n - i,
        {
            let e = self.entries[i];
            if base < e.base + e.len && e.base < base + len {
                return true;
            }
            i = i + 1;
        }
        false
    }

    /// Registers `device` over the ports `[base, base + len)`.
    ///
    /// Succeeds exactly when the range is non-empty, fits in the port
    /// space, and overlaps no registered range; the new entry then stands
    /// at its sorted position and every old entry is kept. On failure the
    /// bus is unchanged.
    pub fn insert(&mut self, device: u32, base: u64, len: u64) -> (r: Result<(), BusError>)
        requires
            old(self).wf(),
        ensures
            final(self).wf(),
            match r {
                Ok(()) => {
                    &&& len > 0
                    &&& base + len <= u64::MAX
                    &&& forall|i: int|
                        0 <= i < old(self)@.len() ==> !ranges_overlap(
                            #[trigger] old(self)@[i].base,
                            old(self)@[i].len,
                            base,
                            len,
                        )
                    &&& exists|k: int|
                        0 <= k <= old(self)@.len() && final(self)@ == old(self)@.insert(
                            k,
                            BusEntry { base, len, device },
                        )
                },
                Err(BusError::Overlap) => {
                    &&& *final(self) == *old(self)
                    &&& (len == 0 || base + len > u64::MAX || exists|i: int|
                        0 <= i < old(self)@.len() && ranges_overlap(
                            #[trigger] old(self)@[i].base,
                            old(self)@[i].len,
                            base,
                            len,
                        ))
                },
            },
    {
        if len == 0 {
            return Err(BusError::Overlap);
        }
        if len > u64::MAX - base {
            return Err(BusError::Overlap);
        }
        // Find the sorted position: the number of entries whose base lies
        // below the new one, refusing any overlap on the way.
        let n = self.entries.len();
        let mut k: usize = 0;
        while k < n && self.entries[k].base < base
            invariant
                n == self@.len(),
                k <= n,
                self.wf(),
                len > 0,
                base + len <= u64::MAX,
                forall|j: int| 0 <= j < k ==> #[trigger] self@[j].base < base,
            decreases n - k,
        {
            k = k + 1;
        }
        // Entries below k start below `base`; entries from k on start at or
        // above it. One port-level check on each neighbour decides overlap.
        if k > 0 {
            let prev = self.entries[k - 1];
            if base < prev.base + prev.len {
                proof {
                    assert(ranges_overlap(self@[k - 1].base, self@[k - 1].len, base, len));
                }
                return Err(BusError::Overlap);
            }
        }
        if k < n {
            let next = self.entries[k];
            if next.base < base + len {
                proof {
                    assert(ranges_overlap(self@[k as int].base, self@[k as int].len, base, len));
                }
                return Err(BusError::Overlap);
            }
        }
        proof {
            // No entry overlaps the new range: those below k end at or
            // before `base`, those from k on begin at or after `base + len`.
            assert forall|i: int| 0 <= i < self@.len() implies !ranges_overlap(
                #[trigger] self@[i].base,
                self@[i].len,
                base,
                len,
            ) by {
                if i < k - 1 {
                    assert(self@[i].base + self@[i].len <= self@[k - 1].base);
                }
                if i > k {
                    assert(self@[k as int].base + self@[k as int].len <= self@[i].base);
                    assert(self@[k as int].len > 0);
                }
            }
        }
        let ghost pre = self@;
        self.entries.insert(k, BusEntry { base, len, device });
        proof {
            assert(final(self)@ == pre.insert(k as int, BusEntry { base, len, device }));
            // Sortedness is kept: the new entry fits between its neighbours.
            assert forall|i: int, j: int|
                0 <= i < j < self@.len() implies #[trigger] self@[i].base + self@[i].len
                <= #[trigger] self@[j].base by {
                if i == k {
                    assert(self@[j] == pre[j - 1]);
                    assert(pre[k as int].base >= base + len || k == pre.len());
                    if j - 1 > k {
                        assert(pre[k as int].base + pre[k as int].len <= pre[j - 1].base);
                    }
                } else if j == k {
                    assert(self@[i] == pre[i]);
                    if i < k - 1 {
                        assert(pre[i].base + pre[i].len <= pre[k - 1].base);
                    }
                } else {
                    let i0 = if i < k { i } else { i - 1 };
                    let j0 = if j < k { j } else { j - 1 };
                    assert(self@[i] == pre[i0]);
                    assert(self@[j] == pre[j0]);
                }
            }
        }
        Ok(())
    }

    /// Finds the range owning `addr` by binary search: the entry with the
    /// largest `base <= addr`, accepted when `addr` lies before its end.
    ///
    /// Returns the owning device's handle and the offset of `addr` inside
    /// the range, or `None` when no registered range holds `addr`.
    pub fn resolve(&self, addr: u64) -> (r: Option<(u32, u64)>)
        requires
            self.wf(),
        ensures
            match r {
                Some((device, offset)) => exists|i: int|
                    0 <= i < self@.len() && entry_contains(#[trigger] self@[i], addr)
                        && self@[i].device == device && offset == addr - self@[i].base,
                None => forall|i: int|
                    0 <= i < self@.len() ==> !entry_contains(#[trigger] self@[i], addr),
            },
    {
        let n = self.entries.len();
        // Binary search for the number of entries with base <= addr.
        let mut lo: usize = 0;
        let mut hi: usize = n;
        while lo < hi
            invariant
                n == self@.len(),
                lo <= hi <= n,
                self.wf(),
                forall|j: int| 0 <= j < lo ==> #[trigger] self@[j].base <= addr,
                forall|j: int| hi <= j < n ==> #[trigger] self@[j].base > addr,
            decreases hi - lo,
        {
            let mid = lo + (hi - lo) / 2;
            if self.entries[mid].base <= addr {
                lo = mid + 1;
            } else {
                hi = mid;
            }
        }
        // lo is now the count of entries with base <= addr; only the last
        // of them can contain addr.
        if lo == 0 {
            return None;
        }
        let e = self.entries[lo - 1];
        if addr - e.base < e.len {
            proof {
                assert(entry_contains(self@[lo - 1], addr));
            }
            Some((e.device, addr - e.base))
        } else {
            proof {
                // Entries below lo - 1 end at or before this entry's base,
                // hence at or before addr; entries from lo on begin above addr.
                assert forall|i: int| 0 <= i < self@.len() implies !entry_contains(
                    #[trigger] self@[i],
                    addr,
                ) by {
                    if i < lo - 1 {
                        assert(self@[i].base + self@[i].len <= self@[lo - 1].base);
                    }
                }
            }
            None
        }
    }
}

} // verus!
