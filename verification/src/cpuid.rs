//! The guest-visible CPUID image and the one edit the monitor makes to it.
//!
//! The backend reports a sequence of CPUID leaf entries; before any vCPU
//! runs, the leaf at `function == 1, index == 0` has the hypervisor-present
//! bit of ECX forced on, and every other leaf is forwarded untouched.

use vstd::prelude::*;

verus! {

/// Bit of ECX in CPUID leaf 1 that advertises "running under a hypervisor".
pub const ECX_HYPERVISOR_MASK: u32 = 0x8000_0000;

/// One CPUID leaf entry as the backend reports it: the leaf selectors
/// (`function`, `index`), the backend's flags word, and the four result
/// registers.
#[derive(Clone, Copy, Debug, PartialEq, Eq, Structural)]
pub struct CpuidEntry {
    pub function: u32,
    pub index: u32,
    pub flags: u32,
    pub eax: u32,
    pub ebx: u32,
    pub ecx: u32,
    pub edx: u32,
}

/// What the patch makes of a single entry: the hypervisor bit is set on the
/// leaf at `function == 1, index == 0`; any other entry is unchanged.
pub open spec fn patched_entry(e: CpuidEntry) -> CpuidEntry {
    if e.function == 1 && e.index == 0 {
        CpuidEntry { ecx: e.ecx | ECX_HYPERVISOR_MASK, ..e }
    } else {
        e
    }
}

/// What the patch makes of a whole image: every entry patched in place.
pub open spec fn patched(s: Seq<CpuidEntry>) -> Seq<CpuidEntry> {
    s.map_values(|e: CpuidEntry| patched_entry(e))
}

/// Sets the hypervisor-present bit of ECX on the leaf at
/// `function == 1, index == 0`, leaving every other entry bit-identical.
pub fn patch_cpuid(entries: &mut Vec<CpuidEntry>)
    ensures
        final(entries)@ == patched(old(entries)@),
{
    let n = entries.len();
    let mut i: usize = 0;
    while i < n
        invariant
            n == old(entries)@.len(),
            i <= n,
            entries@.len() == n,
            forall|j: int| 0 <= j < i ==> entries@[j] == patched_entry(old(entries)@[j]),
            forall|j: int| i <= j < n ==> entries@[j] == old(entries)@[j],
        decreases n - i,
    {
        let e = entries[i];
        if e.function == 1 && e.index == 0 {
            entries[i].ecx = e.ecx | ECX_HYPERVISOR_MASK;
        }
        i = i + 1;
    }
    proof {
        assert(entries@ =~= patched(old(entries)@));
    }
}

/// The patched image asserts a hypervisor: the leaf at
/// `function == 1, index == 0` has the ECX hypervisor bit set, and every
/// other leaf is bit-identical to what the backend reported.
pub proof fn lemma_patch_asserts_hypervisor(s: Seq<CpuidEntry>)
    ensures
        patched(s).len() == s.len(),
        forall|j: int|
            0 <= j < s.len() && s[j].function == 1 && s[j].index == 0
                ==> #[trigger] patched(s)[j].ecx & ECX_HYPERVISOR_MASK != 0,
        forall|j: int|
            0 <= j < s.len() && !(s[j].function == 1 && s[j].index == 0)
                ==> #[trigger] patched(s)[j] == s[j],
{
    assert forall|j: int|
        0 <= j < s.len() && s[j].function == 1 && s[j].index == 0
            implies #[trigger] patched(s)[j].ecx & ECX_HYPERVISOR_MASK != 0 by {
        let x = s[j].ecx;
        assert((x | 0x8000_0000u32) & 0x8000_0000u32 != 0) by (bit_vector);
    }
}

/// Patching an already patched image changes nothing: the edit is
/// idempotent.
pub proof fn lemma_patch_idempotent(s: Seq<CpuidEntry>)
    ensures
        patched(patched(s)) == patched(s),
{
    assert forall|j: int| 0 <= j < s.len()
        implies #[trigger] patched(patched(s))[j] == patched(s)[j] by {
        let x = s[j].ecx;
        assert((x | 0x8000_0000u32) | 0x8000_0000u32 == x | 0x8000_0000u32) by (bit_vector);
    }
    assert(patched(patched(s)) =~= patched(s));
}

} // verus!
