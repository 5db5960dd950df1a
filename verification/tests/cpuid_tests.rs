use vmm::cpuid::{patch_cpuid, CpuidEntry, ECX_HYPERVISOR_MASK};

fn entry(function: u32, index: u32, ecx: u32) -> CpuidEntry {
    CpuidEntry { function, index, flags: 0, eax: 0x11, ebx: 0x22, ecx, edx: 0x44 }
}

#[test]
fn patch_sets_hypervisor_bit_on_leaf_one() {
    let mut entries = vec![entry(0, 0, 0x77), entry(1, 0, 0x5), entry(1, 1, 0x5), entry(2, 0, 0)];
    let reported = entries.clone();
    patch_cpuid(&mut entries);
    // The leaf at function 1, index 0 has the hypervisor bit forced on.
    assert_eq!(entries[1].ecx, 0x5 | ECX_HYPERVISOR_MASK);
    assert_ne!(entries[1].ecx & (1 << 31), 0);
    // Every other leaf is bit-identical to what the backend reported.
    assert_eq!(entries[0], reported[0]);
    assert_eq!(entries[2], reported[2]);
    assert_eq!(entries[3], reported[3]);
    // The patched leaf differs only in ECX.
    assert_eq!(entries[1].eax, reported[1].eax);
    assert_eq!(entries[1].ebx, reported[1].ebx);
    assert_eq!(entries[1].edx, reported[1].edx);
}

#[test]
fn patch_twice_equals_patch_once() {
    let mut once = vec![entry(1, 0, 0xdead), entry(3, 2, 0xbeef)];
    let mut twice = once.clone();
    patch_cpuid(&mut once);
    patch_cpuid(&mut twice);
    patch_cpuid(&mut twice);
    assert_eq!(once, twice);
}

#[test]
fn patch_keeps_already_set_bit() {
    let mut entries = vec![entry(1, 0, ECX_HYPERVISOR_MASK | 0x3)];
    patch_cpuid(&mut entries);
    assert_eq!(entries[0].ecx, ECX_HYPERVISOR_MASK | 0x3);
}

#[test]
fn patch_of_empty_image_is_empty() {
    let mut entries: Vec<CpuidEntry> = Vec::new();
    patch_cpuid(&mut entries);
    assert!(entries.is_empty());
}
