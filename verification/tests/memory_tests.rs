use vmm::memory::{
    arch_memory_regions, guest_memory_bytes, kvm_memory_slots, GuestMemoryMap, MemoryError, FIRST_ADDR_PAST_32BITS,
    KVM_TSS_ADDRESS, MEM_32BIT_GAP_START,
};

#[test]
fn memory_write_and_read_round_trip() {
    let mut mem = GuestMemoryMap::new(&vec![(0x1000, 0x1000)]).unwrap();
    let bytes = [1u8, 2, 3, 4, 5, 6, 7, 8];
    assert!(mem.write_slice(&bytes, 0x1234).is_ok());
    let back = mem.read_bytes(0x1234, 8).unwrap();
    assert_eq!(back, bytes.to_vec());
}

#[test]
fn memory_boundary_write() {
    // A single region [0x1000, 0x2000): 16 bytes fit only up to 0x1ff0.
    let mut mem = GuestMemoryMap::new(&vec![(0x1000, 0x1000)]).unwrap();
    let bytes = [0xaau8; 16];
    assert!(mem.write_slice(&bytes, 0x1ff0).is_ok());
    assert_eq!(mem.write_slice(&bytes, 0x1ff8), Err(MemoryError::OutOfBounds));
    assert_eq!(mem.write_slice(&bytes, 0x1ffc), Err(MemoryError::OutOfBounds));
    assert_eq!(mem.write_slice(&bytes, 0x2000), Err(MemoryError::OutOfBounds));
}

#[test]
fn memory_write_outside_any_region_fails() {
    let mut mem = GuestMemoryMap::new(&vec![(0x1000, 0x1000)]).unwrap();
    assert_eq!(mem.write_slice(&[1, 2, 3], 0x0), Err(MemoryError::OutOfBounds));
    let back = mem.read_bytes(0x0, 3);
    assert_eq!(back, Err(MemoryError::OutOfBounds));
}

#[test]
fn memory_write_across_regions_fails() {
    // Two disjoint regions with a hole between them: a span touching both
    // or the hole is refused.
    let mut mem = GuestMemoryMap::new(&vec![(0x1000, 0x1000), (0x3000, 0x1000)]).unwrap();
    assert!(mem.write_slice(&[1, 2], 0x1ffe).is_ok());
    assert_eq!(mem.write_slice(&[1, 2], 0x1fff), Err(MemoryError::OutOfBounds));
    assert!(mem.write_slice(&[1, 2], 0x3000).is_ok());
}

#[test]
fn memory_fresh_map_reads_zero() {
    let mem = GuestMemoryMap::new(&vec![(0x1000, 0x10)]).unwrap();
    assert_eq!(mem.read_bytes(0x1000, 0x10).unwrap(), vec![0u8; 0x10]);
}

#[test]
fn memory_untouched_bytes_survive_write() {
    let mut mem = GuestMemoryMap::new(&vec![(0x1000, 0x100)]).unwrap();
    assert!(mem.write_slice(&[0x11u8; 0x100], 0x1000).is_ok());
    assert!(mem.write_slice(&[0x22u8; 4], 0x1040).is_ok());
    assert_eq!(mem.read_bytes(0x103c, 4).unwrap(), vec![0x11u8; 4]);
    assert_eq!(mem.read_bytes(0x1040, 4).unwrap(), vec![0x22u8; 4]);
    assert_eq!(mem.read_bytes(0x1044, 4).unwrap(), vec![0x11u8; 4]);
}

#[test]
fn memory_overlapping_layout_rejected() {
    assert_eq!(
        GuestMemoryMap::new(&vec![(0x1000, 0x1000), (0x1800, 0x1000)]).unwrap_err(),
        MemoryError::BadLayout
    );
}

#[test]
fn memory_unsorted_layout_rejected() {
    assert_eq!(
        GuestMemoryMap::new(&vec![(0x3000, 0x1000), (0x1000, 0x1000)]).unwrap_err(),
        MemoryError::BadLayout
    );
}

#[test]
fn memory_empty_region_rejected() {
    assert_eq!(
        GuestMemoryMap::new(&vec![(0x1000, 0)]).unwrap_err(),
        MemoryError::BadLayout
    );
}

#[test]
fn arch_regions_small_memory_is_one_region() {
    let mib512: u64 = 512 << 20;
    let regions = arch_memory_regions(mib512);
    assert_eq!(regions, vec![(0, mib512)]);
}

#[test]
fn arch_regions_large_memory_splits_at_gap() {
    let size: u64 = 8 << 30;
    let regions = arch_memory_regions(size);
    assert_eq!(
        regions,
        vec![
            (0, MEM_32BIT_GAP_START),
            (FIRST_ADDR_PAST_32BITS, size - MEM_32BIT_GAP_START),
        ]
    );
    // The backend's reserved task-state address stays uncovered.
    for (base, len) in regions {
        assert!(!(base <= KVM_TSS_ADDRESS && KVM_TSS_ADDRESS < base + len));
    }
}

#[test]
fn memory_slots_are_dense_in_region_order() {
    let slots = kvm_memory_slots(&vec![(0x1000, 0x1000), (0x10_0000, 0x2000)]);
    assert_eq!(slots.len(), 2);
    assert_eq!(slots[0].slot, 0);
    assert_eq!(slots[0].guest_addr, 0x1000);
    assert_eq!(slots[0].size, 0x1000);
    assert_eq!(slots[1].slot, 1);
    assert_eq!(slots[1].guest_addr, 0x10_0000);
    assert_eq!(slots[1].size, 0x2000);
}

#[test]
fn guest_memory_bytes_shifts_and_guards() {
    assert_eq!(guest_memory_bytes(512), Some(512 << 20));
    assert_eq!(guest_memory_bytes(1), Some(1 << 20));
    assert_eq!(guest_memory_bytes(0), None);
    assert_eq!(guest_memory_bytes(u64::MAX), None);
}
