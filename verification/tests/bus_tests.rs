use vmm::bus::{BusError, IoBus};

#[test]
fn bus_insert_and_resolve() {
    let mut bus = IoBus::new();
    assert!(bus.insert(7, 0x3f8, 0x8).is_ok());
    assert_eq!(bus.resolve(0x3f8), Some((7, 0)));
    assert_eq!(bus.resolve(0x3ff), Some((7, 7)));
    assert_eq!(bus.resolve(0x400), None);
    assert_eq!(bus.resolve(0x3f7), None);
}

#[test]
fn bus_overlap_rejected_and_old_entry_kept() {
    let mut bus = IoBus::new();
    assert!(bus.insert(1, 0x100, 0x10).is_ok());
    assert_eq!(bus.insert(2, 0x108, 0x10), Err(BusError::Overlap));
    // Lookups in [0x100, 0x110) still return device 1.
    for port in 0x100..0x110u64 {
        assert_eq!(bus.resolve(port), Some((1, port - 0x100)));
    }
    assert_eq!(bus.resolve(0x110), None);
}

#[test]
fn bus_empty_range_rejected() {
    let mut bus = IoBus::new();
    assert_eq!(bus.insert(1, 0x100, 0), Err(BusError::Overlap));
}

#[test]
fn bus_range_past_port_space_rejected() {
    let mut bus = IoBus::new();
    assert_eq!(bus.insert(1, u64::MAX - 1, 4), Err(BusError::Overlap));
}

#[test]
fn bus_keeps_disjoint_ranges_sorted() {
    let mut bus = IoBus::new();
    assert!(bus.insert(3, 0x300, 0x10).is_ok());
    assert!(bus.insert(1, 0x100, 0x10).is_ok());
    assert!(bus.insert(2, 0x200, 0x10).is_ok());
    assert_eq!(bus.resolve(0x105), Some((1, 5)));
    assert_eq!(bus.resolve(0x20f), Some((2, 0xf)));
    assert_eq!(bus.resolve(0x300), Some((3, 0)));
    assert_eq!(bus.resolve(0x150), None);
}

#[test]
fn bus_adjacent_ranges_accepted() {
    let mut bus = IoBus::new();
    assert!(bus.insert(1, 0x100, 0x10).is_ok());
    assert!(bus.insert(2, 0x110, 0x10).is_ok());
    assert_eq!(bus.resolve(0x10f), Some((1, 0xf)));
    assert_eq!(bus.resolve(0x110), Some((2, 0)));
}

#[test]
fn bus_overlaps_existing_reports() {
    let mut bus = IoBus::new();
    assert!(bus.insert(1, 0x100, 0x10).is_ok());
    assert!(bus.overlaps_existing(0x10f, 1));
    assert!(!bus.overlaps_existing(0x110, 1));
    assert!(!bus.overlaps_existing(0xff, 1));
}
