use vmm::virtio::VirtioDeviceType;

#[test]
fn virtio_device_ids_match_registry() {
    assert_eq!(VirtioDeviceType::TYPE_NET.device_id(), 1);
    assert_eq!(VirtioDeviceType::TYPE_BLOCK.device_id(), 2);
    assert_eq!(VirtioDeviceType::TYPE_RNG.device_id(), 4);
    assert_eq!(VirtioDeviceType::TYPE_BALLOON.device_id(), 5);
    assert_eq!(VirtioDeviceType::TYPE_9P.device_id(), 9);
    assert_eq!(VirtioDeviceType::TYPE_GPU.device_id(), 16);
    assert_eq!(VirtioDeviceType::TYPE_INPUT.device_id(), 18);
    assert_eq!(VirtioDeviceType::TYPE_VSOCK.device_id(), 19);
}

#[test]
fn virtio_display_names() {
    assert_eq!(VirtioDeviceType::TYPE_NET.display_name(), Some("net"));
    assert_eq!(VirtioDeviceType::TYPE_BLOCK.display_name(), Some("block"));
    assert_eq!(VirtioDeviceType::TYPE_RNG.display_name(), Some("rng"));
    assert_eq!(VirtioDeviceType::TYPE_BALLOON.display_name(), Some("balloon"));
    assert_eq!(VirtioDeviceType::TYPE_9P.display_name(), Some("9p"));
    assert_eq!(VirtioDeviceType::TYPE_GPU.display_name(), Some("gpu"));
    assert_eq!(VirtioDeviceType::TYPE_VSOCK.display_name(), Some("vsock"));
    assert_eq!(VirtioDeviceType::TYPE_INPUT.display_name(), None);
}
