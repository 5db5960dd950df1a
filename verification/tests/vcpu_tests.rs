use vmm::devices::{DeviceManager, I8042_DEVICE, SERIAL_DEVICE};
use vmm::rendezvous::Rendezvous;
use vmm::vcpu::{
    exit_action, run_error_is_transient, VcpuAction, VcpuExit, ERRNO_AGAIN, ERRNO_INTR,
};

fn registered_manager() -> DeviceManager {
    let mut dm = DeviceManager::new().unwrap();
    dm.register_devices().unwrap();
    dm
}

#[test]
fn exit_serial_write_goes_to_serial_device() {
    // The hello-port program's first exit: one byte out on port 0x3f8.
    let dm = registered_manager();
    let action = exit_action(&dm.io_bus, VcpuExit::IoOut(0x3f8, vec![b'5']));
    match action {
        VcpuAction::DeviceWrite { device, offset, data } => {
            assert_eq!(device, SERIAL_DEVICE);
            assert_eq!(offset, 0);
            assert_eq!(data, vec![b'5']);
        }
        other => panic!("unexpected action {:?}", other),
    }
}

#[test]
fn exit_port_read_goes_to_owning_device_with_offset() {
    let dm = registered_manager();
    let action = exit_action(&dm.io_bus, VcpuExit::IoIn(0x3fd, 1));
    match action {
        VcpuAction::DeviceRead { device, offset, len } => {
            assert_eq!(device, SERIAL_DEVICE);
            assert_eq!(offset, 5);
            assert_eq!(len, 1);
        }
        other => panic!("unexpected action {:?}", other),
    }
}

#[test]
fn exit_reset_byte_write_goes_to_i8042() {
    // A guest reset writes to port 0x64, offset 3 of the i8042 window.
    let dm = registered_manager();
    let action = exit_action(&dm.io_bus, VcpuExit::IoOut(0x64, vec![0xfe]));
    match action {
        VcpuAction::DeviceWrite { device, offset, data } => {
            assert_eq!(device, I8042_DEVICE);
            assert_eq!(offset, 3);
            assert_eq!(data, vec![0xfe]);
        }
        other => panic!("unexpected action {:?}", other),
    }
}

#[test]
fn exit_unclaimed_port_is_dropped() {
    let dm = registered_manager();
    assert!(matches!(
        exit_action(&dm.io_bus, VcpuExit::IoOut(0x80, vec![0])),
        VcpuAction::Nothing
    ));
    assert!(matches!(
        exit_action(&dm.io_bus, VcpuExit::IoIn(0x80, 1)),
        VcpuAction::Nothing
    ));
}

#[test]
fn exit_mmio_and_halt_are_logged_not_handled() {
    let dm = registered_manager();
    assert!(matches!(
        exit_action(&dm.io_bus, VcpuExit::MmioRead(0xfee0_0000)),
        VcpuAction::LogMmioRead { addr: 0xfee0_0000 }
    ));
    assert!(matches!(
        exit_action(&dm.io_bus, VcpuExit::MmioWrite(0xfee0_0000, vec![1])),
        VcpuAction::LogMmioWrite { addr: 0xfee0_0000 }
    ));
    assert!(matches!(exit_action(&dm.io_bus, VcpuExit::Hlt), VcpuAction::LogHlt));
    assert!(matches!(exit_action(&dm.io_bus, VcpuExit::Shutdown), VcpuAction::Nothing));
    assert!(matches!(exit_action(&dm.io_bus, VcpuExit::Intr), VcpuAction::Nothing));
}

#[test]
fn transient_run_errors_are_retried() {
    assert!(run_error_is_transient(ERRNO_AGAIN));
    assert!(run_error_is_transient(ERRNO_INTR));
    assert!(!run_error_is_transient(22));
    assert!(!run_error_is_transient(0));
}

#[test]
fn rendezvous_releases_exactly_at_full_count() {
    // One vCPU plus the monitor: two parties.
    let mut barrier = Rendezvous::for_vcpus(1);
    assert_eq!(barrier.parties, 2);
    assert!(!barrier.arrive());
    assert!(barrier.arrive());
}

#[test]
fn rendezvous_holds_until_monitor_arrives() {
    let mut barrier = Rendezvous::for_vcpus(3);
    assert_eq!(barrier.parties, 4);
    for _ in 0..3 {
        assert!(!barrier.arrive());
    }
    assert!(barrier.arrive());
}

#[test]
fn exit_sequence_of_hello_program() {
    // The 12-byte demo guest adds 2 and 3, then exits three times: '5' out
    // on the serial port, a newline out on the serial port, and a halt.
    let dm = registered_manager();
    let exits = vec![
        VcpuExit::IoOut(0x3f8, vec![b'5']),
        VcpuExit::IoOut(0x3f8, vec![b'\n']),
        VcpuExit::Hlt,
    ];
    let mut written: Vec<u8> = Vec::new();
    let mut halted = false;
    for exit in exits {
        match exit_action(&dm.io_bus, exit) {
            VcpuAction::DeviceWrite { device, offset, data } => {
                assert_eq!(device, SERIAL_DEVICE);
                assert_eq!(offset, 0);
                written.extend_from_slice(&data);
            }
            VcpuAction::LogHlt => halted = true,
            other => panic!("unexpected action {:?}", other),
        }
    }
    assert_eq!(written, vec![b'5', b'\n']);
    assert!(halted);
}
