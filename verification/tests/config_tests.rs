use vmm::config::{
    default_cmdline, VmConfig, CMDLINE_MAX_SIZE, CMDLINE_OFFSET, DEFAULT_MEMORY, DEFAULT_VCPUS,
};
use vmm::errors::Error;

#[test]
fn config_new_takes_defaults() {
    let c = VmConfig::new("bzImage", 2, 1024).unwrap();
    assert_eq!(c.kernel_path, "bzImage");
    assert_eq!(c.vcpu_count, 2);
    assert_eq!(c.memory_size, 1024);
    assert_eq!(c.cmdline_addr, CMDLINE_OFFSET);
    assert_eq!(c.cmdline.as_deref(), Some(default_cmdline()));
}

#[test]
fn config_default_values() {
    let c = VmConfig::default();
    assert_eq!(c.kernel_path, "");
    assert_eq!(c.vcpu_count, DEFAULT_VCPUS);
    assert_eq!(c.memory_size, DEFAULT_MEMORY);
    assert_eq!(c.cmdline_addr, 0x20000);
    assert_eq!(
        c.cmdline.as_deref(),
        Some(
            "console=ttyS0 reboot=k panic=1 nomodules i8042.noaux i8042.nomux i8042.nopnp i8042.dumbkbd"
        )
    );
}

#[test]
fn cmdline_bytes_are_nul_terminated() {
    let c = VmConfig::default();
    let bytes = c.cmdline_bytes().unwrap();
    let s = default_cmdline().as_bytes();
    assert_eq!(bytes.len(), s.len() + 1);
    assert_eq!(&bytes[..s.len()], s);
    assert_eq!(bytes[s.len()], 0);
}

#[test]
fn cmdline_with_interior_nul_is_refused() {
    let mut c = VmConfig::default();
    c.cmdline = Some(String::from_utf8(vec![b'a', 0, b'b']).unwrap());
    assert!(matches!(c.cmdline_bytes(), Err(Error::CmdLine)));
}

#[test]
fn missing_cmdline_is_refused() {
    let mut c = VmConfig::default();
    c.cmdline = None;
    assert!(matches!(c.cmdline_bytes(), Err(Error::CmdLine)));
}

#[test]
fn oversized_cmdline_is_refused() {
    let mut c = VmConfig::default();
    // Exactly at the bound (terminator included) still fits.
    c.cmdline = Some(String::from_utf8(vec![b'a'; CMDLINE_MAX_SIZE - 1]).unwrap());
    assert!(c.cmdline_bytes().is_ok());
    c.cmdline = Some(String::from_utf8(vec![b'a'; CMDLINE_MAX_SIZE]).unwrap());
    assert!(matches!(c.cmdline_bytes(), Err(Error::CmdLine)));
}
