//! Shared virtio device-model items: device type names, activation results
//! and the errors a device's event handler can raise.

use vstd::prelude::*;

verus! {

/// Why activating a virtio device failed.
#[derive(Debug)]
pub enum ActivateError {
    /// The readiness-polling registration failed.
    EpollCtl(std::io::Error),
    /// The device refused to activate.
    BadActivate,
}

/// The result of activating a virtio device.
pub type ActivateResult = std::result::Result<(), ActivateError>;

/// Identifies an event a device's handler reacts to.
pub type DeviceEventT = u16;

/// The virtio device types the monitor knows, by their registry identity.
#[derive(Clone, Copy, Debug, PartialEq, Eq, Structural)]
#[allow(non_camel_case_types)]
pub enum VirtioDeviceType {
    TYPE_NET,
    TYPE_BLOCK,
    TYPE_RNG,
    TYPE_BALLOON,
    TYPE_9P,
    TYPE_GPU,
    TYPE_INPUT,
    TYPE_VSOCK,
}

impl VirtioDeviceType {
    /// The device type's number in the virtio device registry.
    pub fn device_id(&self) -> (r: u32)
        ensures
            r == match *self {
                VirtioDeviceType::TYPE_NET => 1u32,
                VirtioDeviceType::TYPE_BLOCK => 2u32,
                VirtioDeviceType::TYPE_RNG => 4u32,
                VirtioDeviceType::TYPE_BALLOON => 5u32,
                VirtioDeviceType::TYPE_9P => 9u32,
                VirtioDeviceType::TYPE_GPU => 16u32,
                VirtioDeviceType::TYPE_INPUT => 18u32,
                VirtioDeviceType::TYPE_VSOCK => 19u32,
            },
    {
        match *self {
            VirtioDeviceType::TYPE_NET => 1,
            VirtioDeviceType::TYPE_BLOCK => 2,
            VirtioDeviceType::TYPE_RNG => 4,
            VirtioDeviceType::TYPE_BALLOON => 5,
            VirtioDeviceType::TYPE_9P => 9,
            VirtioDeviceType::TYPE_GPU => 16,
            VirtioDeviceType::TYPE_INPUT => 18,
            VirtioDeviceType::TYPE_VSOCK => 19,
        }
    }

    /// The device type's display name, or `None` for a type that has none.
    pub fn display_name(&self) -> (r: Option<&'static str>)
        ensures
            match *self {
                VirtioDeviceType::TYPE_NET => r matches Some(s) && s@ == "net"@,
                VirtioDeviceType::TYPE_BLOCK => r matches Some(s) && s@ == "block"@,
                VirtioDeviceType::TYPE_RNG => r matches Some(s) && s@ == "rng"@,
                VirtioDeviceType::TYPE_BALLOON => r matches Some(s) && s@ == "balloon"@,
                VirtioDeviceType::TYPE_9P => r matches Some(s) && s@ == "9p"@,
                VirtioDeviceType::TYPE_GPU => r matches Some(s) && s@ == "gpu"@,
                VirtioDeviceType::TYPE_VSOCK => r matches Some(s) && s@ == "vsock"@,
                VirtioDeviceType::TYPE_INPUT => r is None,
            },
    {
        match *self {
            VirtioDeviceType::TYPE_NET => Some("net"),
            VirtioDeviceType::TYPE_BLOCK => Some("block"),
            VirtioDeviceType::TYPE_RNG => Some("rng"),
            VirtioDeviceType::TYPE_BALLOON => Some("balloon"),
            VirtioDeviceType::TYPE_9P => Some("9p"),
            VirtioDeviceType::TYPE_GPU => Some("gpu"),
            VirtioDeviceType::TYPE_VSOCK => Some("vsock"),
            VirtioDeviceType::TYPE_INPUT => None,
        }
    }
}

/// Errors a virtio device's event handler can raise.
#[derive(Debug)]
pub enum Error {
    /// Reading from a queue event failed.
    FailedReadingQueue { event_type: &'static str, underlying: std::io::Error },
    /// Reading from the network tap failed.
    FailedReadTap,
    /// Signalling the used queue failed.
    FailedSignalingUsedQueue(std::io::Error),
    /// The event needed a payload and none came.
    PayloadExpected,
    /// The device does not know the event.
    UnknownEvent { device: &'static str, event: DeviceEventT },
    /// Any other I/O failure.
    IoError(std::io::Error),
}

} // verus!
