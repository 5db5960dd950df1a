//! Errors of the monitor core.
//!
//! One kind per failure site, so a caller can tell which step of VM
//! construction, kernel loading or vCPU handling went wrong. Kinds that
//! carry a host error keep it as the standard I/O error the call produced.

use vstd::prelude::*;

verus! {

/// Declares the standard I/O error type so error kinds can carry it; the
/// monitor never looks inside one, it only passes it to the caller.
#[verifier::external_type_specification]
#[verifier::external_body]
pub struct ExIoError(std::io::Error);

/// Errors of VM construction, kernel loading and vCPU handling.
#[derive(Debug)]
pub enum Error {
    /// Cannot open the VM file descriptor.
    VmFd(std::io::Error),
    /// Cannot create the backend VM.
    VmCreate(std::io::Error),
    /// Cannot set the VM up.
    VmSetup(std::io::Error),
    /// Cannot open the kernel image.
    KernelFile(std::io::Error),
    /// Guest memory could not be built from the requested layout.
    GuestMemory(crate::memory::MemoryError),
    /// Cannot load the kernel into guest memory.
    KernelLoad,
    /// Cannot assemble or place the kernel command line.
    CmdLine,
    /// Cannot open a vCPU file descriptor.
    VcpuFd(std::io::Error),
    /// Running a vCPU failed.
    VcpuRun(std::io::Error),
    /// Cannot spawn a vCPU thread.
    VcpuSpawn(std::io::Error),
    /// Cannot set the local interrupt configuration.
    LocalIntConfiguration,
    /// Cannot configure the model-specific registers.
    MSRSConfiguration,
    /// Cannot configure the general-purpose registers.
    REGSConfiguration,
    /// Cannot configure the special registers.
    SREGSConfiguration,
    /// Cannot configure the floating-point state.
    FPUConfiguration,
    /// The backend refused the CPUID image.
    SetSupportedCpusFailed(std::io::Error),
    /// Cannot create an event channel.
    EventFd(std::io::Error),
    /// Cannot create the device manager.
    DeviceManager,
    /// Cannot register a device range on the I/O bus.
    BusError(crate::bus::BusError),
    /// Cannot configure the event poller.
    EpollError(std::io::Error),
    /// Reading host stdin into the serial console failed.
    Serial(std::io::Error),
    /// Cannot register the serial interrupt channel.
    Irq(std::io::Error),
}

} // verus!
