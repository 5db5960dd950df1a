//! The vCPU exit loop's decisions: what each backend exit reason means for
//! the monitor, and which run failures are worth retrying.
//!
//! The backend's run primitive and its thread live outside the library;
//! they hand every exit in here as a plain value and perform the action
//! handed back.

use vstd::prelude::*;
use crate::bus::{IoBus, entry_contains};

verus! {

/// Linux errno for "resource temporarily unavailable".
pub const ERRNO_AGAIN: i32 = 11;

/// Linux errno for "interrupted system call".
pub const ERRNO_INTR: i32 = 4;

/// A backend exit reason, as the vCPU loop sees it: port accesses carry the
/// port and the data width or bytes, memory-mapped accesses the address.
#[derive(Debug)]
pub enum VcpuExit {
    /// The guest read `len` bytes from a port; a device must supply them.
    IoIn(u16, usize),
    /// The guest wrote the bytes to a port.
    IoOut(u16, Vec<u8>),
    /// The guest read memory-mapped I/O; nothing handles it.
    MmioRead(u64),
    /// The guest wrote memory-mapped I/O; nothing handles it.
    MmioWrite(u64, Vec<u8>),
    /// The guest halted; it may resume on an interrupt.
    Hlt,
    Shutdown,
    FailEntry,
    InternalError,
    Intr,
    /// Any exit the loop does not distinguish.
    Unknown,
}

/// What the vCPU loop does with one exit: forward a port access to the
/// owning device, log an unhandled access or a halt, or nothing. Every
/// action keeps the loop running.
#[derive(Debug)]
pub enum VcpuAction {
    /// Forward a port read of `len` bytes to the device at `offset` inside
    /// its range.
    DeviceRead { device: u32, offset: u64, len: usize },
    /// Forward a port write of `data` to the device at `offset` inside its
    /// range.
    DeviceWrite { device: u32, offset: u64, data: Vec<u8> },
    /// Log the unhandled memory-mapped read and go on.
    LogMmioRead { addr: u64 },
    /// Log the unhandled memory-mapped write and go on.
    LogMmioWrite { addr: u64 },
    /// Log the halt and go on; an interrupt may resume the guest.
    LogHlt,
    /// Nothing to do; go on running.
    Nothing,
}

/// Decides what one backend exit means against the I/O bus: port accesses
/// resolve to the owning device and the offset inside its range, accesses
/// to unclaimed ports are dropped, memory-mapped accesses and halts are
/// logged, and every other exit is a no-op.
pub fn exit_action(bus: &IoBus, exit: VcpuExit) -> (r: VcpuAction)
    requires
        bus.wf(),
    ensures
        match exit {
            VcpuExit::IoIn(port, len) => match r {
                VcpuAction::DeviceRead { device, offset, len: l } => {
                    &&& l == len
                    &&& exists|i: int|
                        0 <= i < bus@.len() && entry_contains(#[trigger] bus@[i], port as u64)
                            && bus@[i].device == device && offset == port as u64 - bus@[i].base
                },
                VcpuAction::Nothing => forall|i: int|
                    0 <= i < bus@.len() ==> !entry_contains(#[trigger] bus@[i], port as u64),
                _ => false,
            },
            VcpuExit::IoOut(port, data) => match r {
                VcpuAction::DeviceWrite { device, offset, data: d } => {
                    &&& d == data
                    &&& exists|i: int|
                        0 <= i < bus@.len() && entry_contains(#[trigger] bus@[i], port as u64)
                            && bus@[i].device == device && offset == port as u64 - bus@[i].base
                },
                VcpuAction::Nothing => forall|i: int|
                    0 <= i < bus@.len() ==> !entry_contains(#[trigger] bus@[i], port as u64),
                _ => false,
            },
            VcpuExit::MmioRead(addr) => r matches VcpuAction::LogMmioRead { addr: a } && a == addr,
            VcpuExit::MmioWrite(addr, _) => r matches VcpuAction::LogMmioWrite { addr: a } && a
                == addr,
            VcpuExit::Hlt => r matches VcpuAction::LogHlt,
            _ => r matches VcpuAction::Nothing,
        },
{
    match exit {
        VcpuExit::IoIn(port, len) => match bus.resolve(port as u64) {
            Some((device, offset)) => VcpuAction::DeviceRead { device, offset, len },
            None => VcpuAction::Nothing,
        },
        VcpuExit::IoOut(port, data) => match bus.resolve(port as u64) {
            Some((device, offset)) => VcpuAction::DeviceWrite { device, offset, data },
            None => VcpuAction::Nothing,
        },
        VcpuExit::MmioRead(addr) => VcpuAction::LogMmioRead { addr },
        VcpuExit::MmioWrite(addr, _) => VcpuAction::LogMmioWrite { addr },
        VcpuExit::Hlt => VcpuAction::LogHlt,
        VcpuExit::Shutdown => VcpuAction::Nothing,
        VcpuExit::FailEntry => VcpuAction::Nothing,
        VcpuExit::InternalError => VcpuAction::Nothing,
        VcpuExit::Intr => VcpuAction::Nothing,
        VcpuExit::Unknown => VcpuAction::Nothing,
    }
}

/// Whether a failed backend run is transient — the guest was merely
/// interrupted or asked to try again — and the loop retries, rather than
/// ending the vCPU thread.
pub fn run_error_is_transient(errno: i32) -> (r: bool)
    ensures
        r <==> (errno == ERRNO_AGAIN || errno == ERRNO_INTR),
{
    errno == ERRNO_AGAIN || errno == ERRNO_INTR
}

} // verus!
