//! Core of a minimal user-space hypervisor monitor.
//!
//! The verified library holds the logic of the monitor: the guest-physical
//! memory map, the I/O port bus, the CPUID patching policy, the event
//! poller's dispatch table, and the decision functions of the vCPU exit
//! loop and the monitor event loop. The backend syscalls (the
//! virtualization facility, epoll, eventfds) stand behind trusted wrappers
//! or in the unverified shell around the library.

pub mod bus;
pub mod config;
pub mod cpuid;
pub mod devices;
pub mod errors;
pub mod memory;
pub mod poller;
pub mod rendezvous;
pub mod vcpu;
pub mod virtio;
