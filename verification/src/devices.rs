//! The device manager: the emulated legacy devices' bus registration and
//! their notification channels.
//!
//! The devices themselves (serial UART, i8042 keyboard controller, PCI root
//! configuration space) live in an arena outside the library and are
//! addressed through stable handles; the manager owns the I/O bus that maps
//! their fixed port ranges to those handles, and the two event channels the
//! monitor wires up: *serial_evt*, raised when the UART asserts its
//! interrupt line, and *exit_evt*, raised when the guest asks to reset.

use vstd::prelude::*;
use crate::bus::{BusEntry, BusError, IoBus, ranges_overlap};
use crate::errors::Error;

verus! {

/// Handle of the serial UART in the device arena.
pub const SERIAL_DEVICE: u32 = 0;

/// Handle of the i8042 keyboard controller in the device arena.
pub const I8042_DEVICE: u32 = 1;

/// Handle of the PCI root configuration space in the device arena.
pub const PCI_DEVICE: u32 = 2;

/// First port of the serial UART's 8250-compatible register window.
pub const SERIAL_PORT_BASE: u64 = 0x3f8;

/// Width of the serial UART's register window.
pub const SERIAL_PORT_LEN: u64 = 0x8;

/// First port of the i8042 window.
pub const I8042_PORT_BASE: u64 = 0x61;

/// Width of the i8042 window.
pub const I8042_PORT_LEN: u64 = 0x4;

/// First port of the PCI root configuration window (the ADDRESS/DATA pair).
pub const PCI_CONFIG_PORT_BASE: u64 = 0xcf8;

/// Width of the PCI root configuration window.
pub const PCI_CONFIG_PORT_LEN: u64 = 0x8;

/// Interrupt line of the serial UART.
pub const SERIAL_IRQ: u32 = 4;

/// Declares the outside event-channel type (a kernel event counter) so the
/// manager can own the two channels; the library never reads one.
#[verifier::external_type_specification]
#[verifier::external_body]
pub struct ExEventFd(vmm_sys_util::eventfd::EventFd);

/// Relies on vmm_sys_util::eventfd::EventFd::new with the non-blocking
/// flag: a fresh kernel event counter starting at zero.
#[verifier::external_body]
fn eventfd_new() -> (r: Result<vmm_sys_util::eventfd::EventFd, std::io::Error>)
{
    vmm_sys_util::eventfd::EventFd::new(vmm_sys_util::eventfd::EFD_NONBLOCK)
}

/// The bus entry of the serial UART.
pub open spec fn serial_entry() -> BusEntry {
    BusEntry { base: SERIAL_PORT_BASE, len: SERIAL_PORT_LEN, device: SERIAL_DEVICE }
}

/// The bus entry of the i8042 controller.
pub open spec fn i8042_entry() -> BusEntry {
    BusEntry { base: I8042_PORT_BASE, len: I8042_PORT_LEN, device: I8042_DEVICE }
}

/// The bus entry of the PCI root configuration space.
pub open spec fn pci_entry() -> BusEntry {
    BusEntry { base: PCI_CONFIG_PORT_BASE, len: PCI_CONFIG_PORT_LEN, device: PCI_DEVICE }
}

/// A registered range collides with one of the three fixed device ranges.
pub open spec fn collides(e: BusEntry) -> bool {
    ||| ranges_overlap(e.base, e.len, SERIAL_PORT_BASE, SERIAL_PORT_LEN)
    ||| ranges_overlap(e.base, e.len, I8042_PORT_BASE, I8042_PORT_LEN)
    ||| ranges_overlap(e.base, e.len, PCI_CONFIG_PORT_BASE, PCI_CONFIG_PORT_LEN)
}

/// Owns the I/O bus and the two notification channels of the legacy
/// devices.
pub struct DeviceManager {
    /// The I/O port bus mapping device ranges to arena handles.
    pub io_bus: IoBus,
    /// Raised by the serial UART to assert its interrupt line.
    pub serial_evt: vmm_sys_util::eventfd::EventFd,
    /// Raised by the i8042 when the guest requests a reset.
    pub exit_evt: vmm_sys_util::eventfd::EventFd,
}

impl DeviceManager {
    /// A fresh manager: an empty bus and two new event channels. Fails only
    /// when the host refuses an event channel.
    pub fn new() -> (r: Result<DeviceManager, Error>)
        ensures
            match r {
                Ok(dm) => dm.io_bus@.len() == 0 && dm.io_bus.wf(),
                Err(e) => e matches Error::EventFd(_),
            },
    {
        let serial_evt = match eventfd_new() {
            Ok(e) => e,
            Err(e) => {
                return Err(Error::EventFd(e));
            },
        };
        let exit_evt = match eventfd_new() {
            Ok(e) => e,
            Err(e) => {
                return Err(Error::EventFd(e));
            },
        };
        Ok(DeviceManager { io_bus: IoBus::new(), serial_evt, exit_evt })
    }

    /// Registers the three legacy devices on the bus at their fixed port
    /// ranges.
    ///
    /// Succeeds exactly when no already registered range collides with the
    /// fixed ranges; the bus then holds the three device entries besides
    /// everything it held before. On failure the bus is unchanged.
    pub fn register_devices(&mut self) -> (r: Result<(), Error>)
        requires
            old(self).io_bus.wf(),
        ensures
            final(self).io_bus.wf(),
            final(self).serial_evt == old(self).serial_evt,
            final(self).exit_evt == old(self).exit_evt,
            match r {
                Ok(()) => {
                    &&& forall|i: int|
                        0 <= i < old(self).io_bus@.len() ==> !collides(
                            #[trigger] old(self).io_bus@[i],
                        )
                    &&& final(self).io_bus@.len() == old(self).io_bus@.len() + 3
                    &&& final(self).io_bus@.contains(serial_entry())
                    &&& final(self).io_bus@.contains(i8042_entry())
                    &&& final(self).io_bus@.contains(pci_entry())
                    &&& forall|e: BusEntry|
                        old(self).io_bus@.contains(e) ==> final(self).io_bus@.contains(e)
                },
                Err(Error::BusError(BusError::Overlap)) => {
                    &&& final(self).io_bus == old(self).io_bus
                    &&& exists|i: int|
                        0 <= i < old(self).io_bus@.len() && collides(
                            #[trigger] old(self).io_bus@[i],
                        )
                },
                Err(_) => false,
            },
    {
        // Refuse the registration outright when any fixed range collides,
        // leaving the bus untouched.
        if self.io_bus.overlaps_existing(SERIAL_PORT_BASE, SERIAL_PORT_LEN)
            || self.io_bus.overlaps_existing(I8042_PORT_BASE, I8042_PORT_LEN)
            || self.io_bus.overlaps_existing(PCI_CONFIG_PORT_BASE, PCI_CONFIG_PORT_LEN) {
            return Err(Error::BusError(BusError::Overlap));
        }
        let ghost bus0 = self.io_bus@;
        let r1 = self.io_bus.insert(SERIAL_DEVICE, SERIAL_PORT_BASE, SERIAL_PORT_LEN);
        proof {
            if r1 is Err {
                assert(false);
            }
        }
        let ghost bus1 = self.io_bus@;
        proof {
            lemma_insert_keeps(bus0, bus1, serial_entry());
        }
        let r2 = self.io_bus.insert(I8042_DEVICE, I8042_PORT_BASE, I8042_PORT_LEN);
        proof {
            if r2 is Err {
                let i = choose|i: int|
                    0 <= i < bus1.len() && ranges_overlap(
                        #[trigger] bus1[i].base,
                        bus1[i].len,
                        I8042_PORT_BASE,
                        I8042_PORT_LEN,
                    );
                lemma_member_of_insert(bus0, bus1, serial_entry(), i);
                if bus1[i] != serial_entry() {
                    let j = choose|j: int| 0 <= j < bus0.len() && bus0[j] == bus1[i];
                    assert(!ranges_overlap(bus0[j].base, bus0[j].len, I8042_PORT_BASE,
                        I8042_PORT_LEN));
                }
                assert(false);
            }
        }
        let ghost bus2 = self.io_bus@;
        proof {
            lemma_insert_keeps(bus1, bus2, i8042_entry());
        }
        let r3 = self.io_bus.insert(PCI_DEVICE, PCI_CONFIG_PORT_BASE, PCI_CONFIG_PORT_LEN);
        proof {
            if r3 is Err {
                let i = choose|i: int|
                    0 <= i < bus2.len() && ranges_overlap(
                        #[trigger] bus2[i].base,
                        bus2[i].len,
                        PCI_CONFIG_PORT_BASE,
                        PCI_CONFIG_PORT_LEN,
                    );
                lemma_member_of_insert(bus1, bus2, i8042_entry(), i);
                if bus2[i] != i8042_entry() {
                    let j = choose|j: int| 0 <= j < bus1.len() && bus1[j] == bus2[i];
                    lemma_member_of_insert(bus0, bus1, serial_entry(), j);
                }
                assert(false);
            }
            let bus3 = self.io_bus@;
            lemma_insert_keeps(bus2, bus3, pci_entry());
            assert forall|e: BusEntry| bus0.contains(e) implies bus3.contains(e) by {
                assert(bus1.contains(e));
                assert(bus2.contains(e));
            }
        }
        Ok(())
    }
}

/// After a bus insertion, the new entry and every old entry are present.
proof fn lemma_insert_keeps(pre: Seq<BusEntry>, post: Seq<BusEntry>, e: BusEntry)
    requires
        exists|k: int| 0 <= k <= pre.len() && post == pre.insert(k, e),
    ensures
        post.len() == pre.len() + 1,
        post.contains(e),
        forall|x: BusEntry| pre.contains(x) ==> post.contains(x),
{
    let k = choose|k: int| 0 <= k <= pre.len() && post == pre.insert(k, e);
    assert(post[k] == e);
    assert forall|x: BusEntry| pre.contains(x) implies post.contains(x) by {
        let i = choose|i: int| 0 <= i < pre.len() && pre[i] == x;
        if i < k {
            assert(post[i] == x);
        } else {
            assert(post[i + 1] == x);
        }
    }
}

/// Every entry of the inserted bus is the new entry or stood there before.
proof fn lemma_member_of_insert(pre: Seq<BusEntry>, post: Seq<BusEntry>, e: BusEntry, i: int)
    requires
        exists|k: int| 0 <= k <= pre.len() && post == pre.insert(k, e),
        0 <= i < post.len(),
    ensures
        post[i] == e || pre.contains(post[i]),
{
    let k = choose|k: int| 0 <= k <= pre.len() && post == pre.insert(k, e);
    if i < k {
        assert(post[i] == pre[i]);
    } else if i > k {
        assert(post[i] == pre[i - 1]);
    }
}

} // verus!
