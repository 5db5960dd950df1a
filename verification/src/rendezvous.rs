//! The start rendezvous: the counting logic of the barrier that holds every
//! vCPU back until all vCPU threads and the monitor have arrived.
//!
//! The host barrier primitive blocks threads; this model carries its count,
//! so the release condition is stated and checked: with `vcpu_count` vCPUs
//! the barrier has `vcpu_count + 1` parties, and it releases exactly when
//! the last of them arrives — never before. Device registration precedes
//! every arrival, so a released vCPU finds the bus populated.

use vstd::prelude::*;

verus! {

/// The rendezvous state: how many parties it waits for and how many have
/// arrived.
#[derive(Clone, Copy, Debug, PartialEq, Eq, Structural)]
pub struct Rendezvous {
    pub parties: usize,
    pub arrived: usize,
}

impl Rendezvous {
    /// The state is sound: never more arrivals than parties.
    pub open spec fn wf(self) -> bool {
        self.arrived <= self.parties
    }

    /// The barrier has released: every party has arrived.
    pub open spec fn released(self) -> bool {
        self.arrived == self.parties
    }

    /// The rendezvous for a VM start: one party per vCPU plus the monitor.
    pub fn for_vcpus(vcpu_count: u8) -> (r: Rendezvous)
        ensures
            r.parties == vcpu_count + 1,
            r.arrived == 0,
            r.wf(),
            !r.released(),
    {
        Rendezvous { parties: vcpu_count as usize + 1, arrived: 0 }
    }

    /// One party arrives. The result says whether this arrival released the
    /// barrier, which happens exactly when it is the last party.
    pub fn arrive(&mut self) -> (released: bool)
        requires
            old(self).wf(),
            !old(self).released(),
        ensures
            final(self).parties == old(self).parties,
            final(self).arrived == old(self).arrived + 1,
            final(self).wf(),
            released <==> final(self).released(),
            released <==> old(self).arrived + 1 == old(self).parties,
    {
        self.arrived = self.arrived + 1;
        self.arrived == self.parties
    }
}

/// The barrier never releases early: while any party is missing, it holds.
pub proof fn lemma_no_early_release(r: Rendezvous)
    requires
        r.wf(),
        r.arrived < r.parties,
    ensures
        !r.released(),
{
}

} // verus!
