//! The rendezvous barrier: a reusable multi-party synchronization point sized
//! to the configured concurrency level, released when the last worker
//! arrives. This is the model of the one piece of shared mutable state the
//! workers synchronize on; the driver backs it with a native awaitable
//! barrier of the same size.

use vstd::prelude::*;

verus! {

/// A rendezvous point for `size` parties.
pub struct Barrier {
    /// The number of parties the barrier waits for.
    pub size: u32,
    /// How many parties have arrived so far.
    pub arrived: u32,
}

impl Barrier {
    /// Well-formedness: at least one party, and never more arrivals than
    /// parties.
    pub open spec fn wf(self) -> bool {
        &&& self.size >= 1
        &&& self.arrived <= self.size
    }

    /// Whether every party has arrived, so all of them are released.
    pub open spec fn spec_released(self) -> bool {
        self.arrived == self.size
    }

    /// A fresh barrier for `size` parties.
    pub fn new(size: u32) -> (b: Barrier)
        requires
            size >= 1,
        ensures
            b.wf(),
            b.size == size,
            b.arrived == 0,
    {
        Barrier { size, arrived: 0 }
    }

    /// One party arrives. The result says whether this arrival was the last,
    /// releasing every waiting party; exactly the arrival that completes the
    /// count releases the barrier.
    pub fn arrive(&mut self) -> (released: bool)
        requires
            old(self).wf(),
            old(self).arrived < old(self).size,
        ensures
            final(self).wf(),
            final(self).size == old(self).size,
            final(self).arrived == old(self).arrived + 1,
            released == final(self).spec_released(),
    {
        self.arrived = self.arrived + 1;
        self.arrived == self.size
    }
}

} // verus!
