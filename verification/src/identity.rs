//! The process's write-once worker-identity slot.
//!
//! The worker id is resolved lazily: the first caller performs the blocking
//! acquisition, every later caller reads the memoized value. The decision —
//! read the slot or go acquire — lives here; the surrounding process wraps
//! it in a single-initialization guard so that at most one acquisition is
//! ever in flight, and performs the network call itself.

use vstd::prelude::*;

verus! {

/// What a caller resolving the worker identity must do.
#[derive(Clone, Copy, PartialEq, Eq, Structural, Debug)]
pub enum ResolveOutcome {
    /// The identity is set; use this id.
    Ready {
        /// The memoized worker id.
        worker_id: u16,
    },
    /// The identity is not set yet; this caller must perform the one
    /// acquisition and install what the coordinator assigns.
    Acquire,
}

/// A single slot for the worker id: unset at process start, set at most
/// once, immutable thereafter.
#[derive(Clone, Copy, PartialEq, Eq, Structural, Debug)]
pub struct WorkerSlot {
    /// The assigned worker id, once acquisition has succeeded.
    pub assigned: Option<u16>,
}

impl WorkerSlot {
    /// The empty slot a process starts with.
    pub fn new() -> (r: WorkerSlot)
        ensures
            r.assigned is None,
    {
        WorkerSlot { assigned: None }
    }

    /// Decides what a resolving caller does: a set slot answers directly
    /// and never directs a second acquisition.
    pub fn resolve(&self) -> (r: ResolveOutcome)
        ensures
            r == match self.assigned {
                Some(worker_id) => ResolveOutcome::Ready { worker_id },
                None => ResolveOutcome::Acquire,
            },
    {
        match self.assigned {
            Some(worker_id) => ResolveOutcome::Ready { worker_id },
            None => ResolveOutcome::Acquire,
        }
    }

    /// Installs the acquired id into an empty slot. The slot is write-once:
    /// installation into a set slot is excluded, so the value a set slot
    /// holds never changes for the process lifetime.
    pub fn install(&mut self, worker_id: u16)
        requires
            old(self).assigned is None,
        ensures
            final(self).assigned == Some(worker_id),
    {
        self.assigned = Some(worker_id);
    }
}

/// Law (single acquisition): once an id is installed, resolution is a pure
/// read — no state the slot exposes ever directs another acquisition, so
/// exactly the one caller that found the slot empty contacts the
/// coordinator.
pub proof fn lemma_set_slot_never_acquires(s: WorkerSlot, worker_id: u16)
    requires
        s.assigned == Some(worker_id),
    ensures
        (match s.assigned {
            Some(id) => ResolveOutcome::Ready { worker_id: id },
            None => ResolveOutcome::Acquire,
        }) == (ResolveOutcome::Ready { worker_id }),
{
}

} // verus!
