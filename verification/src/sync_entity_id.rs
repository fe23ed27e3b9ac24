//! The network-wide identity of a shared entity.

use crate::random::random_u64;
use vstd::prelude::*;

verus! {

/// Identifies one shared entity on every client that holds a copy of it.
#[derive(Debug, Clone, Copy, PartialEq, Eq, Structural)]
pub struct SyncEntityId(u64);

impl SyncEntityId {
    /// The number behind this identifier.
    pub closed spec fn raw(self) -> u64 {
        self.0
    }

    /// The identifier with the number `bits`, as read back from the wire.
    pub fn from_bits(bits: u64) -> (id: Self)
        ensures
            id.raw() == bits,
    {
        SyncEntityId(bits)
    }

    /// The number behind this identifier, as written to the wire.
    pub fn to_bits(&self) -> (bits: u64)
        ensures
            bits == self.raw(),
    {
        self.0
    }

    /// A fresh random identifier.
    pub fn new() -> (id: Self) {
        SyncEntityId(random_u64())
    }

    /// The mirrored identifier: the number counted down from `u64::MAX`.
    pub fn counterpart(&self) -> (mirrored: Self)
        ensures
            mirrored.raw() == u64::MAX - self.raw(),
    {
        SyncEntityId(u64::MAX - self.0)
    }
}

impl Default for SyncEntityId {
    /// A fresh random identifier.
    fn default() -> (id: Self) {
        SyncEntityId::new()
    }
}

/// Mirroring an identifier twice gives it back.
pub proof fn lemma_counterpart_involution(id: SyncEntityId, mirrored: SyncEntityId, back: SyncEntityId)
    requires
        mirrored.raw() == u64::MAX - id.raw(),
        back.raw() == u64::MAX - mirrored.raw(),
    ensures
        back == id,
{
    assert(back.0 == id.0);
}

} // verus!
