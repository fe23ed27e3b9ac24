//! The identity of one running client (one program taking part).

use crate::random::random_u64;
use vstd::laws_eq::obeys_concrete_eq;
use vstd::prelude::*;
use vstd::std_specs::cmp::PartialEqSpecImpl;

verus! {

/// Identifies a client across all its connections.
#[derive(Debug, Clone, Copy, Hash, Eq)]
pub struct ClientId(u32);

impl ClientId {
    /// The number behind this identifier.
    pub closed spec fn raw(self) -> u32 {
        self.0
    }
}

impl ClientId {
    /// The identifier with the number `bits`, as read back from the wire.
    pub fn from_bits(bits: u32) -> (id: Self)
        ensures
            id.raw() == bits,
    {
        ClientId(bits)
    }

    /// The number behind this identifier, as written to the wire.
    pub fn to_bits(&self) -> (bits: u32)
        ensures
            bits == self.raw(),
    {
        self.0
    }
}

impl PartialEq for ClientId {
    fn eq(&self, other: &Self) -> (same: bool) {
        self.0 == other.0
    }
}

impl PartialEqSpecImpl for ClientId {
    open spec fn obeys_eq_spec() -> bool {
        true
    }

    open spec fn eq_spec(&self, other: &Self) -> bool {
        self.raw() == other.raw()
    }
}

impl Default for ClientId {
    /// A fresh random identifier.
    fn default() -> (id: Self) {
        let bits = random_u64();
        ClientId(bits as u32)
    }
}

/// Two client identifiers compare equal exactly when they are the same value.
pub broadcast proof fn lemma_client_id_concrete_eq()
    ensures
        #[trigger] obeys_concrete_eq::<ClientId>(),
{
    reveal(obeys_concrete_eq);
}

} // verus!
