//! The identity of one connection to another client.

use crate::random::random_u64;
use vstd::laws_eq::obeys_concrete_eq;
use vstd::prelude::*;
use vstd::std_specs::cmp::PartialEqSpecImpl;

verus! {

/// Identifies one connection of this client.
#[derive(Debug, Clone, Copy, Hash, Eq)]
pub struct ConnectionId(u64);

impl ConnectionId {
    /// The number behind this identifier.
    pub closed spec fn raw(self) -> u64 {
        self.0
    }
}

impl PartialEq for ConnectionId {
    fn eq(&self, other: &Self) -> (same: bool) {
        self.0 == other.0
    }
}

impl PartialEqSpecImpl for ConnectionId {
    open spec fn obeys_eq_spec() -> bool {
        true
    }

    open spec fn eq_spec(&self, other: &Self) -> bool {
        self.raw() == other.raw()
    }
}

impl Default for ConnectionId {
    /// A fresh random identifier.
    fn default() -> (id: Self) {
        ConnectionId(random_u64())
    }
}

/// Two connection identifiers compare equal exactly when they are the same value.
pub broadcast proof fn lemma_connection_id_concrete_eq()
    ensures
        #[trigger] obeys_concrete_eq::<ConnectionId>(),
{
    reveal(obeys_concrete_eq);
}

} // verus!
