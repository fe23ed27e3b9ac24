//! The identity of one session, and what a session transport offers.

use crate::random::random_u64;
use crate::session::SessionChannels;
use crate::session_action::SessionAction;
use vstd::laws_eq::obeys_concrete_eq;
use vstd::prelude::*;
use vstd::std_specs::cmp::PartialEqSpecImpl;

verus! {

/// Identifies one session with another world.
#[derive(Debug, Clone, Copy, Hash, Eq)]
pub struct SessionId(u64);

impl SessionId {
    /// The number behind this identifier.
    pub closed spec fn raw(self) -> u64 {
        self.0
    }
}

impl PartialEq for SessionId {
    fn eq(&self, other: &Self) -> (same: bool) {
        self.0 == other.0
    }
}

impl PartialEqSpecImpl for SessionId {
    open spec fn obeys_eq_spec() -> bool {
        true
    }

    open spec fn eq_spec(&self, other: &Self) -> bool {
        self.raw() == other.raw()
    }
}

impl Default for SessionId {
    /// A fresh random identifier.
    fn default() -> (id: Self) {
        SessionId(random_u64())
    }
}

/// Two session identifiers compare equal exactly when they are the same value.
pub broadcast proof fn lemma_session_id_concrete_eq()
    ensures
        #[trigger] obeys_concrete_eq::<SessionId>(),
{
    reveal(obeys_concrete_eq);
}

/// What a transport for sessions offers. Implemented by the users of this library.
pub trait SessionMessenger<TSendables>: Send + Sync {
    /// The identifier of the session this transport serves.
    fn get_session_id(&self) -> SessionId;

    /// The channels the session's messages arrive on.
    fn get_channels(&self) -> SessionChannels<TSendables>;

    /// Hands the collected messages of one tick to the transport.
    fn handle_actions(&mut self, actions: &Vec<SessionAction<TSendables>>);

    /// Whether the other end of the session is this same program.
    fn pushes_to_same_world(&self) -> (same: bool)
        default_ensures
            !same,
    {
        false
    }
}

} // verus!
