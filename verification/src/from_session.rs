//! Marks an entity as received from a session.

use crate::hook_session::SessionId;
use vstd::prelude::*;

verus! {

/// The session an entity was received from.
#[derive(Debug, Clone, Copy)]
pub struct FromSession {
    pub session_id: SessionId,
}

} // verus!
