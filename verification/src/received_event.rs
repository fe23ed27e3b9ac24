//! An event that arrived over a session.

use crate::hook_session::SessionId;
use vstd::prelude::*;

verus! {

/// A received event and the session it came from.
#[derive(Debug)]
pub struct ReceivedEvent<T> {
    pub event: T,
    pub from_session: SessionId,
}

} // verus!
