//! Marks a component to be shared over sessions.

use crate::hook_session::SessionId;
use crate::session_filter::SessionFilter;
use std::marker::PhantomData;
use vstd::prelude::*;

verus! {

/// Marks a component of kind `TComponent` as shared, lists the sessions it
/// is on, and says which sessions may see it.
pub struct ShareComponent<TComponent> {
    pub phantom: PhantomData<TComponent>,
    pub on_sessions: Vec<SessionId>,
    pub read_filter: SessionFilter,
}

impl<T> Default for ShareComponent<T> {
    /// Shared on no session yet, visible to every session.
    fn default() -> (share: Self)
        ensures
            share.on_sessions@ == Seq::<SessionId>::empty(),
            share.read_filter == SessionFilter::AllowAll,
    {
        ShareComponent { phantom: PhantomData, on_sessions: Vec::new(), read_filter: SessionFilter::AllowAll }
    }
}

impl<T> ShareComponent<T> {
    /// The same marker, visible only to the sessions `read_filter` allows.
    pub fn with_read_filter(self, read_filter: SessionFilter) -> (share: Self)
        ensures
            share.on_sessions == self.on_sessions,
            share.read_filter == read_filter,
    {
        ShareComponent { read_filter, ..self }
    }
}

} // verus!
