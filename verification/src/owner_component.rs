//! Marks a component as owned here and shared over sessions.

use crate::hook_session::{lemma_session_id_concrete_eq, SessionId};
use crate::presence::{presence_for, presence_on, record_presence, recorded, Presence};
use crate::session_filter::SessionFilter;
use crate::sync_component_id::SyncComponentId;
use vstd::prelude::*;

verus! {

/// A component owned here: its value, its network identity, whether it is
/// to be withdrawn, the sessions it is on and the sessions that may see it.
pub struct Owner<T> {
    pub inner: T,
    pub component_id: SyncComponentId,
    pub remove: bool,
    pub on_sessions: Vec<SessionId>,
    pub session_read_filter: SessionFilter,
}

impl<T> Owner<T> {
    /// Owns `inner` under a fresh identity, on no session yet, visible to
    /// every session.
    pub fn new(inner: T) -> (owner: Self)
        ensures
            owner.inner == inner,
            !owner.remove,
            owner.on_sessions@ == Seq::<SessionId>::empty(),
            owner.session_read_filter == SessionFilter::AllowAll,
    {
        Owner {
            inner,
            component_id: SyncComponentId::new(),
            remove: false,
            on_sessions: Vec::new(),
            session_read_filter: SessionFilter::AllowAll,
        }
    }

    /// The same owner, visible only to the sessions `read_filter` allows.
    pub fn with_read_filter(self, read_filter: SessionFilter) -> (owner: Self)
        ensures
            owner.inner == self.inner,
            owner.component_id == self.component_id,
            owner.remove == self.remove,
            owner.on_sessions == self.on_sessions,
            owner.session_read_filter == read_filter,
    {
        let mut owner = self;
        owner.session_read_filter = read_filter;
        owner
    }

    /// The owned value.
    pub fn get_inner(&self) -> (inner: &T)
        ensures
            *inner == self.inner,
    {
        &self.inner
    }

    /// Replaces the owned value.
    pub fn update_inner(&mut self, updated: T)
        ensures
            final(self).inner == updated,
            final(self).component_id == old(self).component_id,
            final(self).remove == old(self).remove,
            final(self).on_sessions == old(self).on_sessions,
            final(self).session_read_filter == old(self).session_read_filter,
    {
        self.inner = updated;
    }

    /// What to tell `session` about the component now, given its own filter
    /// and, if the entity has one, the entity's read filter.
    pub fn plan(&self, session: &SessionId, entity_filter: Option<&SessionFilter>) -> (step: Presence)
        ensures
            step == presence_for(
                self.on_sessions@.contains(*session),
                self.session_read_filter.allows(*session),
                match entity_filter {
                    Some(f) => f.allows(*session),
                    None => true,
                },
            ),
    {
        broadcast use lemma_session_id_concrete_eq;

        let allowed = self.session_read_filter.allow_session(session);
        let entity_allowed = match entity_filter {
            Some(filter) => filter.allow_session(session),
            None => true,
        };
        presence_on(&self.on_sessions, session, allowed, entity_allowed)
    }

    /// Notes that `step` was taken for `session`.
    pub fn record(&mut self, session: SessionId, step: Presence)
        ensures
            final(self).on_sessions@ == recorded(old(self).on_sessions@, session, step),
            final(self).inner == old(self).inner,
            final(self).component_id == old(self).component_id,
            final(self).remove == old(self).remove,
            final(self).session_read_filter == old(self).session_read_filter,
    {
        broadcast use lemma_session_id_concrete_eq;

        record_presence(&mut self.on_sessions, session, step);
    }
}

} // verus!
