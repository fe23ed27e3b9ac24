//! Marks an entity as shared over sessions.

use crate::hook_session::{lemma_session_id_concrete_eq, SessionId};
use crate::presence::{
    after_pass, check_ids, lemma_pass_follows_filters, presence_for, presence_on, presence_pass, record_presence, recorded,
    Presence,
};
use crate::session_action::SessionAction;
use crate::session_filter::SessionFilter;
use crate::sync_entity_id::SyncEntityId;
use vstd::prelude::*;

verus! {

/// Marks an entity as shared under a network-wide identifier.
#[derive(Debug, Clone, Copy)]
pub struct SyncEntity {
    pub sync_id: SyncEntityId,
}

/// Marks a shared entity as owned here: the sessions it is on, who may see
/// and change it, and whether it is to be withdrawn.
#[derive(Debug, Clone)]
pub struct SyncEntityOwner {
    pub on_sessions: Vec<SessionId>,
    pub session_read_filter: SessionFilter,
    pub session_write_filter: SessionFilter,
    pub remove: bool,
}

impl SyncEntity {
    /// Shares an entity under `sync_id`.
    pub fn new_from_id(sync_id: SyncEntityId) -> (entity: Self)
        ensures
            entity.sync_id == sync_id,
    {
        SyncEntity { sync_id }
    }
}

impl Default for SyncEntity {
    /// Shares an entity under a fresh random identifier.
    fn default() -> (entity: Self) {
        SyncEntity { sync_id: SyncEntityId::new() }
    }
}

impl SyncEntityOwner {
    /// Owned here, on no session yet, visible to every session and
    /// changeable by none.
    pub fn new() -> (owner: Self)
        ensures
            owner.on_sessions@ == Seq::<SessionId>::empty(),
            owner.session_read_filter == SessionFilter::AllowAll,
            owner.session_write_filter == SessionFilter::AllowNone,
            !owner.remove,
    {
        SyncEntityOwner {
            remove: false,
            on_sessions: Vec::new(),
            session_read_filter: SessionFilter::AllowAll,
            session_write_filter: SessionFilter::AllowNone,
        }
    }

    /// What to tell `session` about the entity now: announce it, or
    /// announce its removal; a session it is on and may stay on needs no
    /// message, which [`Presence::Update`] stands for here.
    pub fn plan(&self, session: &SessionId) -> (step: Presence)
        ensures
            step == presence_for(self.on_sessions@.contains(*session), self.session_read_filter.allows(*session), true),
    {
        broadcast use lemma_session_id_concrete_eq;

        let allowed = self.session_read_filter.allow_session(session);
        presence_on(&self.on_sessions, session, allowed, true)
    }

    /// Notes that `step` was taken for `session`.
    pub fn record(&mut self, session: SessionId, step: Presence)
        ensures
            final(self).on_sessions@ == recorded(old(self).on_sessions@, session, step),
            final(self).session_read_filter == old(self).session_read_filter,
            final(self).session_write_filter == old(self).session_write_filter,
            final(self).remove == old(self).remove,
    {
        broadcast use lemma_session_id_concrete_eq;

        record_presence(&mut self.on_sessions, session, step);
    }

    /// The checks of one pass over `sessions`: each session, whether the
    /// read filter allows it, and that the entity itself is there to share.
    pub open spec fn session_checks(self, sessions: Seq<SessionId>) -> Seq<(SessionId, bool, bool)> {
        sessions.map_values(|session: SessionId| (session, self.session_read_filter.allows(session), true))
    }

    /// Checks every session of `sessions` in turn, as [`SyncEntityOwner::plan`]
    /// does for one, and notes each step; returns the steps in order. After
    /// a pass over distinct sessions, the entity is on each of them exactly
    /// when the read filter allows it, and on every other session as before.
    pub fn run_pass(&mut self, sessions: &Vec<SessionId>) -> (steps: Vec<Presence>)
        ensures
            final(self).session_read_filter == old(self).session_read_filter,
            final(self).session_write_filter == old(self).session_write_filter,
            final(self).remove == old(self).remove,
            final(self).on_sessions@ == after_pass(old(self).on_sessions@, old(self).session_checks(sessions@)),
            steps@.len() == sessions@.len(),
            forall|i: int|
                0 <= i < sessions@.len() ==> steps@[i] == presence_for(
                    #[trigger] after_pass(
                        old(self).on_sessions@,
                        old(self).session_checks(sessions@).take(i),
                    ).contains(sessions@[i]),
                    old(self).session_read_filter.allows(sessions@[i]),
                    true,
                ),
            old(self).on_sessions@.no_duplicates() && sessions@.no_duplicates() ==> {
                &&& final(self).on_sessions@.no_duplicates()
                &&& forall|session: SessionId|
                    #[trigger] final(self).on_sessions@.contains(session) == if sessions@.contains(session) {
                        old(self).session_read_filter.allows(session)
                    } else {
                        old(self).on_sessions@.contains(session)
                    }
            },
    {
        broadcast use lemma_session_id_concrete_eq;

        let ghost checks_spec = self.session_checks(sessions@);
        let mut checks: Vec<(SessionId, bool, bool)> = Vec::new();
        let mut i: usize = 0;
        while i < sessions.len()
            invariant
                i <= sessions.len(),
                checks_spec == self.session_checks(sessions@),
                checks@ == checks_spec.take(i as int),
            decreases sessions.len() - i,
        {
            let session = sessions[i];
            let allowed = self.session_read_filter.allow_session(&session);
            checks.push((session, allowed, true));
            proof {
                assert(checks@ =~= checks_spec.take(i + 1));
            }
            i = i + 1;
        }
        proof {
            assert(checks@ =~= checks_spec);
        }
        let ghost start = self.on_sessions@;
        let steps = presence_pass(&mut self.on_sessions, &checks);
        proof {
            assert(check_ids(checks_spec) =~= sessions@);
            if start.no_duplicates() && sessions@.no_duplicates() {
                lemma_pass_follows_filters(start, checks_spec, 0, sessions@[0]);
                assert forall|session: SessionId|
                    #[trigger] self.on_sessions@.contains(session) == if sessions@.contains(session) {
                        old(self).session_read_filter.allows(session)
                    } else {
                        start.contains(session)
                    } by {
                    if sessions@.contains(session) {
                        let k = choose|k: int| 0 <= k < sessions@.len() && sessions@[k] == session;
                        lemma_pass_follows_filters(start, checks_spec, k, session);
                    } else {
                        lemma_pass_follows_filters(start, checks_spec, 0, session);
                    }
                }
            }
        }
        steps
    }
}

/// What to do with an entity message that arrived over a session.
#[derive(Debug, Clone, Copy, PartialEq, Eq, Structural)]
pub enum SessionEntityStep {
    /// Create a local copy of the announced entity.
    Spawn,
    /// Remove the local copy.
    Despawn,
    /// Nothing to do: the copy already exists, or there is none to remove.
    Ignore,
    /// Not an entity message: put it back for the other handlers.
    Requeue,
}

/// Decides what to do with `action`, given whether a local copy of the
/// entity it names exists.
pub fn session_entity_step<TSendables>(action: &SessionAction<TSendables>, exists: bool) -> (step: SessionEntityStep)
    ensures
        step == match *action {
            SessionAction::AddEntity { .. } => if exists {
                SessionEntityStep::Ignore
            } else {
                SessionEntityStep::Spawn
            },
            SessionAction::RemoveEntity { .. } => if exists {
                SessionEntityStep::Despawn
            } else {
                SessionEntityStep::Ignore
            },
            _ => SessionEntityStep::Requeue,
        },
{
    match action {
        SessionAction::AddEntity { .. } => if exists {
            SessionEntityStep::Ignore
        } else {
            SessionEntityStep::Spawn
        },
        SessionAction::RemoveEntity { .. } => if exists {
            SessionEntityStep::Despawn
        } else {
            SessionEntityStep::Ignore
        },
        _ => SessionEntityStep::Requeue,
    }
}

} // verus!
