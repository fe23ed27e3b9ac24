//! Which sessions a shared thing may go to.

use crate::filter::vec_contains;
use crate::hook_session::{lemma_session_id_concrete_eq, SessionId};
use vstd::prelude::*;

verus! {

/// Allows every session, none, all but the listed ones, or only the listed ones.
#[derive(Debug, Clone)]
pub enum SessionFilter {
    AllowAll,
    AllowNone,
    Blacklist(Vec<SessionId>),
    Whitelist(Vec<SessionId>),
}

impl SessionFilter {
    /// Whether the filter lets the session `session_id` through.
    pub open spec fn allows(&self, session_id: SessionId) -> bool {
        match self {
            SessionFilter::AllowAll => true,
            SessionFilter::AllowNone => false,
            SessionFilter::Blacklist(ids) => !ids@.contains(session_id),
            SessionFilter::Whitelist(ids) => ids@.contains(session_id),
        }
    }

    /// Whether the filter lets the session `session_id` through.
    pub fn allow_session(&self, session_id: &SessionId) -> (allowed: bool)
        ensures
            allowed == self.allows(*session_id),
    {
        broadcast use lemma_session_id_concrete_eq;

        match self {
            SessionFilter::AllowAll => true,
            SessionFilter::AllowNone => false,
            SessionFilter::Blacklist(session_ids) => !vec_contains(session_ids, session_id),
            SessionFilter::Whitelist(session_ids) => vec_contains(session_ids, session_id),
        }
    }
}

/// What the kinds of session filter let through: everything, nothing, and
/// for a list, a whitelist lets a session through exactly when it stands
/// somewhere in the list, at any position, and a blacklist exactly when a
/// whitelist of the same list does not.
pub proof fn lemma_session_filter_kinds(ids: Vec<SessionId>, session: SessionId, position: int)
    ensures
        SessionFilter::AllowAll.allows(session),
        !SessionFilter::AllowNone.allows(session),
        0 <= position < ids@.len() && ids@[position] == session ==> SessionFilter::Whitelist(ids).allows(session),
        (forall|j: int| 0 <= j < ids@.len() ==> ids@[j] != session) ==> !SessionFilter::Whitelist(ids).allows(
            session,
        ),
        SessionFilter::Blacklist(ids).allows(session) == !SessionFilter::Whitelist(ids).allows(session),
{
    if 0 <= position < ids@.len() && ids@[position] == session {
        assert(ids@.contains(session));
    }
}

} // verus!
