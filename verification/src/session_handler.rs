//! The open sessions, one per session identifier.

use crate::hook_session::{lemma_session_id_concrete_eq, SessionId, SessionMessenger};
use crate::session::{Session, SessionChannels};
use crate::session_action::SessionAction;
use vstd::laws_eq::obeys_concrete_eq;
use vstd::prelude::*;

verus! {

/// The open sessions, each under the identifier its transport reported when
/// it was added.
#[verifier::reject_recursive_types(TSendables)]
pub struct SessionHandler<TSendables> {
    ids: Vec<SessionId>,
    sessions: Vec<Session<TSendables>>,
}

impl<TSendables> SessionHandler<TSendables> {
    /// The identifiers of the open sessions, in the order they were added.
    pub closed spec fn session_ids(&self) -> Seq<SessionId> {
        self.ids@
    }

    /// The open sessions, each at the position of its identifier in
    /// [`SessionHandler::session_ids`].
    pub closed spec fn sessions(&self) -> Seq<Session<TSendables>> {
        self.sessions@
    }

    /// Every session is held under one identifier, and no identifier twice.
    pub closed spec fn well_formed(&self) -> bool {
        &&& self.ids@.len() == self.sessions@.len()
        &&& self.ids@.no_duplicates()
    }

    /// No session yet.
    pub fn new() -> (handler: Self)
        ensures
            handler.well_formed(),
            handler.session_ids() == Seq::<SessionId>::empty(),
    {
        SessionHandler { ids: Vec::new(), sessions: Vec::new() }
    }

    /// Opens a session over `session`, under the identifier its transport
    /// reports and with the channels it gives; a session already held under
    /// the same identifier is replaced, and every other session stays as it
    /// was.
    #[verifier::loop_isolation(false)]
    pub fn add_session<TSession: SessionMessenger<TSendables> + 'static>(&mut self, session: TSession)
        requires
            old(self).well_formed(),
        ensures
            final(self).well_formed(),
            exists|id: SessionId, channels: SessionChannels<TSendables>|
                {
                    &&& call_ensures(TSession::get_session_id, (&session,), id)
                    &&& call_ensures(TSession::get_channels, (&session,), channels)
                    &&& final(self).session_ids() == if old(self).session_ids().contains(id) {
                        old(self).session_ids()
                    } else {
                        old(self).session_ids().push(id)
                    }
                    &&& forall|i: int|
                        0 <= i < final(self).session_ids().len() ==> if final(self).session_ids()[i] == id {
                            &&& (#[trigger] final(self).sessions()[i]).pending() == Seq::<SessionAction<TSendables>>::empty()
                            &&& final(self).sessions()[i].channels() == channels
                        } else {
                            final(self).sessions()[i] == old(self).sessions()[i]
                        }
                },
    {
        broadcast use lemma_session_id_concrete_eq;

        let channels = session.get_channels();
        let id = session.get_session_id();
        let transport: Box<dyn SessionMessenger<TSendables>> = Box::new(session);
        let opened = Session::new(transport, channels);
        let mut i: usize = 0;
        while i < self.ids.len()
            invariant
                obeys_concrete_eq::<SessionId>(),
                i <= self.ids.len(),
                self.ids@ == old(self).ids@,
                self.sessions@ == old(self).sessions@,
                self.ids@.len() == self.sessions@.len(),
                self.ids@.no_duplicates(),
                forall|j: int| 0 <= j < i ==> self.ids@[j] != id,
            decreases self.ids.len() - i,
        {
            let same = self.ids[i] == id;
            proof {
                reveal(obeys_concrete_eq);
            }
            if same {
                self.sessions.set(i, opened);
                proof {
                    assert(old(self).session_ids()[i as int] == id);
                    assert(old(self).session_ids().contains(id));
                    assert(final(self).session_ids() == old(self).session_ids());
                    assert forall|k: int| 0 <= k < self.ids@.len() && k != i implies self.ids@[k] != id by {
                        assert(self.ids@[i as int] == id);
                    }
                }
                return;
            }
            i = i + 1;
        }
        self.ids.push(id);
        self.sessions.push(opened);
        proof {
            assert(!old(self).session_ids().contains(id));
            assert forall|a: int, b: int| 0 <= a < b < self.ids@.len() implies self.ids@[a] != self.ids@[b] by {
                if b == self.ids@.len() - 1 {
                    assert(old(self).ids@[a] != id);
                } else {
                    assert(old(self).ids@.no_duplicates());
                }
            }
        }
    }

    /// The open sessions, each at its identifier's position, to work on in place.
    pub fn get_sessions(&mut self) -> (open: &mut [Session<TSendables>])
        requires
            old(self).well_formed(),
        ensures
            open@ == old(self).sessions(),
            final(self).sessions() == final(open)@,
            open@.len() == old(self).session_ids().len(),
            final(open)@.len() == old(self).session_ids().len() ==> final(self).well_formed(),
            final(self).session_ids() == old(self).session_ids(),
    {
        self.sessions.as_mut_slice()
    }
}

} // verus!
