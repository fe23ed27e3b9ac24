//! Taking over a received entity so that it is passed on.

use crate::connection::connection_id::ConnectionId;
use crate::entity_sharing::sync_entity::{EntityReadFilter, EntityWriteFilter};
use crate::filter::{Filter, FilterView};
use vstd::prelude::*;

verus! {

/// The filters of a received entity that this client passes on: it is sent
/// to every connection but the one it came from, and only that one may
/// change it.
pub fn reshare_filters(from_connection: ConnectionId) -> (filters: (
    EntityReadFilter<ConnectionId>,
    EntityWriteFilter<ConnectionId>,
))
    ensures
        filters.0.0@ == FilterView::Blacklist(seq![from_connection]),
        filters.1.0@ == FilterView::Whitelist(seq![from_connection]),
{
    let mut blocked: Vec<ConnectionId> = Vec::new();
    blocked.push(from_connection);
    let mut writers: Vec<ConnectionId> = Vec::new();
    writers.push(from_connection);
    proof {
        assert(blocked@ =~= seq![from_connection]);
        assert(writers@ =~= seq![from_connection]);
    }
    (EntityReadFilter(Filter::Blacklist(blocked)), EntityWriteFilter(Filter::Whitelist(writers)))
}

} // verus!
