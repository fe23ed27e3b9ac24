//! Remembers which events were already seen, so that an event that reaches
//! this client twice (relayed along two paths) is handled once.

use crate::clock::unix_time_secs;
use crate::connection::remote_action::{EventId, EventTimestamp};
use std::collections::HashMap;
use vstd::prelude::*;
use vstd::std_specs::hash::{axiom_random_state_builds_valid_hashers, group_hash_axioms};
use vstd::std_specs::iter::IteratorSpec;

verus! {

broadcast use {group_hash_axioms, axiom_random_state_builds_valid_hashers};

/// The events seen recently: event number to the time it was sent, and how
/// long an event counts as recent.
pub struct EventMap {
    pub map: HashMap<u64, u64>,
    pub retention_time_secs: u64,
}

/// The oldest send time, in seconds, that still counts as recent at `now`
/// when events are kept for `retention` seconds; before `retention` seconds
/// of clock time have passed, every time counts.
pub open spec fn cutoff(now: u64, retention: u64) -> u64 {
    if now >= retention {
        (now - retention) as u64
    } else {
        0
    }
}

/// The entries of `seen` whose send time is at or after `cutoff`.
pub open spec fn recent_entries(seen: Map<u64, u64>, cutoff: u64) -> Map<u64, u64> {
    Map::new(|k: u64| seen.contains_key(k) && seen[k] >= cutoff, |k: u64| seen[k])
}

/// Whether an event with number `id` sent at `timestamp` is new to `seen`
/// and recent at `now` when events are kept for `retention` seconds.
pub open spec fn admits(seen: Map<u64, u64>, retention: u64, id: u64, timestamp: u64, now: u64) -> bool {
    timestamp >= cutoff(now, retention) && !seen.contains_key(id)
}

impl EventMap {
    /// The events seen so far, by number.
    pub open spec fn seen(&self) -> Map<u64, u64> {
        self.map@
    }

    /// Whether an event with number `id` sent at `timestamp` is new and
    /// recent at `now`.
    pub open spec fn admits(&self, id: u64, timestamp: u64, now: u64) -> bool {
        admits(self.seen(), self.retention_time_secs, id, timestamp, now)
    }

    /// No event seen, kept for two minutes.
    pub fn new() -> (created: Self)
        ensures
            created.seen() == Map::<u64, u64>::empty(),
            created.retention_time_secs == 120,
    {
        EventMap { map: HashMap::new(), retention_time_secs: 120 }
    }

    /// The cutoff for the clock reading `now`; see [`cutoff`].
    pub fn cutoff_at(&self, now: u64) -> (oldest: EventTimestamp)
        ensures
            oldest.0 == cutoff(now, self.retention_time_secs),
    {
        EventTimestamp(now.saturating_sub(self.retention_time_secs))
    }

    /// The cutoff for the current time.
    fn cutoff_timestamp(&self) -> (oldest: EventTimestamp)
        ensures
            exists|now: u64| oldest.0 == cutoff(now, self.retention_time_secs),
    {
        self.cutoff_at(unix_time_secs())
    }

    /// Whether an event is new and recent at the clock reading `now`.
    pub fn valid_at(&self, id: &EventId, timestamp: &EventTimestamp, now: u64) -> (fresh: bool)
        ensures
            fresh == self.admits(id.0, timestamp.0, now),
    {
        let oldest = self.cutoff_at(now);
        if timestamp.0 < oldest.0 {
            return false;
        }
        !self.map.contains_key(&id.0)
    }

    /// Whether an event is new and recent now: it is never one seen before,
    /// and it passes [`EventMap::admits`] for the clock reading that
    /// [`unix_time_secs`] gave for this call.
    pub fn valid(&self, id: &EventId, timestamp: &EventTimestamp) -> (fresh: bool)
        ensures
            fresh ==> !self.seen().contains_key(id.0),
            exists|now: u64| call_ensures(unix_time_secs, (), now) && fresh == self.admits(id.0, timestamp.0, now),
    {
        self.valid_at(id, timestamp, unix_time_secs())
    }

    /// Records an event as seen.
    pub fn insert(&mut self, id: EventId, timestamp: EventTimestamp)
        ensures
            final(self).seen() == old(self).seen().insert(id.0, timestamp.0),
            final(self).retention_time_secs == old(self).retention_time_secs,
    {
        self.map.insert(id.0, timestamp.0);
    }

    /// Forgets the events sent before the cutoff for the clock reading `now`.
    pub fn clear_old_at(&mut self, now: u64)
        ensures
            final(self).seen() =~= recent_entries(old(self).seen(), cutoff(now, old(self).retention_time_secs)),
            final(self).retention_time_secs == old(self).retention_time_secs,
    {
        let oldest = self.cutoff_at(now).0;
        let ghost start = self.map@;
        let mut stale: Vec<u64> = Vec::new();
        let ghost mut visited: Seq<u64> = Seq::empty();
        let keys = self.map.keys();
        let ghost all_keys = keys.remaining();
        proof {
            assert(all_keys.unref().to_set() == start.dom());
        }
        for key in it: keys
            invariant
                it.seq() == all_keys,
                all_keys.unref().to_set() == start.dom(),
                self.map@ == start,
                self.retention_time_secs == old(self).retention_time_secs,
                visited.len() == it.index(),
                forall|j: int| 0 <= j < it.index() ==> visited[j] == *it.seq()[j],
                forall|k: u64| #[trigger] visited.contains(k) && start.contains_key(k) && start[k] < oldest ==> stale@.contains(k),
                forall|i: int| 0 <= i < stale@.len() ==> start.contains_key(#[trigger] stale@[i]) && start[stale@[i]] < oldest,
        {
            let ghost j = it.index() as int;
            proof {
                assert(all_keys.unref()[j] == *key);
                assert(all_keys.unref().to_set().contains(*key));
            }
            let ghost stale_before = stale@;
            match self.map.get(key) {
                Some(sent) => {
                    if *sent < oldest {
                        stale.push(*key);
                    }
                },
                None => {},
            }
            proof {
                assert(stale@ == stale_before || stale@ == stale_before.push(*key));
                assert(start[*key] < oldest ==> stale@.contains(*key)) by {
                    if start[*key] < oldest {
                        assert(stale@[stale@.len() - 1] == *key);
                    }
                }
                assert forall|k: u64|
                    #[trigger] visited.push(*key).contains(k) && start.contains_key(k) && start[k] < oldest
                    implies stale@.contains(k) by {
                    if k != *key {
                        let w = choose|w: int| 0 <= w < visited.push(*key).len() && #[trigger] visited.push(*key)[w] == k;
                        assert(visited[w] == k);
                        assert(visited.contains(k));
                        assert(stale_before.contains(k));
                        let v = choose|v: int| 0 <= v < stale_before.len() && #[trigger] stale_before[v] == k;
                        assert(stale@[v] == k);
                    }
                }
                visited = visited.push(*key);
            }
        }
        proof {
            assert(visited =~= all_keys.unref());
        }
        let ghost listed = stale@;
        let mut i: usize = 0;
        while i < stale.len()
            invariant
                i <= stale.len(),
                stale@ == listed,
                self.retention_time_secs == old(self).retention_time_secs,
                forall|k: u64| #[trigger] self.map@.contains_key(k) <==> start.contains_key(k) && !listed.take(i as int).contains(k),
                forall|k: u64| #[trigger] self.map@.contains_key(k) ==> self.map@[k] == start[k],
            decreases stale.len() - i,
        {
            let key = stale[i];
            self.map.remove(&key);
            proof {
                assert forall|k: u64| #[trigger] self.map@.contains_key(k) <==> start.contains_key(k) && !listed.take(i + 1).contains(k) by {
                    if listed.take(i + 1).contains(k) && !listed.take(i as int).contains(k) {
                        let w = choose|w: int| 0 <= w < i + 1 && #[trigger] listed.take(i + 1)[w] == k;
                        if w < i {
                            assert(listed.take(i as int)[w] == k);
                        }
                    }
                    if listed.take(i as int).contains(k) {
                        let w = choose|w: int| 0 <= w < i && #[trigger] listed.take(i as int)[w] == k;
                        assert(listed.take(i + 1)[w] == k);
                    }
                    if k == key {
                        assert(listed.take(i + 1)[i as int] == k);
                    }
                }
            }
            i = i + 1;
        }
        proof {
            assert(listed.take(listed.len() as int) =~= listed);
            assert forall|k: u64| #[trigger] self.map@.contains_key(k) <==> recent_entries(start, oldest).contains_key(k) by {
                if start.contains_key(k) && start[k] < oldest {
                    assert(visited.to_set().contains(k));
                    assert(visited.contains(k));
                }
            }
        }
    }

    /// Forgets the events sent before the cutoff for the current time: the
    /// clock reading that [`unix_time_secs`] gave for this call.
    pub fn clear_old(&mut self)
        ensures
            exists|now: u64|
                call_ensures(unix_time_secs, (), now) && final(self).seen() =~= recent_entries(
                    old(self).seen(),
                    cutoff(now, old(self).retention_time_secs),
                ),
            final(self).retention_time_secs == old(self).retention_time_secs,
    {
        self.clear_old_at(unix_time_secs());
    }
}

impl Default for EventMap {
    /// No event seen, kept for two minutes.
    fn default() -> (created: Self)
        ensures
            created.seen() == Map::<u64, u64>::empty(),
            created.retention_time_secs == 120,
    {
        EventMap::new()
    }
}

} // verus!

verus! {

/// Once an event is recorded, the same event is not admitted again, at any
/// time and with any send time.
pub proof fn lemma_recorded_event_refused(
    seen: Map<u64, u64>,
    retention: u64,
    id: u64,
    timestamp: u64,
    later_timestamp: u64,
    now: u64,
)
    ensures
        !admits(seen.insert(id, timestamp), retention, id, later_timestamp, now),
{
}

/// Forgetting old events at a clock reading never lets a seen event
/// through again at that reading: it is either kept or too old.
pub proof fn lemma_clearing_keeps_refusals(seen: Map<u64, u64>, retention: u64, id: u64, now: u64)
    requires
        seen.contains_key(id),
    ensures
        !admits(recent_entries(seen, cutoff(now, retention)), retention, id, seen[id], now),
{
}

/// Clearing at a clock reading keeps exactly the recorded events sent at
/// or after that reading minus the retention time (or every event, before
/// that much time has passed), each with its send time.
pub proof fn lemma_clearing_keeps_recent(seen: Map<u64, u64>, retention: u64, now: u64, id: u64)
    ensures
        recent_entries(seen, cutoff(now, retention)).contains_key(id) == (seen.contains_key(id) && (
        seen[id] + retention >= now)),
        recent_entries(seen, cutoff(now, retention)).contains_key(id) ==> recent_entries(
            seen,
            cutoff(now, retention),
        )[id] == seen[id],
{
}

/// An event sent at the clock reading `now` is admitted at `now` exactly
/// when it was not seen before, whatever the retention time.
pub proof fn lemma_event_sent_now_is_recent(seen: Map<u64, u64>, retention: u64, id: u64, now: u64)
    ensures
        admits(seen, retention, id, now, now) == !seen.contains_key(id),
{
}

} // verus!
