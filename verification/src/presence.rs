//! Which connections (or sessions) a shared thing is on, and what to tell
//! one of them when its filters are checked again.

use crate::filter::vec_contains;
use vstd::laws_eq::obeys_concrete_eq;
use vstd::prelude::*;

verus! {

/// What to tell one connection about a shared entity or component.
#[derive(Debug, Clone, Copy, PartialEq, Eq, Structural)]
pub enum Presence {
    /// Not on it yet and now allowed: send it, and note it as on.
    Add,
    /// On it and still allowed: send the new state.
    Update,
    /// On it and no longer allowed, while the entity itself still is: send
    /// its removal, and note it as off.
    Remove,
    /// On it, and the whole entity is no longer allowed (the entity's own
    /// removal covers it): note it as off without a message.
    Forget,
    /// Not on it and not allowed: nothing.
    Skip,
}

/// What to tell a connection, given whether the thing is on it, whether the
/// thing's own filter allows the connection, and whether the filter of the
/// entity it belongs to does.
pub open spec fn presence_for(is_on: bool, allowed: bool, entity_allowed: bool) -> Presence {
    if allowed && entity_allowed {
        if is_on {
            Presence::Update
        } else {
            Presence::Add
        }
    } else if is_on {
        if entity_allowed {
            Presence::Remove
        } else {
            Presence::Forget
        }
    } else {
        Presence::Skip
    }
}

/// The list of connections a thing is on after `step` was taken for `id`.
pub open spec fn recorded<Id>(on: Seq<Id>, id: Id, step: Presence) -> Seq<Id> {
    match step {
        Presence::Add => on.push(id),
        Presence::Remove | Presence::Forget => on.filter(|other: Id| other != id),
        _ => on,
    }
}

/// See [`presence_for`].
pub fn decide_presence(is_on: bool, allowed: bool, entity_allowed: bool) -> (step: Presence)
    ensures
        step == presence_for(is_on, allowed, entity_allowed),
{
    let is_allowed = allowed && entity_allowed;
    if is_allowed && !is_on {
        Presence::Add
    } else if is_allowed && is_on {
        Presence::Update
    } else if is_on && !is_allowed {
        if entity_allowed {
            Presence::Remove
        } else {
            Presence::Forget
        }
    } else {
        Presence::Skip
    }
}

/// The step for `id` given the connections the thing is on.
pub fn presence_on<Id: PartialEq>(on: &Vec<Id>, id: &Id, allowed: bool, entity_allowed: bool) -> (step: Presence)
    requires
        obeys_concrete_eq::<Id>(),
    ensures
        step == presence_for(on@.contains(*id), allowed, entity_allowed),
{
    let is_on = vec_contains(on, id);
    decide_presence(is_on, allowed, entity_allowed)
}

/// Notes `step` for `id` in the list of connections a thing is on: adds it,
/// drops every copy of it, or leaves the list, as [`recorded`] says.
pub fn record_presence<Id: PartialEq + Copy>(on: &mut Vec<Id>, id: Id, step: Presence)
    requires
        obeys_concrete_eq::<Id>(),
    ensures
        final(on)@ == recorded(old(on)@, id, step),
{
    match step {
        Presence::Add => {
            on.push(id);
        },
        Presence::Remove | Presence::Forget => {
            let ghost start = on@;
            let ghost keep = |other: Id| other != id;
            let mut kept: Vec<Id> = Vec::new();
            let mut i: usize = 0;
            while i < on.len()
                invariant
                    obeys_concrete_eq::<Id>(),
                    on@ == start,
                    i <= on.len(),
                    keep == (|other: Id| other != id),
                    kept@ == start.take(i as int).filter(keep),
                decreases on.len() - i,
            {
                let other = on[i];
                let same = other == id;
                proof {
                    reveal(obeys_concrete_eq);
                    reveal(Seq::filter);
                    let t = start.take(i + 1);
                    assert(t.drop_last() =~= start.take(i as int));
                    assert(t.last() == other);
                }
                if !same {
                    kept.push(other);
                }
                i = i + 1;
            }
            proof {
                assert(start.take(start.len() as int) =~= start);
            }
            *on = kept;
        },
        _ => {},
    }
}

/// Checking a connection again and noting the step leaves the thing on that
/// connection exactly when both filters allow it, and on every other
/// connection as before; a list without repeats stays without repeats.
pub proof fn lemma_presence_follows_filters<Id>(
    on: Seq<Id>,
    id: Id,
    allowed: bool,
    entity_allowed: bool,
    other: Id,
)
    requires
        on.no_duplicates(),
    ensures
        ({
            let after = recorded(on, id, presence_for(on.contains(id), allowed, entity_allowed));
            &&& after.contains(id) == (allowed && entity_allowed)
            &&& other != id ==> after.contains(other) == on.contains(other)
            &&& after.no_duplicates()
        }),
{
    broadcast use vstd::seq_lib::group_filter_ensures;

    let step = presence_for(on.contains(id), allowed, entity_allowed);
    let after = recorded(on, id, step);
    let keep = |x: Id| x != id;
    match step {
        Presence::Add => {
            assert(after[on.len() as int] == id);
            if on.contains(other) {
                let j = choose|j: int| 0 <= j < on.len() && on[j] == other;
                assert(after[j] == other);
            }
            if other != id && after.contains(other) {
                let j = choose|j: int| 0 <= j < after.len() && after[j] == other;
                assert(on[j] == other);
            }
        },
        Presence::Remove | Presence::Forget => {
            lemma_filter_members(on, keep, id);
            lemma_filter_members(on, keep, other);
            lemma_filter_no_duplicates(on, keep);
        },
        _ => {},
    }
}

/// The connections named by `checks`, in order.
pub open spec fn check_ids<Id>(checks: Seq<(Id, bool, bool)>) -> Seq<Id> {
    checks.map_values(|check: (Id, bool, bool)| check.0)
}

/// The list of connections a thing is on after every check of `checks` was
/// taken in turn: a check names a connection, whether the thing's filter
/// allows it, and whether the filter of its entity does.
pub open spec fn after_pass<Id>(on: Seq<Id>, checks: Seq<(Id, bool, bool)>) -> Seq<Id>
    decreases checks.len(),
{
    if checks.len() == 0 {
        on
    } else {
        let before = after_pass(on, checks.drop_last());
        let (id, allowed, entity_allowed) = checks.last();
        recorded(before, id, presence_for(before.contains(id), allowed, entity_allowed))
    }
}

/// After one pass over distinct connections, the thing is on each checked
/// connection exactly when both filters allow it, on every other connection
/// as before, and on none twice.
pub proof fn lemma_pass_follows_filters<Id>(on: Seq<Id>, checks: Seq<(Id, bool, bool)>, k: int, id: Id)
    requires
        on.no_duplicates(),
        check_ids(checks).no_duplicates(),
    ensures
        after_pass(on, checks).no_duplicates(),
        0 <= k < checks.len() ==> after_pass(on, checks).contains(checks[k].0) == (checks[k].1 && checks[k].2),
        !check_ids(checks).contains(id) ==> after_pass(on, checks).contains(id) == on.contains(id),
    decreases checks.len(),
{
    if checks.len() > 0 {
        let init = checks.drop_last();
        let last = checks.last();
        let n = checks.len() - 1;
        assert(check_ids(init) =~= check_ids(checks).drop_last());
        assert(check_ids(init).no_duplicates()) by {
            assert forall|i: int, j: int| 0 <= i < j < check_ids(init).len() implies check_ids(init)[i]
                != check_ids(init)[j] by {
                assert(check_ids(checks)[i] == check_ids(init)[i]);
                assert(check_ids(checks)[j] == check_ids(init)[j]);
            }
        }
        let before = after_pass(on, init);
        if 0 <= k < n {
            lemma_pass_follows_filters(on, init, k, id);
            lemma_presence_follows_filters(before, last.0, last.1, last.2, id);
            assert(check_ids(checks)[k] == checks[k].0);
            assert(check_ids(checks)[n] == last.0);
            lemma_presence_follows_filters(before, last.0, last.1, last.2, checks[k].0);
        } else {
            lemma_pass_follows_filters(on, init, 0, id);
            lemma_presence_follows_filters(before, last.0, last.1, last.2, id);
        }
        if !check_ids(checks).contains(id) {
            assert(check_ids(checks)[n] == last.0);
            if check_ids(init).contains(id) {
                let j = choose|j: int| 0 <= j < check_ids(init).len() && check_ids(init)[j] == id;
                assert(check_ids(checks)[j] == id);
            }
        }
    }
}

/// One pass: checks every connection of `checks` in turn (see
/// [`after_pass`]) and notes each step in `on`. The `i`-th step is the one
/// for the `i`-th check, given the list as the checks before it left it.
pub fn presence_pass<Id: PartialEq + Copy>(on: &mut Vec<Id>, checks: &Vec<(Id, bool, bool)>) -> (steps: Vec<Presence>)
    requires
        obeys_concrete_eq::<Id>(),
    ensures
        final(on)@ == after_pass(old(on)@, checks@),
        steps@.len() == checks@.len(),
        forall|i: int|
            0 <= i < checks@.len() ==> steps@[i] == presence_for(
                #[trigger] after_pass(old(on)@, checks@.take(i)).contains(checks@[i].0),
                checks@[i].1,
                checks@[i].2,
            ),
{
    let ghost start = on@;
    let mut steps: Vec<Presence> = Vec::new();
    let mut i: usize = 0;
    while i < checks.len()
        invariant
            obeys_concrete_eq::<Id>(),
            i <= checks.len(),
            on@ == after_pass(start, checks@.take(i as int)),
            steps@.len() == i,
            forall|j: int|
                0 <= j < i ==> steps@[j] == presence_for(
                    #[trigger] after_pass(start, checks@.take(j)).contains(checks@[j].0),
                    checks@[j].1,
                    checks@[j].2,
                ),
        decreases checks.len() - i,
    {
        let (id, allowed, entity_allowed) = checks[i];
        proof {
            let t = checks@.take(i + 1);
            assert(t.drop_last() =~= checks@.take(i as int));
            assert(t.last() == checks@[i as int]);
        }
        let step = presence_on(on, &id, allowed, entity_allowed);
        record_presence(on, id, step);
        steps.push(step);
        i = i + 1;
    }
    proof {
        assert(checks@.take(checks@.len() as int) =~= checks@);
    }
    steps
}

/// An entry survives a filter exactly when it was there and passes it.
proof fn lemma_filter_members<Id>(s: Seq<Id>, keep: spec_fn(Id) -> bool, x: Id)
    ensures
        s.filter(keep).contains(x) == (s.contains(x) && keep(x)),
{
    broadcast use vstd::seq_lib::group_filter_ensures;

    if s.filter(keep).contains(x) {
        s.lemma_filter_contains_rev(keep, x);
        let j = choose|j: int| 0 <= j < s.filter(keep).len() && s.filter(keep)[j] == x;
        assert(keep(s.filter(keep)[j]));
    }
    if s.contains(x) && keep(x) {
        let j = choose|j: int| 0 <= j < s.len() && s[j] == x;
        assert(s.filter(keep).contains(s[j]));
    }
}

/// Filtering a list without repeats gives a list without repeats.
proof fn lemma_filter_no_duplicates<Id>(s: Seq<Id>, keep: spec_fn(Id) -> bool)
    requires
        s.no_duplicates(),
    ensures
        s.filter(keep).no_duplicates(),
    decreases s.len(),
{
    reveal(Seq::filter);
    if s.len() > 0 {
        let init = s.drop_last();
        assert(init.no_duplicates()) by {
            assert forall|i: int, j: int| 0 <= i < j < init.len() implies init[i] != init[j] by {
                assert(s[i] == init[i] && s[j] == init[j]);
            }
        }
        lemma_filter_no_duplicates(init, keep);
        if keep(s.last()) {
            lemma_filter_members(init, keep, s.last());
            if init.contains(s.last()) {
                let j = choose|j: int| 0 <= j < init.len() && init[j] == s.last();
                assert(s[j] == s[s.len() - 1]);
            }
            let fi = init.filter(keep);
            assert forall|i: int, j: int| 0 <= i < j < fi.len() + 1 implies fi.push(s.last())[i] != fi.push(s.last())[j] by {
                if j == fi.len() {
                    assert(fi.contains(fi[i]));
                }
            }
        }
    }
}

} // verus!
