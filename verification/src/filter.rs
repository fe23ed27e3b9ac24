//! Allow/deny lists over identifiers, and how two of them combine.

use vstd::laws_eq::{obeys_concrete_eq, obeys_eq_spec_properties};
use vstd::prelude::*;
use vstd::std_specs::cmp::{PartialEqSpec, PartialEqSpecImpl};

verus! {

/// A list-based filter: a blacklist allows every entry it does not list,
/// a whitelist allows exactly the entries it lists.
#[derive(Debug, Clone)]
pub enum Filter<T> {
    Blacklist(Vec<T>),
    Whitelist(Vec<T>),
}

/// The mathematical content of a [`Filter`]: its kind and its entries in order.
pub enum FilterView<T> {
    Blacklist(Seq<T>),
    Whitelist(Seq<T>),
}

/// `s` with every run of equal neighbouring entries collapsed to its first entry.
pub open spec fn dedup_seq<T>(s: Seq<T>) -> Seq<T>
    decreases s.len(),
{
    if s.len() <= 1 {
        s
    } else if s.last() == s[s.len() - 2] {
        dedup_seq(s.drop_last())
    } else {
        dedup_seq(s.drop_last()).push(s.last())
    }
}

/// The entries of `s`, in order, whose presence in `other` is `listed`.
pub open spec fn kept<T>(s: Seq<T>, other: Seq<T>, listed: bool) -> Seq<T> {
    s.filter(|x: T| other.contains(x) == listed)
}

impl<T> FilterView<T> {
    /// Whether the filter lets `entry` through.
    pub open spec fn allows(self, entry: T) -> bool {
        match self {
            FilterView::Blacklist(items) => !items.contains(entry),
            FilterView::Whitelist(items) => items.contains(entry),
        }
    }

    /// The filter that [`Filter::merge`] builds from `self` and `other`.
    pub open spec fn merge(self, other: Self) -> Self {
        match self {
            FilterView::Blacklist(mine) => match other {
                FilterView::Blacklist(theirs) => FilterView::Blacklist(dedup_seq(mine + theirs)),
                FilterView::Whitelist(theirs) => FilterView::Whitelist(kept(theirs, mine, false)),
            },
            FilterView::Whitelist(mine) => match other {
                FilterView::Blacklist(theirs) => FilterView::Whitelist(kept(mine, theirs, false)),
                FilterView::Whitelist(theirs) => FilterView::Whitelist(kept(mine, theirs, true)),
            },
        }
    }
}

impl<T> View for Filter<T> {
    type V = FilterView<T>;

    open spec fn view(&self) -> FilterView<T> {
        match self {
            Filter::Blacklist(items) => FilterView::Blacklist(items@),
            Filter::Whitelist(items) => FilterView::Whitelist(items@),
        }
    }
}


/// Whether `items` holds an entry that compares equal to `entry` under
/// `T`'s `==`, the question `Vec::contains` answers.
pub open spec fn listed<T: PartialEq>(items: Seq<T>, entry: T) -> bool {
    exists|i: int| 0 <= i < items.len() && #[trigger] items[i].eq_spec(&entry)
}

/// `s` with every entry dropped that compares equal to the entry kept just
/// before it: each run of equal entries collapses to its first entry.
pub open spec fn dedup_under_eq<T: PartialEq>(s: Seq<T>) -> Seq<T>
    decreases s.len(),
{
    if s.len() == 0 {
        s
    } else {
        let d = dedup_under_eq(s.drop_last());
        if d.len() > 0 && d.last().eq_spec(&s.last()) {
            d
        } else {
            d.push(s.last())
        }
    }
}

/// The entries of `s`, in order, for which being listed in `other` is `listed_there`.
pub open spec fn kept_under_eq<T: PartialEq>(s: Seq<T>, other: Seq<T>, listed_there: bool) -> Seq<T> {
    s.filter(|x: T| listed(other, x) == listed_there)
}

/// Whether the filter `filter` lets `entry` through when entries are
/// compared with `T`'s `==`, as [`Filter::is_allowed`] does.
pub open spec fn allows_under_eq<T: PartialEq>(filter: FilterView<T>, entry: T) -> bool {
    match filter {
        FilterView::Blacklist(items) => !listed(items, entry),
        FilterView::Whitelist(items) => listed(items, entry),
    }
}

/// The filter that [`Filter::merge`] builds from `mine` and `theirs` when
/// entries are compared with `T`'s `==`.
pub open spec fn merge_under_eq<T: PartialEq>(mine: FilterView<T>, theirs: FilterView<T>) -> FilterView<T> {
    match mine {
        FilterView::Blacklist(a) => match theirs {
            FilterView::Blacklist(b) => FilterView::Blacklist(dedup_under_eq(a + b)),
            FilterView::Whitelist(b) => FilterView::Whitelist(kept_under_eq(b, a, false)),
        },
        FilterView::Whitelist(a) => match theirs {
            FilterView::Blacklist(b) => FilterView::Whitelist(kept_under_eq(a, b, false)),
            FilterView::Whitelist(b) => FilterView::Whitelist(kept_under_eq(a, b, true)),
        },
    }
}

/// Whether `items` holds an entry equal to `entry`.
pub(crate) fn vec_contains<T: PartialEq>(items: &Vec<T>, entry: &T) -> (found: bool)
    requires
        obeys_concrete_eq::<T>(),
    ensures
        found == items@.contains(*entry),
{
    proof {
        reveal(obeys_concrete_eq);
    }
    let mut i: usize = 0;
    while i < items.len()
        invariant
            obeys_concrete_eq::<T>(),
            i <= items.len(),
            forall|j: int| 0 <= j < i ==> items@[j] != *entry,
        decreases items.len() - i,
    {
        if items[i] == *entry {
            assert(items@[i as int] == *entry) by {
                reveal(obeys_concrete_eq);
            }
            return true;
        }
        assert(items@[i as int] != *entry) by {
            reveal(obeys_concrete_eq);
        }
        i = i + 1;
    }
    false
}

/// Whether some entry of `items` compares equal to `entry` under `T`'s `==`.
fn vec_lists<T: PartialEq>(items: &Vec<T>, entry: &T) -> (found: bool)
    ensures
        T::obeys_eq_spec() ==> found == listed(items@, *entry),
{
    let mut i: usize = 0;
    while i < items.len()
        invariant
            i <= items.len(),
            T::obeys_eq_spec() ==> forall|j: int| 0 <= j < i ==> !(#[trigger] items@[j].eq_spec(entry)),
        decreases items.len() - i,
    {
        if items[i] == *entry {
            proof {
                if T::obeys_eq_spec() {
                    assert(items@[i as int].eq_spec(entry));
                }
            }
            return true;
        }
        i = i + 1;
    }
    false
}

/// The entries of `items`, in order, for which being listed in `other` is `listed_there`.
fn keep_by_membership<T: PartialEq>(items: Vec<T>, other: &Vec<T>, listed_there: bool) -> (out: Vec<T>)
    ensures
        T::obeys_eq_spec() ==> out@ == kept_under_eq(items@, other@, listed_there),
{
    let ghost src = items@;
    let ghost pred = |x: T| listed(other@, x) == listed_there;
    let mut out: Vec<T> = Vec::new();
    for item in it: items.into_iter()
        invariant
            it.seq() == src,
            pred == (|x: T| listed(other@, x) == listed_there),
            T::obeys_eq_spec() ==> out@ == src.take(it.index() as int).filter(pred),
    {
        let ghost idx = it.index() as int;
        proof {
            assert(src.take(idx + 1).drop_last() =~= src.take(idx));
            assert(item == src[idx]);
        }
        let found = vec_lists(other, &item);
        proof {
            reveal(Seq::filter);
            let t = src.take(idx + 1);
            assert(t.filter(pred) == if pred(t.last()) {
                t.drop_last().filter(pred).push(t.last())
            } else {
                t.drop_last().filter(pred)
            });
        }
        if found == listed_there {
            out.push(item);
        }
    }
    proof {
        assert(src.take(src.len() as int) =~= src);
    }
    out
}

/// `items` with each entry dropped that compares equal to the entry kept
/// just before it, as [`dedup_under_eq`] says.
fn dedup_vec<T: PartialEq>(items: Vec<T>) -> (out: Vec<T>)
    ensures
        T::obeys_eq_spec() ==> out@ == dedup_under_eq(items@),
{
    let ghost src = items@;
    let mut out: Vec<T> = Vec::new();
    for item in it: items.into_iter()
        invariant
            it.seq() == src,
            T::obeys_eq_spec() ==> out@ == dedup_under_eq(src.take(it.index() as int)),
    {
        let ghost idx = it.index() as int;
        proof {
            let t = src.take(idx + 1);
            assert(t.drop_last() =~= src.take(idx));
            assert(item == src[idx]);
            assert(t.last() == src[idx]);
        }
        let len = out.len();
        if len == 0 {
            out.push(item);
        } else {
            let same = out[len - 1] == item;
            if !same {
                out.push(item);
            }
        }
    }
    proof {
        assert(src.take(src.len() as int) =~= src);
    }
    out
}

/// Collapsing runs of equal neighbours keeps exactly the entries that were there.
proof fn lemma_dedup_same_entries<T>(s: Seq<T>, x: T)
    ensures
        dedup_seq(s).contains(x) == s.contains(x),
    decreases s.len(),
{
    if s.len() <= 1 {
    } else {
        let init = s.drop_last();
        lemma_dedup_same_entries(init, x);
        assert(s =~= init.push(s.last()));
        if s.contains(x) && !init.contains(x) {
            assert(x == s.last());
        }
        if init.contains(x) {
            let j = choose|j: int| 0 <= j < init.len() && init[j] == x;
            assert(s[j] == x);
        }
        if s.last() == s[s.len() - 2] {
            assert(init.contains(s[s.len() - 2]));
        } else {
            let d = dedup_seq(init);
            assert(d.push(s.last()).contains(x) == (d.contains(x) || x == s.last())) by {
                if d.push(s.last()).contains(x) && x != s.last() {
                    let j = choose|j: int| 0 <= j < d.len() + 1 && d.push(s.last())[j] == x;
                    assert(d[j] == x);
                }
                if d.contains(x) {
                    let j = choose|j: int| 0 <= j < d.len() && d[j] == x;
                    assert(d.push(s.last())[j] == x);
                }
                if x == s.last() {
                    assert(d.push(s.last())[d.len() as int] == x);
                }
            }
        }
    }
}

/// Every entry that survives a filter was in the sequence it came from.
proof fn lemma_filter_subset<T>(s: Seq<T>, pred: spec_fn(T) -> bool, x: T)
    requires
        s.filter(pred).contains(x),
    ensures
        s.contains(x),
        pred(x),
{
    broadcast use vstd::seq_lib::group_filter_ensures;

    s.lemma_filter_contains_rev(pred, x);
    let j = choose|j: int| 0 <= j < s.filter(pred).len() && s.filter(pred)[j] == x;
    assert(pred(s.filter(pred)[j]));
}

/// Keeping the entries of `s` by their membership in `other` keeps an entry
/// exactly when it is in `s` and its membership in `other` is `listed`.
proof fn lemma_kept_entries<T>(s: Seq<T>, other: Seq<T>, listed: bool, x: T)
    ensures
        kept(s, other, listed).contains(x) == (s.contains(x) && other.contains(x) == listed),
{
    broadcast use vstd::seq_lib::group_filter_ensures;

    let pred = |y: T| other.contains(y) == listed;
    if s.contains(x) && pred(x) {
        let j = choose|j: int| 0 <= j < s.len() && s[j] == x;
        assert(s.filter(pred).contains(s[j]));
    }
    if s.filter(pred).contains(x) {
        lemma_filter_subset(s, pred, x);
    }
}

/// Merging two filters gives the filter that lets an entry through exactly
/// when both of them let it through.
pub proof fn lemma_merge_allows_both<T>(a: FilterView<T>, b: FilterView<T>, entry: T)
    ensures
        a.merge(b).allows(entry) == (a.allows(entry) && b.allows(entry)),
{
    match a {
        FilterView::Blacklist(mine) => match b {
            FilterView::Blacklist(theirs) => {
                lemma_dedup_same_entries(mine + theirs, entry);
                if (mine + theirs).contains(entry) {
                    let j = choose|j: int| 0 <= j < (mine + theirs).len() && (mine + theirs)[j] == entry;
                    if j < mine.len() {
                        assert(mine[j] == entry);
                    } else {
                        assert(theirs[j - mine.len()] == entry);
                    }
                }
                if mine.contains(entry) {
                    let j = choose|j: int| 0 <= j < mine.len() && mine[j] == entry;
                    assert((mine + theirs)[j] == entry);
                }
                if theirs.contains(entry) {
                    let j = choose|j: int| 0 <= j < theirs.len() && theirs[j] == entry;
                    assert((mine + theirs)[j + mine.len()] == entry);
                }
            },
            FilterView::Whitelist(theirs) => lemma_kept_entries(theirs, mine, false, entry),
        },
        FilterView::Whitelist(mine) => match b {
            FilterView::Blacklist(theirs) => lemma_kept_entries(mine, theirs, false, entry),
            FilterView::Whitelist(theirs) => lemma_kept_entries(mine, theirs, true, entry),
        },
    }
}

/// An entry is listed in `s` with `y` pushed exactly when it is listed in
/// `s` or compares equal to `y`.
proof fn lemma_listed_push<T: PartialEq>(s: Seq<T>, y: T, x: T)
    ensures
        listed(s.push(y), x) == (listed(s, x) || y.eq_spec(&x)),
{
    let t = s.push(y);
    if listed(t, x) && !y.eq_spec(&x) {
        let j = choose|j: int| 0 <= j < t.len() && #[trigger] t[j].eq_spec(&x);
        assert(s[j] == t[j]);
    }
    if listed(s, x) {
        let j = choose|j: int| 0 <= j < s.len() && #[trigger] s[j].eq_spec(&x);
        assert(t[j] == s[j]);
    }
    if y.eq_spec(&x) {
        assert(t[s.len() as int] == y);
    }
}

/// Under an equivalence, entries that compare equal are listed alike.
proof fn lemma_listed_respects<T: PartialEq>(s: Seq<T>, y: T, x: T)
    requires
        obeys_eq_spec_properties::<T>(),
        y.eq_spec(&x),
    ensures
        listed(s, y) == listed(s, x),
{
    reveal(obeys_eq_spec_properties);
    if listed(s, y) {
        let j = choose|j: int| 0 <= j < s.len() && #[trigger] s[j].eq_spec(&y);
        assert(s[j].eq_spec(&x));
    }
    if listed(s, x) {
        let j = choose|j: int| 0 <= j < s.len() && #[trigger] s[j].eq_spec(&x);
        assert(x.eq_spec(&y));
        assert(s[j].eq_spec(&y));
    }
}

/// Under an equivalence, collapsing runs keeps exactly what was listed.
proof fn lemma_dedup_under_eq_same_entries<T: PartialEq>(s: Seq<T>, x: T)
    requires
        obeys_eq_spec_properties::<T>(),
    ensures
        listed(dedup_under_eq(s), x) == listed(s, x),
    decreases s.len(),
{
    if s.len() > 0 {
        let init = s.drop_last();
        let l = s.last();
        let d = dedup_under_eq(init);
        lemma_dedup_under_eq_same_entries(init, x);
        assert(s =~= init.push(l));
        lemma_listed_push(init, l, x);
        if d.len() > 0 && d.last().eq_spec(&l) {
            if l.eq_spec(&x) {
                reveal(obeys_eq_spec_properties);
                assert(d.last().eq_spec(&x));
                assert(d[d.len() - 1].eq_spec(&x));
            }
        } else {
            lemma_listed_push(d, l, x);
        }
    }
}

/// Under an equivalence, keeping the entries of `s` by whether they are
/// listed in `other` keeps an entry listed exactly when it is listed in `s`
/// and its being listed in `other` is `listed_there`.
proof fn lemma_kept_under_eq_entries<T: PartialEq>(s: Seq<T>, other: Seq<T>, listed_there: bool, x: T)
    requires
        obeys_eq_spec_properties::<T>(),
    ensures
        listed(kept_under_eq(s, other, listed_there), x) == (listed(s, x) && listed(other, x) == listed_there),
{
    broadcast use vstd::seq_lib::group_filter_ensures;

    let pred = |y: T| listed(other, y) == listed_there;
    let f = s.filter(pred);
    if listed(f, x) {
        let j = choose|j: int| 0 <= j < f.len() && #[trigger] f[j].eq_spec(&x);
        assert(f.contains(f[j]));
        lemma_filter_subset(s, pred, f[j]);
        let k = choose|k: int| 0 <= k < s.len() && s[k] == f[j];
        assert(s[k].eq_spec(&x));
        lemma_listed_respects(other, f[j], x);
    }
    if listed(s, x) && listed(other, x) == listed_there {
        let k = choose|k: int| 0 <= k < s.len() && #[trigger] s[k].eq_spec(&x);
        lemma_listed_respects(other, s[k], x);
        assert(pred(s[k]));
        assert(f.contains(s[k]));
        let j = choose|j: int| 0 <= j < f.len() && f[j] == s[k];
        assert(f[j].eq_spec(&x));
    }
}

/// Under an equivalence, merging two filters (comparing with `T`'s `==`) gives the filter that lets an
/// entry through exactly when both of them let it through.
pub proof fn lemma_merge_under_eq_allows_both<T: PartialEq>(a: FilterView<T>, b: FilterView<T>, entry: T)
    requires
        obeys_eq_spec_properties::<T>(),
    ensures
        allows_under_eq(merge_under_eq(a, b), entry) == (allows_under_eq(a, entry) && allows_under_eq(b, entry)),
{
    match a {
        FilterView::Blacklist(mine) => match b {
            FilterView::Blacklist(theirs) => {
                lemma_dedup_under_eq_same_entries(mine + theirs, entry);
                let both = mine + theirs;
                if listed(both, entry) {
                    let j = choose|j: int| 0 <= j < both.len() && #[trigger] both[j].eq_spec(&entry);
                    if j < mine.len() {
                        assert(mine[j] == both[j]);
                    } else {
                        assert(theirs[j - mine.len()] == both[j]);
                    }
                }
                if listed(mine, entry) {
                    let j = choose|j: int| 0 <= j < mine.len() && #[trigger] mine[j].eq_spec(&entry);
                    assert(both[j] == mine[j]);
                }
                if listed(theirs, entry) {
                    let j = choose|j: int| 0 <= j < theirs.len() && #[trigger] theirs[j].eq_spec(&entry);
                    assert(both[j + mine.len()] == theirs[j]);
                }
            },
            FilterView::Whitelist(theirs) => lemma_kept_under_eq_entries(theirs, mine, false, entry),
        },
        FilterView::Whitelist(mine) => match b {
            FilterView::Blacklist(theirs) => lemma_kept_under_eq_entries(mine, theirs, false, entry),
            FilterView::Whitelist(theirs) => lemma_kept_under_eq_entries(mine, theirs, true, entry),
        },
    }
}

/// When `T`'s `==` is equality, being listed is being contained.
proof fn lemma_listed_is_contains<T: PartialEq>(s: Seq<T>, x: T)
    requires
        obeys_concrete_eq::<T>(),
    ensures
        listed(s, x) == s.contains(x),
{
    reveal(obeys_concrete_eq);
    if listed(s, x) {
        let j = choose|j: int| 0 <= j < s.len() && #[trigger] s[j].eq_spec(&x);
        assert(s[j] == x);
    }
    if s.contains(x) {
        let j = choose|j: int| 0 <= j < s.len() && s[j] == x;
        assert(s[j].eq_spec(&x));
    }
}

/// When `T`'s `==` is equality, the last entry kept is the last entry.
proof fn lemma_dedup_under_eq_last<T: PartialEq>(s: Seq<T>)
    requires
        obeys_concrete_eq::<T>(),
        s.len() > 0,
    ensures
        dedup_under_eq(s).len() > 0,
        dedup_under_eq(s).last() == s.last(),
    decreases s.len(),
{
    reveal(obeys_concrete_eq);
    if s.len() > 1 {
        lemma_dedup_under_eq_last(s.drop_last());
    }
}

/// When `T`'s `==` is equality, both ways of collapsing runs agree.
proof fn lemma_dedup_agree<T: PartialEq>(s: Seq<T>)
    requires
        obeys_concrete_eq::<T>(),
    ensures
        dedup_under_eq(s) == dedup_seq(s),
    decreases s.len(),
{
    reveal(obeys_concrete_eq);
    if s.len() > 1 {
        let init = s.drop_last();
        lemma_dedup_agree(init);
        lemma_dedup_under_eq_last(init);
        assert(init.last() == s[s.len() - 2]);
    } else if s.len() == 1 {
        assert(s.drop_last().len() == 0);
        assert(dedup_under_eq(s.drop_last()).len() == 0);
        assert(dedup_under_eq(s) =~= s);
    }
}

/// When `T`'s `==` is equality, both ways of keeping entries agree.
proof fn lemma_kept_agree<T: PartialEq>(s: Seq<T>, other: Seq<T>, listed_there: bool)
    requires
        obeys_concrete_eq::<T>(),
    ensures
        kept_under_eq(s, other, listed_there) == kept(s, other, listed_there),
{
    let p = |x: T| listed(other, x) == listed_there;
    let q = |y: T| other.contains(y) == listed_there;
    assert forall|x: T| #[trigger] p(x) == q(x) by {
        lemma_listed_is_contains(other, x);
    }
    assert(p =~= q);
}

/// When `T`'s `==` is equality, the filter [`Filter::merge`] builds is [`FilterView::merge`].
proof fn lemma_merge_agree<T: PartialEq>(a: FilterView<T>, b: FilterView<T>)
    requires
        obeys_concrete_eq::<T>(),
    ensures
        merge_under_eq(a, b) == a.merge(b),
{
    match a {
        FilterView::Blacklist(mine) => match b {
            FilterView::Blacklist(theirs) => lemma_dedup_agree(mine + theirs),
            FilterView::Whitelist(theirs) => lemma_kept_agree(theirs, mine, false),
        },
        FilterView::Whitelist(mine) => match b {
            FilterView::Blacklist(theirs) => lemma_kept_agree(mine, theirs, false),
            FilterView::Whitelist(theirs) => lemma_kept_agree(mine, theirs, true),
        },
    }
}

/// Whether `a` and `b` have equal length and entries that compare equal
/// pairwise under `T`'s `==`.
pub open spec fn entries_eq<T: PartialEq>(a: Seq<T>, b: Seq<T>) -> bool {
    a.len() == b.len() && forall|i: int| 0 <= i < a.len() ==> #[trigger] a[i].eq_spec(&b[i])
}

/// Compares two lists entry by entry with `T`'s `==`.
fn vec_eq<T: PartialEq>(a: &Vec<T>, b: &Vec<T>) -> (same: bool)
    ensures
        T::obeys_eq_spec() ==> same == entries_eq(a@, b@),
{
    if a.len() != b.len() {
        return false;
    }
    let mut i: usize = 0;
    while i < a.len()
        invariant
            a.len() == b.len(),
            i <= a.len(),
            T::obeys_eq_spec() ==> forall|j: int| 0 <= j < i ==> #[trigger] a@[j].eq_spec(&b@[j]),
        decreases a.len() - i,
    {
        if !(a[i] == b[i]) {
            return false;
        }
        i = i + 1;
    }
    true
}

impl<T: PartialEq> PartialEq for Filter<T> {
    fn eq(&self, other: &Self) -> (same: bool) {
        match self {
            Filter::Blacklist(mine) => match other {
                Filter::Blacklist(theirs) => vec_eq(mine, theirs),
                Filter::Whitelist(_) => false,
            },
            Filter::Whitelist(mine) => match other {
                Filter::Blacklist(_) => false,
                Filter::Whitelist(theirs) => vec_eq(mine, theirs),
            },
        }
    }
}

impl<T: PartialEq> PartialEqSpecImpl for Filter<T> {
    open spec fn obeys_eq_spec() -> bool {
        T::obeys_eq_spec()
    }

    open spec fn eq_spec(&self, other: &Self) -> bool {
        match (self, other) {
            (Filter::Blacklist(mine), Filter::Blacklist(theirs)) => entries_eq(mine@, theirs@),
            (Filter::Whitelist(mine), Filter::Whitelist(theirs)) => entries_eq(mine@, theirs@),
            _ => false,
        }
    }
}

impl<T: Eq> Eq for Filter<T> {}

/// When `T`'s `==` is equality, comparing entry by entry is equality.
proof fn lemma_entries_eq_is_equal<T: PartialEq>(x: Seq<T>, y: Seq<T>)
    requires
        obeys_concrete_eq::<T>(),
    ensures
        entries_eq(x, y) <==> x == y,
{
    reveal(obeys_concrete_eq);
    if entries_eq(x, y) {
        assert forall|i: int| 0 <= i < x.len() implies x[i] == y[i] by {
            assert(x[i].eq_spec(&y[i]));
        }
        assert(x =~= y);
    }
    if x == y {
        assert forall|i: int| 0 <= i < x.len() implies #[trigger] x[i].eq_spec(&y[i]) by {
            assert(x[i] == y[i]);
        }
    }
}

/// When `T`'s `==` is equality, two filters compare equal exactly when they
/// have the same kind and the same entries in the same order.
pub proof fn lemma_filter_eq_is_view_eq<T: PartialEq>(a: Filter<T>, b: Filter<T>)
    requires
        obeys_concrete_eq::<T>(),
    ensures
        PartialEqSpec::eq_spec(&a, &b) <==> (a@ == b@),
{
    reveal(obeys_concrete_eq);
    match (a, b) {
        (Filter::Blacklist(x), Filter::Blacklist(y)) => lemma_entries_eq_is_equal(x@, y@),
        (Filter::Whitelist(x), Filter::Whitelist(y)) => lemma_entries_eq_is_equal(x@, y@),
        _ => {},
    }
}

impl<T: PartialEq> Filter<T> {
    /// The filter that lets every entry through: an empty blacklist.
    pub fn allow_all() -> (filter: Self)
        ensures
            filter@ == FilterView::<T>::Blacklist(Seq::empty()),
            forall|entry: T| filter@.allows(entry),
    {
        Filter::Blacklist(Vec::new())
    }

    /// The filter that lets no entry through: an empty whitelist.
    pub fn allow_none() -> (filter: Self)
        ensures
            filter@ == FilterView::<T>::Whitelist(Seq::empty()),
            forall|entry: T| !filter@.allows(entry),
    {
        Filter::Whitelist(Vec::new())
    }

    /// Whether this filter lets `entry` through.
    pub fn is_allowed(&self, entry: &T) -> (allowed: bool)
        ensures
            T::obeys_eq_spec() ==> allowed == allows_under_eq(self@, *entry),
            obeys_concrete_eq::<T>() ==> allowed == self@.allows(*entry),
    {
        let allowed = match self {
            Filter::Blacklist(items) => !vec_lists(items, entry),
            Filter::Whitelist(items) => vec_lists(items, entry),
        };
        proof {
            if obeys_concrete_eq::<T>() {
                reveal(obeys_concrete_eq);
                match self {
                    Filter::Blacklist(items) => lemma_listed_is_contains(items@, *entry),
                    Filter::Whitelist(items) => lemma_listed_is_contains(items@, *entry),
                }
            }
        }
        allowed
    }

    /// Combines two filters into one that lets an entry through exactly when
    /// both of them do.
    pub fn merge(self, other: Self) -> (combined: Self)
        ensures
            (combined is Blacklist) == (self is Blacklist && other is Blacklist),
            T::obeys_eq_spec() ==> combined@ == merge_under_eq(self@, other@),
            obeys_concrete_eq::<T>() ==> combined@ == self@.merge(other@),
    {
        proof {
            if obeys_concrete_eq::<T>() {
                reveal(obeys_concrete_eq);
                lemma_merge_agree(self@, other@);
            }
        }
        match self {
            Filter::Blacklist(self_items) => match other {
                Filter::Blacklist(other_items) => {
                    let mut all = self_items;
                    let mut rest = other_items;
                    all.append(&mut rest);
                    Filter::Blacklist(dedup_vec(all))
                },
                Filter::Whitelist(other_items) => Filter::Whitelist(
                    keep_by_membership(other_items, &self_items, false),
                ),
            },
            Filter::Whitelist(self_items) => match other {
                Filter::Blacklist(other_items) => Filter::Whitelist(
                    keep_by_membership(self_items, &other_items, false),
                ),
                Filter::Whitelist(other_items) => Filter::Whitelist(
                    keep_by_membership(self_items, &other_items, true),
                ),
            },
        }
    }
}

} // verus!
