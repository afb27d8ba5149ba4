//! Ascending lists of identifiers, and the keys of tables in that order.

use std::collections::{HashMap, HashSet};
use vstd::prelude::*;

verus! {

/// Whether `s` rises strictly.
pub open spec fn ascending(s: Seq<u32>) -> bool {
    forall|i: int, j: int| 0 <= i < j < s.len() ==> s[i] < s[j]
}

/// Whether `s` holds exactly the identifiers in `ids`, in ascending order.
pub open spec fn lists(s: Seq<u32>, ids: Set<u32>) -> bool {
    &&& ascending(s)
    &&& forall|id: u32| s.contains(id) <==> #[trigger] ids.contains(id)
}

/// The identifiers in `ids`, in ascending order.
pub open spec fn ascending_of(ids: Set<u32>) -> Seq<u32> {
    choose|s: Seq<u32>| lists(s, ids)
}

/// Two ascending lists with the same members are equal.
pub proof fn lists_are_unique(s: Seq<u32>, t: Seq<u32>, ids: Set<u32>)
    requires
        lists(s, ids),
        lists(t, ids),
    ensures
        s == t,
    decreases s.len(),
{
    if s.len() == 0 {
        if t.len() > 0 {
            assert(t.contains(t[0]));
            assert(ids.contains(t[0]));
            assert(s.contains(t[0]));
        }
        assert(s =~= t);
    } else {
        let last = s.last();
        assert(s.contains(last));
        assert(ids.contains(last));
        assert(t.contains(last));
        let tl = t.last();
        assert(t.contains(tl));
        assert(ids.contains(tl));
        assert(s.contains(tl));
        let i = choose|i: int| 0 <= i < s.len() && s[i] == tl;
        let j = choose|j: int| 0 <= j < t.len() && t[j] == last;
        assert(tl <= last);
        assert(last <= tl);
        let rest = ids.remove(last);
        assert forall|id: u32| s.drop_last().contains(id) <==> #[trigger] rest.contains(id) by {
            if rest.contains(id) {
                assert(ids.contains(id));
                let k = choose|k: int| 0 <= k < s.len() && s[k] == id;
                assert(s.drop_last()[k] == id);
            }
            if s.drop_last().contains(id) {
                let k = choose|k: int| 0 <= k < s.drop_last().len() && s.drop_last()[k] == id;
                assert(s[k] == id);
                assert(s.contains(id));
                assert(ids.contains(id));
            }
        }
        assert forall|id: u32| t.drop_last().contains(id) <==> #[trigger] rest.contains(id) by {
            if rest.contains(id) {
                assert(ids.contains(id));
                let k = choose|k: int| 0 <= k < t.len() && t[k] == id;
                assert(t.drop_last()[k] == id);
            }
            if t.drop_last().contains(id) {
                let k = choose|k: int| 0 <= k < t.drop_last().len() && t.drop_last()[k] == id;
                assert(t[k] == id);
                assert(t.contains(id));
                assert(ids.contains(id));
            }
        }
        lists_are_unique(s.drop_last(), t.drop_last(), rest);
        assert(s =~= s.drop_last().push(last));
        assert(t =~= t.drop_last().push(last));
    }
}

/// An ascending list is the one that its members have.
pub proof fn lists_determines(s: Seq<u32>, ids: Set<u32>)
    requires
        lists(s, ids),
    ensures
        s == ascending_of(ids),
{
    lists_are_unique(s, ascending_of(ids), ids);
}

/// The identifiers in `ids` below `n`, in ascending order.
spec fn listed_below(ids: Set<u32>, n: int) -> Seq<u32>
    decreases n,
{
    if n <= 0 {
        seq![]
    } else if ids.contains((n - 1) as u32) {
        listed_below(ids, n - 1).push((n - 1) as u32)
    } else {
        listed_below(ids, n - 1)
    }
}

proof fn listed_below_lists(ids: Set<u32>, n: int)
    requires
        0 <= n <= u32::MAX + 1,
    ensures
        ascending(listed_below(ids, n)),
        forall|id: u32| #[trigger]
            listed_below(ids, n).contains(id) <==> ids.contains(id) && id < n,
    decreases n,
{
    if n > 0 {
        let below = listed_below(ids, n - 1);
        let all = listed_below(ids, n);
        listed_below_lists(ids, n - 1);
        assert forall|i: int, j: int| 0 <= i < j < all.len() implies all[i] < all[j] by {
            assert(below.contains(all[i]));
        }
        assert forall|id: u32| #[trigger] all.contains(id) <==> ids.contains(id) && id < n by {
            assert(below.contains(id) <==> ids.contains(id) && id < n - 1);
            if below.contains(id) {
                let k = choose|k: int| 0 <= k < below.len() && below[k] == id;
                assert(all[k] == id);
            }
            if ids.contains(id) && id == n - 1 {
                assert(all[all.len() - 1] == id);
            }
            if all.contains(id) {
                let k = choose|k: int| 0 <= k < all.len() && all[k] == id;
                if k < below.len() {
                    assert(below[k] == id);
                }
            }
        }
    }
}

/// Every set of identifiers has a list in ascending order, and the list of the set
/// holds exactly its members.
pub proof fn ascending_of_lists(ids: Set<u32>)
    ensures
        lists(ascending_of(ids), ids),
{
    let all = listed_below(ids, u32::MAX + 1);
    listed_below_lists(ids, u32::MAX + 1);
    assert forall|id: u32| all.contains(id) <==> #[trigger] ids.contains(id) by {
        assert(all.contains(id) <==> ids.contains(id) && id < u32::MAX + 1);
    }
    assert(lists(all, ids));
}

/// A filtered sequence holds exactly the members that pass the filter.
pub proof fn filter_members<A>(s: Seq<A>, p: spec_fn(A) -> bool)
    ensures
        forall|x: A| #[trigger] s.filter(p).contains(x) <==> s.contains(x) && p(x),
    decreases s.len(),
{
    reveal(Seq::filter);
    if s.len() > 0 {
        let front = s.drop_last();
        filter_members(front, p);
        assert forall|x: A| #[trigger] s.filter(p).contains(x) <==> s.contains(x) && p(x) by {
            let out = s.filter(p);
            let sub = front.filter(p);
            if out.contains(x) {
                let k = choose|k: int| 0 <= k < out.len() && out[k] == x;
                if k < sub.len() {
                    assert(sub[k] == x);
                    assert(sub.contains(x));
                    let j = choose|j: int| 0 <= j < front.len() && front[j] == x;
                    assert(s[j] == x);
                } else {
                    assert(s[s.len() - 1] == x);
                }
            }
            if s.contains(x) && p(x) {
                let k = choose|k: int| 0 <= k < s.len() && s[k] == x;
                if k < front.len() {
                    assert(front[k] == x);
                    assert(sub.contains(x));
                    let j = choose|j: int| 0 <= j < sub.len() && sub[j] == x;
                    assert(out[j] == x);
                } else {
                    assert(out[out.len() - 1] == x);
                }
            }
        }
    }
}

/// The first `i + 1` members of a list are its first `i` and the next one, which
/// is a new one where the list rises.
pub proof fn take_grows(s: Seq<u32>, i: int)
    requires
        0 <= i < s.len(),
    ensures
        s.take(i + 1) == s.take(i).push(s[i]),
        forall|x: u32| #[trigger]
            s.take(i + 1).contains(x) <==> (s.take(i).contains(x) || x == s[i]),
        ascending(s) ==> !s.take(i).contains(s[i]),
{
    let done = s.take(i);
    let grown = s.take(i + 1);
    assert(grown =~= done.push(s[i]));
    assert forall|x: u32| #[trigger] grown.contains(x) <==> (done.contains(x) || x == s[i]) by {
        if done.contains(x) {
            let j = choose|j: int| 0 <= j < done.len() && done[j] == x;
            assert(grown[j] == x);
        }
        if grown.contains(x) && x != s[i] {
            let j = choose|j: int| 0 <= j < grown.len() && grown[j] == x;
            assert(done[j] == x);
        }
        assert(grown[i] == s[i]);
    }
    if ascending(s) && done.contains(s[i]) {
        let j = choose|j: int| 0 <= j < done.len() && done[j] == s[i];
        assert(s[j] < s[i]);
    }
}

/// Adds an identifier to an ascending list that does not hold it.
fn insert_ascending(list: &mut Vec<u32>, id: u32)
    requires
        ascending(old(list)@),
        !old(list)@.contains(id),
    ensures
        ascending(final(list)@),
        final(list)@.len() == old(list)@.len() + 1,
        forall|x: u32| #[trigger]
            final(list)@.contains(x) <==> (old(list)@.contains(x) || x == id),
{
    let ghost before = list@;
    let mut at: usize = 0;
    while at < list.len() && list[at] < id
        invariant
            at <= list@.len(),
            list@ == before,
            ascending(before),
            forall|k: int| 0 <= k < at ==> before[k] < id,
        decreases list@.len() - at,
    {
        at = at + 1;
    }
    proof {
        if at < before.len() {
            assert(before.contains(before[at as int]));
        }
    }
    list.insert(at, id);
    proof {
        let after = list@;
        assert forall|x: u32| #[trigger] after.contains(x) <==> (before.contains(x) || x == id) by {
            if after.contains(x) {
                let k = choose|k: int| 0 <= k < after.len() && after[k] == x;
                if k < at {
                    assert(before[k] == x);
                } else if k > at {
                    assert(before[k - 1] == x);
                }
            }
            if before.contains(x) {
                let k = choose|k: int| 0 <= k < before.len() && before[k] == x;
                if k < at {
                    assert(after[k] == x);
                } else {
                    assert(after[k + 1] == x);
                }
            }
            if x == id {
                assert(after[at as int] == x);
            }
        }
    }
}

/// The keys of a table, in ascending order.
pub fn sorted_keys<V>(table: &HashMap<u32, V>) -> (keys: Vec<u32>)
    ensures
        keys@ == ascending_of(table@.dom()),
        lists(keys@, table@.dom()),
{
    let mut keys: Vec<u32> = Vec::new();
    let ghost all: Seq<u32> = vstd::std_specs::iter::IteratorSpec::remaining(
        &table.keys(),
    ).unref();
    for key in iter: table.keys()
        invariant
            iter.seq().unref() == all,
            all.no_duplicates(),
            ascending(keys@),
            keys@.len() == iter.index(),
            forall|x: u32| #[trigger]
                keys@.contains(x) <==> exists|i: int|
                    0 <= i < iter.index() && #[trigger] all[i] == x,
    {
        insert_ascending(&mut keys, *key);
    }
    proof {
        assert(keys@.len() == all.len());
        assert forall|x: u32| keys@.contains(x) <==> #[trigger] table@.dom().contains(x) by {
            assert(all.to_set().contains(x) <==> all.contains(x));
        }
        lists_determines(keys@, table@.dom());
    }
    keys
}

/// The members of a set, in ascending order.
pub fn sorted_members(set: &HashSet<u32>) -> (members: Vec<u32>)
    ensures
        members@ == ascending_of(set@),
        lists(members@, set@),
{
    let mut members: Vec<u32> = Vec::new();
    let ghost all: Seq<u32> = vstd::std_specs::iter::IteratorSpec::remaining(&set.iter()).unref();
    for member in iter: set.iter()
        invariant
            iter.seq().unref() == all,
            all.no_duplicates(),
            ascending(members@),
            members@.len() == iter.index(),
            forall|x: u32| #[trigger]
                members@.contains(x) <==> exists|i: int|
                    0 <= i < iter.index() && #[trigger] all[i] == x,
    {
        insert_ascending(&mut members, *member);
    }
    proof {
        assert(members@.len() == all.len());
        assert forall|x: u32| members@.contains(x) <==> #[trigger] set@.contains(x) by {
            assert(all.to_set().contains(x) <==> all.contains(x));
        }
        lists_determines(members@, set@);
    }
    members
}

} // verus!
