//! The ascending order of identifiers, in which the ordered collections hand
//! their keys out.

use vstd::prelude::*;
use std::collections::{BTreeMap, BTreeSet};
use vstd::std_specs::cmp::OrdSpec;
use vstd::std_specs::iter::IteratorSpec;

verus! {

/// Whether the pair `a` comes before the pair `b`: by the first parts, and
/// where those are equal by the second.
pub open spec fn pair_lt(a: (u64, u64), b: (u64, u64)) -> bool {
    a.0 < b.0 || (a.0 == b.0 && a.1 < b.1)
}

/// Whether each pair of `s` comes before those that follow it.
pub open spec fn ascending_pairs(s: Seq<(u64, u64)>) -> bool {
    forall|i: int, j: int| 0 <= i < j < s.len() ==> pair_lt(#[trigger] s[i], #[trigger] s[j])
}

/// Whether `s` holds the pairs of `set`, each once, in ascending order.
pub open spec fn lists_pairs(s: Seq<(u64, u64)>, set: Set<(u64, u64)>) -> bool {
    &&& ascending_pairs(s)
    &&& forall|p: (u64, u64)| s.contains(p) <==> set.contains(p)
}

/// The pairs of a finite set in ascending order.
pub open spec fn in_order(set: Set<(u64, u64)>) -> Seq<(u64, u64)> {
    choose|s: Seq<(u64, u64)>| lists_pairs(s, set)
}

/// A list without its last pair lists the set without that pair.
proof fn lemma_shorter_list(s: Seq<(u64, u64)>, set: Set<(u64, u64)>)
    requires
        lists_pairs(s, set),
        s.len() > 0,
    ensures
        lists_pairs(s.drop_last(), set.remove(s.last())),
{
    let front = s.drop_last();
    let rest = set.remove(s.last());
    assert forall|p: (u64, u64)| front.contains(p) <==> rest.contains(p) by {
        if front.contains(p) {
            let i = choose|i: int| 0 <= i < front.len() && front[i] == p;
            assert(s[i] == p);
            assert(pair_lt(s[i], s[s.len() - 1]));
            assert(s.contains(p));
        }
        if rest.contains(p) {
            assert(s.contains(p));
            let i = choose|i: int| 0 <= i < s.len() && s[i] == p;
            assert(front[i] == p);
        }
    }
    assert forall|i: int, j: int| 0 <= i < j < front.len() implies pair_lt(
        #[trigger] front[i],
        #[trigger] front[j],
    ) by {
        assert(pair_lt(s[i], s[j]));
    }
}

/// The last pair of a list is the greatest of the set.
proof fn lemma_last_is_greatest(s: Seq<(u64, u64)>, set: Set<(u64, u64)>, p: (u64, u64))
    requires
        lists_pairs(s, set),
        set.contains(p),
    ensures
        s.len() > 0,
        p == s.last() || pair_lt(p, s.last()),
        set.contains(s.last()),
{
    assert(s.contains(p));
    let i = choose|i: int| 0 <= i < s.len() && s[i] == p;
    if i < s.len() - 1 {
        assert(pair_lt(s[i], s[s.len() - 1]));
    }
    assert(s.contains(s[s.len() - 1]));
}

/// A set has one ascending list only.
pub proof fn lemma_one_order(a: Seq<(u64, u64)>, b: Seq<(u64, u64)>, set: Set<(u64, u64)>)
    requires
        lists_pairs(a, set),
        lists_pairs(b, set),
    ensures
        a == b,
    decreases a.len(),
{
    if a.len() == 0 {
        if b.len() > 0 {
            assert(b.contains(b[0]));
            assert(a.contains(b[0]));
        }
        assert(a =~= b);
    } else {
        assert(a.contains(a[a.len() - 1]));
        lemma_last_is_greatest(b, set, a.last());
        lemma_last_is_greatest(a, set, b.last());
        assert(a.last() == b.last());
        lemma_shorter_list(a, set);
        lemma_shorter_list(b, set);
        lemma_one_order(a.drop_last(), b.drop_last(), set.remove(a.last()));
        assert(a =~= a.drop_last().push(a.last()));
        assert(b =~= b.drop_last().push(b.last()));
    }
}

/// A finite set that is not empty has a greatest pair.
proof fn lemma_greatest(set: Set<(u64, u64)>) -> (m: (u64, u64))
    requires
        set.finite(),
        set.len() > 0,
    ensures
        set.contains(m),
        forall|p: (u64, u64)| set.contains(p) ==> p == m || pair_lt(p, m),
    decreases set.len(),
{
    let x = set.choose();
    let rest = set.remove(x);
    if rest.len() == 0 {
        assert forall|p: (u64, u64)| set.contains(p) implies p == x by {
            if p != x {
                assert(rest.contains(p));
            }
        }
        x
    } else {
        let m = lemma_greatest(rest);
        let top = if pair_lt(m, x) {
            x
        } else {
            m
        };
        assert forall|p: (u64, u64)| set.contains(p) implies p == top || pair_lt(p, top) by {
            if p != x {
                assert(rest.contains(p));
            }
        }
        top
    }
}

/// Every finite set has its ascending list.
pub proof fn lemma_in_order(set: Set<(u64, u64)>)
    requires
        set.finite(),
    ensures
        lists_pairs(in_order(set), set),
    decreases set.len(),
{
    if set.len() == 0 {
        let none = Seq::<(u64, u64)>::empty();
        assert forall|p: (u64, u64)| none.contains(p) <==> set.contains(p) by {
            if set.contains(p) {
                assert(set.remove(p).len() >= 0);
            }
        }
        assert(lists_pairs(none, set));
    } else {
        let m = lemma_greatest(set);
        let rest = set.remove(m);
        lemma_in_order(rest);
        let front = in_order(rest);
        let all = front.push(m);
        assert forall|i: int, j: int| 0 <= i < j < all.len() implies pair_lt(
            #[trigger] all[i],
            #[trigger] all[j],
        ) by {
            if j < front.len() {
                assert(pair_lt(front[i], front[j]));
            } else {
                assert(front.contains(front[i]));
                assert(rest.contains(front[i]));
            }
        }
        assert forall|p: (u64, u64)| all.contains(p) <==> set.contains(p) by {
            if all.contains(p) {
                let i = choose|i: int| 0 <= i < all.len() && all[i] == p;
                if i < front.len() {
                    assert(front.contains(front[i]));
                }
            }
            if set.contains(p) {
                if p == m {
                    assert(all[front.len() as int] == p);
                } else {
                    assert(rest.contains(p));
                    assert(front.contains(p));
                    let i = choose|i: int| 0 <= i < front.len() && front[i] == p;
                    assert(all[i] == p);
                }
            }
        }
        assert(lists_pairs(all, set));
    }
}

/// The pairs of a set in ascending order.
pub fn pairs_in_order(set: &BTreeSet<(u64, u64)>) -> (order: Vec<(u64, u64)>)
    ensures
        order@ == in_order(set@),
        lists_pairs(order@, set@),
{
    let mut order: Vec<(u64, u64)> = Vec::new();
    let ghost all = set.iter().remaining();
    for p in it: set.iter()
        invariant
            it.seq() == all,
            order@ == all.unref().take(it.index()),
    {
        order.push(*p);
    }
    proof {
        assert(order@ == all.unref());
        assert(vstd::laws_cmp::obeys_cmp::<(u64, u64)>());
        assert(vstd::laws_cmp::obeys_cmp::<&(u64, u64)>());
        assert(vstd::std_specs::btree::increasing_seq(all));
        assert forall|i: int, j: int| 0 <= i < j < order@.len() implies pair_lt(
            #[trigger] order@[i],
            #[trigger] order@[j],
        ) by {
            assert(OrdSpec::cmp_spec(&all[i], &all[j]) is Less);
        }
        assert forall|p: (u64, u64)| order@.contains(p) <==> set@.contains(p) by {
            assert(order@.to_set().contains(p) <==> order@.contains(p));
        }
        assert(lists_pairs(order@, set@));
        lemma_one_order(order@, in_order(set@), set@);
    }
    order
}

/// Whether `s` holds the numbers of `set`, each once, in ascending order.
pub open spec fn lists_ids(s: Seq<u64>, set: Set<u64>) -> bool {
    &&& forall|i: int, j: int| 0 <= i < j < s.len() ==> #[trigger] s[i] < #[trigger] s[j]
    &&& forall|n: u64| s.contains(n) <==> set.contains(n)
}

/// The keys of a map in ascending order.
pub fn keys_in_order<'a, V>(map: &'a BTreeMap<u64, V>) -> (keys: Vec<&'a u64>)
    ensures
        lists_ids(keys@.unref(), map@.dom()),
{
    let mut keys: Vec<&'a u64> = Vec::new();
    let ghost all = map.keys().remaining();
    for k in it: map.keys()
        invariant
            it.seq() == all,
            keys@ == all.take(it.index()),
    {
        keys.push(k);
    }
    proof {
        assert(keys@ == all);
        let ids = keys@.unref();
        assert(vstd::laws_cmp::obeys_cmp::<u64>());
        assert(vstd::laws_cmp::obeys_cmp::<&u64>());
        assert(vstd::std_specs::btree::increasing_seq(all));
        assert forall|i: int, j: int| 0 <= i < j < ids.len() implies #[trigger] ids[i]
            < #[trigger] ids[j] by {
            assert(OrdSpec::cmp_spec(&all[i], &all[j]) is Less);
        }
        assert forall|n: u64| ids.contains(n) <==> map@.dom().contains(n) by {
            assert(ids.to_set().contains(n) <==> ids.contains(n));
        }
    }
    keys
}

} // verus!
