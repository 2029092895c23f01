//! Sets of ids and their listing in ascending order.

use std::collections::BTreeSet;
use vstd::prelude::*;
use vstd::std_specs::cmp::OrdSpec;
use vstd::std_specs::iter::IteratorSpec;

verus! {

/// Whether `v` is strictly increasing from left to right.
pub open spec fn strictly_increasing(v: Seq<u64>) -> bool {
    forall|i: int, j: int| 0 <= i < j < v.len() ==> v[i] < v[j]
}

/// Whether `v` lists exactly the members of `s`, smallest first.
pub open spec fn lists(v: Seq<u64>, s: Set<u64>) -> bool {
    &&& strictly_increasing(v)
    &&& forall|x: u64| s.contains(x) <==> v.contains(x)
}

/// The members of `s` in ascending order.
pub open spec fn ascending(s: Set<u64>) -> Seq<u64> {
    choose|v: Seq<u64>| lists(v, s)
}

/// Whether `m` is a member of `s` that no member exceeds.
pub open spec fn is_largest(m: u64, s: Set<u64>) -> bool {
    s.contains(m) && forall|x: u64| s.contains(x) ==> x <= m
}

/// The largest member of `s`, where it has one.
pub open spec fn largest(s: Set<u64>) -> u64 {
    choose|m: u64| is_largest(m, s)
}

/// A finite set with a member has a largest member.
pub proof fn lemma_largest(s: Set<u64>)
    requires
        s.finite(),
        s.len() > 0,
    ensures
        is_largest(largest(s), s),
    decreases s.len(),
{
    let x = s.choose();
    let rest = s.remove(x);
    if rest.len() == 0 {
        // `x` is the only member.
        assert(forall|y: u64| s.contains(y) && y != x ==> rest.contains(y));
        assert(is_largest(x, s));
    } else {
        lemma_largest(rest);
        let m = largest(rest);
        // The larger of `x` and the largest of the rest is the largest.
        if x > m {
            assert(forall|y: u64| s.contains(y) && y != x ==> rest.contains(y));
            assert(is_largest(x, s));
        } else {
            assert(forall|y: u64| s.contains(y) && y != x ==> rest.contains(y));
            assert(is_largest(m, s));
        }
    }
}

/// Without their last entry, the entries of an ascending listing of `s`
/// list `s` without its largest member.
proof fn lemma_listing_drop_last(a: Seq<u64>, s: Set<u64>)
    requires
        lists(a, s),
        a.len() > 0,
    ensures
        lists(a.drop_last(), s.remove(a.last())),
{
    let shorter = a.drop_last();
    let rest = s.remove(a.last());
    assert forall|x: u64| rest.contains(x) <==> shorter.contains(x) by {
        if shorter.contains(x) {
            let k = choose|k: int| 0 <= k < shorter.len() && shorter[k] == x;
            assert(a[k] == x);
        }
        if rest.contains(x) {
            assert(a.contains(x));
            let k = choose|k: int| 0 <= k < a.len() && a[k] == x;
            assert(shorter[k] == x);
        }
    }
}

/// At most one sequence lists the members of a set in ascending order.
pub proof fn lemma_listing_unique(a: Seq<u64>, b: Seq<u64>, s: Set<u64>)
    requires
        lists(a, s),
        lists(b, s),
    ensures
        a == b,
    decreases a.len(),
{
    if a.len() == 0 {
        if b.len() > 0 {
            assert(b.contains(b[0]));
        }
        assert(a =~= b);
    } else {
        // Both end in the largest member of `s`.
        assert(a.contains(a.last()));
        assert(b.contains(a.last()));
        assert(b.contains(b.last()));
        assert(a.contains(b.last()));
        assert(a.last() == b.last());
        lemma_listing_drop_last(a, s);
        lemma_listing_drop_last(b, s);
        lemma_listing_unique(a.drop_last(), b.drop_last(), s.remove(a.last()));
        assert(a =~= a.drop_last().push(a.last()));
        assert(b =~= b.drop_last().push(b.last()));
    }
}

/// A sequence that lists the members of `s` in ascending order is the
/// ascending listing of `s`.
pub proof fn lemma_ascending(v: Seq<u64>, s: Set<u64>)
    requires
        lists(v, s),
    ensures
        v == ascending(s),
        lists(ascending(s), s),
{
    lemma_listing_unique(v, ascending(s), s);
}

/// A set with an ascending listing is finite, and as large as its listing
/// is long.
pub proof fn lemma_listed_is_finite(v: Seq<u64>, s: Set<u64>)
    requires
        lists(v, s),
    ensures
        s.finite(),
        s.len() == v.len(),
{
    assert(s =~= v.to_set());
    vstd::seq_lib::seq_to_set_is_finite(v);
    v.unique_seq_to_set();
}

/// Every finite set has an ascending listing, which is as long as the set
/// is large.
pub proof fn lemma_ascending_of_finite(s: Set<u64>)
    requires
        s.finite(),
    ensures
        lists(ascending(s), s),
        ascending(s).len() == s.len(),
    decreases s.len(),
{
    if s.len() == 0 {
        assert(s =~= Set::empty());
        lemma_ascending(Seq::empty(), s);
    } else {
        // The listing of `s` without its largest member, then that member.
        lemma_largest(s);
        let m = largest(s);
        let rest = s.remove(m);
        lemma_ascending_of_finite(rest);
        let shorter = ascending(rest);
        let v = shorter.push(m);
        assert forall|i: int, j: int| 0 <= i < j < v.len() implies v[i] < v[j] by {
            assert(shorter.contains(v[i]));
        }
        assert forall|x: u64| s.contains(x) <==> v.contains(x) by {
            if s.contains(x) {
                if x == m {
                    assert(v[shorter.len() as int] == x);
                } else {
                    assert(shorter.contains(x));
                    let k = choose|k: int| 0 <= k < shorter.len() && shorter[k] == x;
                    assert(v[k] == x);
                }
            }
            if v.contains(x) {
                let k = choose|k: int| 0 <= k < v.len() && v[k] == x;
                if k < shorter.len() {
                    assert(shorter.contains(shorter[k]));
                }
            }
        }
        lemma_ascending(v, s);
    }
}

/// The members of `ids`, smallest first.
pub fn ids_ascending(ids: &BTreeSet<u64>) -> (v: Vec<u64>)
    ensures
        lists(v@, ids@),
        v@ == ascending(ids@),
        ids@.finite(),
        ids@.len() == v@.len(),
{
    broadcast use vstd::laws_cmp::group_laws_cmp;
    broadcast use vstd::std_specs::btree::group_btree_axioms;
    let mut v: Vec<u64> = Vec::new();
    let ghost all = ids.iter().remaining();
    for x in it: ids.iter()
        invariant
            it.seq() == all,
            v@.len() == it.index(),
            forall|k: int| 0 <= k < v@.len() ==> v@[k] == *all[k],
    {
        v.push(*x);
    }
    proof {
        assert(v@ =~= all.unref());
        vstd::std_specs::btree::axiom_increasing_seq_meaning::<&u64>(all);
        assert forall|i: int, j: int| 0 <= i < j < all.len() implies *all[i] < *all[j] by {
            assert(OrdSpec::cmp_spec(&all[i], &all[j]) is Less);
        }
        assert(forall|x: u64| ids@.contains(x) <==> v@.contains(x));
        lemma_ascending(v@, ids@);
        lemma_listed_is_finite(v@, ids@);
    }
    v
}

} // verus!
