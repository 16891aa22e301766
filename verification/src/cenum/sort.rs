//! Ordering a list of constants by number.

use vstd::prelude::*;
use crate::cenum::entry::{CEnum, CEnumView};

verus! {

/// The constants of a list as mathematical values, in the list's order.
pub open spec fn entry_views(entries: Seq<CEnum>) -> Seq<CEnumView> {
    entries.map_values(|e: CEnum| e@)
}

/// Where a constant with the number `i` goes into the ordered list
/// `sorted`: in front of the first constant whose number is not below `i`.
pub open spec fn place_of(sorted: Seq<CEnumView>, i: i32) -> int
    decreases sorted.len(),
{
    if sorted.len() == 0 || sorted[0].i >= i {
        0
    } else {
        1 + place_of(sorted.skip(1), i)
    }
}

/// The list ordered by number. Constants with the same number keep the
/// order in which the list held them.
pub open spec fn sorted_by_number(entries: Seq<CEnumView>) -> Seq<CEnumView>
    decreases entries.len(),
{
    if entries.len() == 0 {
        Seq::empty()
    } else {
        let rest = sorted_by_number(entries.skip(1));
        rest.insert(place_of(rest, entries[0].i), entries[0])
    }
}

/// Whether the numbers of a list never fall from one constant to the next.
pub open spec fn is_ordered(entries: Seq<CEnumView>) -> bool {
    forall|a: int, b: int| 0 <= a <= b < entries.len() ==> entries[a].i <= entries[b].i
}

/// The place of a constant lies inside the list or at its end; everything
/// before it has a lower number, and in an ordered list nothing after it has.
pub proof fn lemma_place_of(sorted: Seq<CEnumView>, i: i32)
    ensures
        0 <= place_of(sorted, i) <= sorted.len(),
        forall|k: int| 0 <= k < place_of(sorted, i) ==> sorted[k].i < i,
        place_of(sorted, i) < sorted.len() ==> sorted[place_of(sorted, i)].i >= i,
    decreases sorted.len(),
{
    if sorted.len() == 0 || sorted[0].i >= i {
    } else {
        lemma_place_of(sorted.skip(1), i);
        assert forall|k: int| 0 <= k < place_of(sorted, i) implies sorted[k].i < i by {
            if k > 0 {
                assert(sorted.skip(1)[k - 1] == sorted[k]);
            }
        }
        assert(place_of(sorted, i) < sorted.len() ==> sorted.skip(1)[place_of(sorted, i) - 1]
            == sorted[place_of(sorted, i)]);
    }
}

/// Ordering a list gives an ordered list that holds the same constants,
/// each as often as the list held it.
pub proof fn lemma_sorted_by_number(entries: Seq<CEnumView>)
    ensures
        is_ordered(sorted_by_number(entries)),
        sorted_by_number(entries).len() == entries.len(),
        sorted_by_number(entries).to_multiset() == entries.to_multiset(),
    decreases entries.len(),
{
    broadcast use vstd::seq_lib::group_to_multiset_ensures;

    if entries.len() == 0 {
    } else {
        let first = entries[0];
        let rest = sorted_by_number(entries.skip(1));
        let at = place_of(rest, first.i);
        lemma_sorted_by_number(entries.skip(1));
        lemma_place_of(rest, first.i);
        let out = rest.insert(at, first);
        assert forall|a: int, b: int| 0 <= a <= b < out.len() implies out[a].i <= out[b].i by {
            if a < at && b > at {
                assert(out[a] == rest[a] && out[b] == rest[b - 1]);
            } else if a > at {
                assert(out[a] == rest[a - 1] && out[b] == rest[b - 1]);
            } else if a == at && b > at {
                assert(out[b] == rest[b - 1]);
                assert(rest[at].i <= rest[b - 1].i);
            }
        }
        assert(entries =~= seq![first] + entries.skip(1));
        vstd::seq_lib::lemma_multiset_commutative(seq![first], entries.skip(1));
        assert(out =~= rest.subrange(0, at) + seq![first] + rest.subrange(at, rest.len() as int));
        assert(rest =~= rest.subrange(0, at) + rest.subrange(at, rest.len() as int));
        vstd::seq_lib::lemma_multiset_commutative(
            rest.subrange(0, at),
            rest.subrange(at, rest.len() as int),
        );
        vstd::seq_lib::lemma_multiset_commutative(rest.subrange(0, at), seq![first]);
        vstd::seq_lib::lemma_multiset_commutative(
            rest.subrange(0, at) + seq![first],
            rest.subrange(at, rest.len() as int),
        );
        assert(out.to_multiset() =~= entries.to_multiset());
    }
}

/// The constants of a list that have the number `n`, in the list's order.
pub open spec fn with_number(entries: Seq<CEnumView>, n: i32) -> Seq<CEnumView> {
    entries.filter(|e: CEnumView| e.i == n)
}

/// Ordering a list keeps, for every number, the constants with that number
/// in the order in which the list held them.
pub proof fn lemma_sort_is_stable(entries: Seq<CEnumView>, n: i32)
    ensures
        with_number(sorted_by_number(entries), n) == with_number(entries, n),
    decreases entries.len(),
{
    if entries.len() > 0 {
        let first = entries[0];
        let tail = entries.skip(1);
        let rest = sorted_by_number(tail);
        let at = place_of(rest, first.i);
        let has_n = |e: CEnumView| e.i == n;
        lemma_sort_is_stable(tail, n);
        lemma_place_of(rest, first.i);
        let before = rest.subrange(0, at);
        let after = rest.subrange(at, rest.len() as int);
        assert(rest =~= before + after);
        assert(rest.insert(at, first) =~= before + (seq![first] + after));
        assert(entries =~= seq![first] + tail);
        Seq::filter_distributes_over_add(before, after, has_n);
        Seq::filter_distributes_over_add(before, seq![first] + after, has_n);
        after.lemma_filter_prepend(first, has_n);
        tail.lemma_filter_prepend(first, has_n);
        if first.i == n {
            assert(before.all(|x: CEnumView| !has_n(x))) by {
                assert forall|k: int| 0 <= k < before.len() implies !has_n(#[trigger] before[k]) by {
                    assert(before[k] == rest[k]);
                }
            }
            before.lemma_all_neg_filter_empty(has_n);
            assert(before.filter(has_n) =~= Seq::empty());
            assert(with_number(sorted_by_number(entries), n) =~= with_number(entries, n));
        } else {
            assert(with_number(sorted_by_number(entries), n) =~= with_number(entries, n));
        }
    }
}

/// Finds the place of a constant with the number `i` in an ordered list.
fn find_place(sorted: &Vec<CEnum>, i: i32) -> (at: usize)
    ensures
        at <= sorted.len(),
        at == place_of(entry_views(sorted@), i),
{
    let mut at: usize = 0;
    assert(entry_views(sorted@).skip(0) =~= entry_views(sorted@));
    while at < sorted.len() && sorted[at].i < i
        invariant
            at <= sorted.len(),
            place_of(entry_views(sorted@), i) == at + place_of(
                entry_views(sorted@).skip(at as int),
                i,
            ),
        decreases sorted.len() - at,
    {
        proof {
            let views = entry_views(sorted@);
            assert(views.skip(at as int)[0] == views[at as int]);
            assert(views.skip(at as int).skip(1) =~= views.skip(at + 1));
        }
        at = at + 1;
    }
    proof {
        let views = entry_views(sorted@);
        if at < sorted.len() {
            assert(views.skip(at as int)[0] == views[at as int]);
        }
    }
    at
}

/// Orders the list by number; constants with the same number keep their
/// order.
pub fn sort_by_number(entries: Vec<CEnum>) -> (sorted: Vec<CEnum>)
    ensures
        entry_views(sorted@) == sorted_by_number(entry_views(entries@)),
{
    let mut entries = entries;
    let ghost all = entry_views(entries@);
    let mut sorted: Vec<CEnum> = Vec::new();
    assert(all.skip(all.len() as int) =~= Seq::empty());
    assert(entry_views(sorted@) =~= Seq::empty());
    while entries.len() > 0
        invariant
            entries@.len() <= all.len(),
            entry_views(entries@) =~= all.take(entries@.len() as int),
            entry_views(sorted@) == sorted_by_number(all.skip(entries@.len() as int)),
        decreases entries.len(),
    {
        let ghost before = entries@;
        let ghost rest = entry_views(sorted@);
        let e = entries.pop().unwrap();
        let at = find_place(&sorted, e.i);
        proof {
            let k = entries@.len() as int;
            assert(entry_views(before)[k] == e@);
            assert(all[k] == e@);
            assert(all.skip(k)[0] == e@);
            assert(all.skip(k).skip(1) =~= all.skip(k + 1));
        }
        sorted.insert(at, e);
        proof {
            assert(entry_views(sorted@) =~= rest.insert(at as int, e@));
        }
    }
    proof {
        assert(all.skip(0) =~= all);
    }
    sorted
}

} // verus!
