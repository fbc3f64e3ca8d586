//! Walks over maps in ascending order of their keys.
use std::collections::BTreeMap;
use vstd::prelude::*;
use vstd::relations::total_ordering;
use vstd::std_specs::cmp::OrdSpec;
use vstd::std_specs::iter::IteratorSpec;

verus! {

/// The order of addresses and other integer identities.
pub open spec fn not_above() -> spec_fn(usize, usize) -> bool {
    |left: usize, right: usize| left <= right
}

/// The keys of a map, in ascending order.
pub open spec fn keys_of<V>(map: Map<usize, V>) -> Seq<usize> {
    map.dom().to_sorted_seq(not_above())
}

/// The entries of a map, in ascending order of their keys.
pub open spec fn entries_of<V>(map: Map<usize, V>) -> Seq<(usize, V)> {
    keys_of(map).map_values(|key: usize| (key, map[key]))
}

/// Whether keys ascend strictly, so that none occurs twice.
pub open spec fn ascending(keys: Seq<usize>) -> bool {
    forall|i: int, j: int| #![trigger keys[i], keys[j]]
        0 <= i < j < keys.len() ==> keys[i] < keys[j]
}

/// Strictly ascending keys are determined by the set of them.
proof fn lemma_ascending_unique(left: Seq<usize>, right: Seq<usize>)
    requires
        ascending(left),
        ascending(right),
        left.to_set() == right.to_set(),
    ensures
        left == right,
    decreases left.len(),
{
    if left.len() == 0 {
        if right.len() > 0 {
            assert(right.to_set().contains(right[0]));
            assert(left.contains(right[0]));
        }
        assert(left =~= right);
    } else {
        assert(left.to_set().contains(left.last()));
        assert(right.contains(left.last()));
        assert(right.to_set().contains(right.last()));
        assert(left.contains(right.last()));
        let at = left.index_of(right.last());
        assert(left[at] == right.last());
        let found = right.index_of(left.last());
        assert(right[found] == left.last());
        assert(left.last() == right.last());
        let (shorter, other) = (left.drop_last(), right.drop_last());
        assert forall|key: usize| #[trigger] shorter.contains(key) == other.contains(key) by {
            if shorter.contains(key) {
                let i = shorter.index_of(key);
                assert(left[i] == key);
                assert(left.to_set().contains(key));
                assert(right.contains(key));
                let j = right.index_of(key);
                assert(right[j] == key);
                assert(left[i] < left[left.len() - 1]);
                assert(other[j] == key);
            }
            if other.contains(key) {
                let i = other.index_of(key);
                assert(right[i] == key);
                assert(right.to_set().contains(key));
                assert(left.contains(key));
                let j = left.index_of(key);
                assert(left[j] == key);
                assert(right[i] < right[right.len() - 1]);
                assert(shorter[j] == key);
            }
        }
        assert(shorter.to_set() =~= other.to_set());
        lemma_ascending_unique(shorter, other);
        assert(left =~= shorter.push(left.last()));
        assert(right =~= other.push(right.last()));
    }
}

/// The keys of a map ascend strictly, and are all of its keys.
pub proof fn lemma_keys<V>(map: Map<usize, V>)
    requires
        map.dom().finite(),
    ensures
        ascending(keys_of(map)),
        keys_of(map).to_set() == map.dom(),
{
    let order = not_above();
    let listed = map.dom().to_seq();
    let keys = keys_of(map);
    assert(total_ordering(order));
    listed.lemma_sort_by_ensures(order);
    map.dom().lemma_to_seq_to_set_id();
    lemma_listed_once(map.dom());
    assert(keys.no_duplicates()) by {
        listed.lemma_multiset_has_no_duplicates();
        keys.lemma_multiset_has_no_duplicates_conv();
    }
    assert forall|i: int, j: int| #![trigger keys[i], keys[j]] 0 <= i < j < keys.len() implies keys[i]
        < keys[j] by {
        assert(order(keys[i], keys[j]));
    }
    assert forall|key: usize| #[trigger] keys.to_set().contains(key) == map.dom().contains(key) by {
        broadcast use vstd::seq_lib::group_to_multiset_ensures;

        assert(listed.contains(key) <==> listed.to_multiset().count(key) > 0);
        assert(keys.contains(key) <==> keys.to_multiset().count(key) > 0);
        assert(listed.to_set().contains(key) == map.dom().contains(key));
    }
    assert(keys.to_set() =~= map.dom());
}

proof fn lemma_listed_once(keys: Set<usize>)
    requires
        keys.finite(),
    ensures
        keys.to_seq().no_duplicates(),
    decreases keys.len(),
{
    if keys.len() > 0 {
        let first = keys.choose();
        let rest = keys.remove(first);
        lemma_listed_once(rest);
        rest.lemma_to_seq_to_set_id();
        assert forall|i: int| 0 <= i < rest.to_seq().len() implies #[trigger] rest.to_seq()[i]
            != first by {
            assert(rest.to_seq().to_set().contains(rest.to_seq()[i]));
        }
        assert(keys.to_seq() =~= Seq::<usize>::empty().push(first) + rest.to_seq());
    }
}

/// Every entry is what the map holds under its key.
pub proof fn lemma_entry<V>(map: Map<usize, V>, i: int)
    requires
        map.dom().finite(),
        0 <= i < entries_of(map).len(),
    ensures
        entries_of(map)[i].0 == keys_of(map)[i],
        map.contains_key(entries_of(map)[i].0),
        map[entries_of(map)[i].0] == entries_of(map)[i].1,
{
    lemma_keys(map);
    assert(keys_of(map).to_set().contains(keys_of(map)[i]));
}

/// Every key of a map has a position among its entries.
pub proof fn lemma_position<V>(map: Map<usize, V>, key: usize) -> (i: int)
    requires
        map.dom().finite(),
        map.contains_key(key),
    ensures
        0 <= i < entries_of(map).len(),
        entries_of(map)[i] == (key, map[key]),
{
    lemma_keys(map);
    assert(keys_of(map).to_set().contains(key));
    keys_of(map).index_of(key)
}

/// Returns the entries of a map, in ascending order of their keys.
pub fn ascending_entries<V: Copy>(map: &BTreeMap<usize, V>) -> (entries: Vec<(usize, V)>)
    ensures
        entries@ == entries_of(map@),
{
    broadcast use {
        vstd::laws_cmp::group_laws_cmp,
        vstd::std_specs::btree::group_btree_axioms,
    };

    let pairs = map.iter();
    let ghost walked: Seq<usize> = pairs.remaining().map_values(|pair: (&usize, &V)| *pair.0);
    proof {
        assert(vstd::std_specs::btree::increasing_seq(walked));
        assert forall|i: int, j: int| #![trigger walked[i], walked[j]]
            0 <= i < j < walked.len() implies walked[i] < walked[j] by {
            assert(walked[i].cmp_spec(&walked[j]) is Less);
        }
        assert forall|key: usize| #[trigger] walked.to_set().contains(key) == map@.dom().contains(
            key,
        ) by {
            if walked.contains(key) {
                let i = walked.index_of(key);
                assert(map@.contains_key(*pairs.remaining()[i].0));
            }
            if map@.contains_key(key) {
                let i = pairs.remaining().index_of((&key, &map@[key]));
                assert(walked[i] == key);
            }
        }
        assert(walked.to_set() =~= map@.dom());
        lemma_keys(map@);
        lemma_ascending_unique(walked, keys_of(map@));
    }
    let mut entries: Vec<(usize, V)> = Vec::new();
    for (key, value) in walk: pairs
        invariant
            walk.seq().len() == entries_of(map@).len(),
            forall|i: int|
                0 <= i < walk.seq().len() ==> (*(#[trigger] walk.seq()[i]).0, *walk.seq()[i].1)
                    == entries_of(map@)[i],
            entries@ == entries_of(map@).take(walk.index()),
    {
        entries.push((*key, *value));
    }
    entries
}

} // verus!
