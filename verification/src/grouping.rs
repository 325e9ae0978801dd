//! Grouping keyed pairs: every key once, with the values of that key in their
//! order of arrival.  This is what collecting into a map of vectors does, as
//! `into_group_map` does with a `HashMap<String, Vec<T>>`.

use vstd::prelude::*;

verus! {

/// The values of `pairs` whose key is `key`, in order.
pub open spec fn values_of<T>(pairs: Seq<(String, T)>, key: Seq<char>) -> Seq<T>
    decreases pairs.len(),
{
    if pairs.len() == 0 {
        Seq::empty()
    } else if pairs.last().0@ == key {
        values_of(pairs.drop_last(), key).push(pairs.last().1)
    } else {
        values_of(pairs.drop_last(), key)
    }
}

/// `key` is the key of some pair.
pub open spec fn has_key<T>(pairs: Seq<(String, T)>, key: Seq<char>) -> bool {
    exists|i: int| 0 <= i < pairs.len() && #[trigger] pairs[i].0@ == key
}

/// The groups of `pairs`: the keys are distinct, they are exactly the keys of
/// the pairs, and each group holds the values of its key in order.
pub open spec fn is_grouping<T>(pairs: Seq<(String, T)>, groups: Seq<(String, Vec<T>)>) -> bool {
    &&& forall|a: int, b: int|
        0 <= a < b < groups.len() ==> #[trigger] groups[a].0@ != #[trigger] groups[b].0@
    &&& forall|a: int| 0 <= a < groups.len() ==> has_key(pairs, #[trigger] groups[a].0@)
    &&& forall|i: int|
        0 <= i < pairs.len() ==> exists|a: int|
            0 <= a < groups.len() && #[trigger] groups[a].0@ == #[trigger] pairs[i].0@
    &&& forall|a: int|
        0 <= a < groups.len() ==> (#[trigger] groups[a]).1@ == values_of(pairs, groups[a].0@)
}

proof fn lemma_values_of_absent<T>(pairs: Seq<(String, T)>, key: Seq<char>)
    requires
        !has_key(pairs, key),
    ensures
        values_of(pairs, key) == Seq::<T>::empty(),
    decreases pairs.len(),
{
    if pairs.len() > 0 {
        assert(!has_key(pairs.drop_last(), key)) by {
            if has_key(pairs.drop_last(), key) {
                let i = choose|i: int|
                    0 <= i < pairs.drop_last().len() && #[trigger] pairs.drop_last()[i].0@ == key;
                assert(pairs[i].0@ == key);
            }
        }
        assert(pairs[pairs.len() - 1].0@ != key);
        lemma_values_of_absent(pairs.drop_last(), key);
    }
}

/// Groups the pairs by key, keys in order of first arrival.
pub fn group_pairs<T>(pairs: Vec<(String, T)>) -> (r: Vec<(String, Vec<T>)>)
    ensures
        is_grouping(pairs@, r@),
{
    let ghost orig = pairs@;
    assert(orig.len() == pairs.len());
    let mut rest = pairs;
    let mut groups: Vec<(String, Vec<T>)> = Vec::new();
    let mut i: usize = 0;
    assert(orig.take(0) =~= Seq::<(String, T)>::empty());
    while rest.len() > 0
        invariant
            i <= orig.len(),
            orig.len() <= usize::MAX,
            rest.len() + i == orig.len(),
            rest@ == orig.skip(i as int),
            is_grouping(orig.take(i as int), groups@),
        decreases rest.len(),
    {
        let ghost prefix = orig.take(i as int);
        let ghost next = orig.take(i + 1);
        let ghost old_groups = groups@;
        let (key, value) = rest.remove(0);
        proof {
            assert(orig.skip(i + 1) =~= orig.skip(i as int).remove(0));
            assert(orig[i as int] == (key, value));
            assert(next.drop_last() =~= prefix);
            assert(next.last() == (key, value));
        }
        let mut j: usize = 0;
        while j < groups.len() && !(groups[j].0 == key)
            invariant
                j <= groups.len(),
                forall|a: int| 0 <= a < j ==> (#[trigger] groups@[a]).0@ != key@,
            decreases groups.len() - j,
        {
            j = j + 1;
        }
        if j < groups.len() {
            let (k, mut vals) = groups.remove(j);
            vals.push(value);
            groups.insert(j, (k, vals));
            proof {
                assert forall|a: int|
                    0 <= a < groups@.len() implies (#[trigger] groups@[a]).1@ == values_of(
                    next,
                    groups@[a].0@,
                ) by {
                    if a != j {
                        assert(groups@[a] == old_groups[a]);
                    }
                }
                assert forall|a: int| 0 <= a < groups@.len() implies has_key(
                    next,
                    #[trigger] groups@[a].0@,
                ) by {
                    assert(groups@[a].0@ == old_groups[a].0@);
                    let w = choose|w: int| 0 <= w < prefix.len() && #[trigger] prefix[w].0@ == old_groups[a].0@;
                    assert(next[w] == prefix[w]);
                }
                assert forall|w: int| 0 <= w < next.len() implies exists|a: int|
                    0 <= a < groups@.len() && #[trigger] groups@[a].0@ == #[trigger] next[w].0@ by {
                    if w < prefix.len() {
                        assert(next[w] == prefix[w]);
                        let a = choose|a: int| 0 <= a < old_groups.len() && #[trigger] old_groups[a].0@ == #[trigger] prefix[w].0@;
                        assert(groups@[a].0@ == old_groups[a].0@);
                    } else {
                        assert(groups@[j as int].0@ == next[w].0@);
                    }
                }
                assert forall|a: int, b: int|
                    0 <= a < b < groups@.len() implies #[trigger] groups@[a].0@ != #[trigger] groups@[b].0@ by {
                    assert(groups@[a].0@ == old_groups[a].0@);
                    assert(groups@[b].0@ == old_groups[b].0@);
                }
            }
        } else {
            let ghost key_view = key@;
            proof {
                assert(!has_key(prefix, key_view)) by {
                    if has_key(prefix, key_view) {
                        let w = choose|w: int| 0 <= w < prefix.len() && #[trigger] prefix[w].0@ == key_view;
                        let a = choose|a: int| 0 <= a < old_groups.len() && #[trigger] old_groups[a].0@ == #[trigger] prefix[w].0@;
                        assert(old_groups[a].0@ != key_view);
                    }
                }
                lemma_values_of_absent(prefix, key_view);
            }
            let mut vals: Vec<T> = Vec::new();
            vals.push(value);
            groups.push((key, vals));
            proof {
                assert(vals@ =~= Seq::<T>::empty().push(value));
                assert forall|a: int|
                    0 <= a < groups@.len() implies (#[trigger] groups@[a]).1@ == values_of(
                    next,
                    groups@[a].0@,
                ) by {
                    if a < old_groups.len() {
                        assert(groups@[a] == old_groups[a]);
                    }
                }
                assert forall|a: int| 0 <= a < groups@.len() implies has_key(
                    next,
                    #[trigger] groups@[a].0@,
                ) by {
                    if a < old_groups.len() {
                        assert(groups@[a] == old_groups[a]);
                        let w = choose|w: int| 0 <= w < prefix.len() && #[trigger] prefix[w].0@ == old_groups[a].0@;
                        assert(next[w] == prefix[w]);
                    } else {
                        assert(next[i as int].0@ == key_view);
                    }
                }
                assert forall|w: int| 0 <= w < next.len() implies exists|a: int|
                    0 <= a < groups@.len() && #[trigger] groups@[a].0@ == #[trigger] next[w].0@ by {
                    if w < prefix.len() {
                        assert(next[w] == prefix[w]);
                        let a = choose|a: int| 0 <= a < old_groups.len() && #[trigger] old_groups[a].0@ == #[trigger] prefix[w].0@;
                        assert(groups@[a] == old_groups[a]);
                    } else {
                        assert(groups@[old_groups.len() as int].0@ == next[w].0@);
                    }
                }
                assert forall|a: int, b: int|
                    0 <= a < b < groups@.len() implies #[trigger] groups@[a].0@ != #[trigger] groups@[b].0@ by {
                    assert(groups@[a] == old_groups[a]);
                    if b < old_groups.len() {
                        assert(groups@[b] == old_groups[b]);
                    }
                }
            }
        }
        i = i + 1;
    }
    assert(orig.take(i as int) =~= orig);
    groups
}

} // verus!
