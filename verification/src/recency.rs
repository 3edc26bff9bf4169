//! The model of a bounded cache that evicts what was used least recently.
//!
//! The contents are a sequence of key and value pairs that runs from the entry
//! used longest ago to the entry used last.  No key occurs twice.

use vstd::prelude::*;

verus! {

/// `key` has an entry in `s`.
pub open spec fn has_key<K, V>(s: Seq<(K, V)>, key: K) -> bool {
    exists|i: int| 0 <= i < s.len() && (#[trigger] s[i]).0 == key
}

/// The entry position of `key`, where it has one.
pub open spec fn position<K, V>(s: Seq<(K, V)>, key: K) -> int {
    choose|i: int| 0 <= i < s.len() && (#[trigger] s[i]).0 == key
}

/// What `s` holds under `key`.
pub open spec fn lookup<K, V>(s: Seq<(K, V)>, key: K) -> Option<V> {
    if has_key(s, key) {
        Some(s[position(s, key)].1)
    } else {
        None
    }
}

/// No key occurs twice.
pub open spec fn distinct_keys<K, V>(s: Seq<(K, V)>) -> bool {
    forall|i: int, j: int|
        0 <= i < s.len() && 0 <= j < s.len() && i != j ==> (#[trigger] s[i]).0 != (
        #[trigger] s[j]).0
}

/// The keys of `s`, in order.
pub open spec fn keys<K, V>(s: Seq<(K, V)>) -> Seq<K> {
    Seq::new(s.len(), |i: int| s[i].0)
}

/// `s` without the entries whose key is in `gone`; the rest keeps its order.
pub open spec fn without_keys<K, V>(s: Seq<(K, V)>, gone: Set<K>) -> Seq<(K, V)>
    decreases s.len(),
{
    if s.len() == 0 {
        s
    } else {
        let rest = without_keys(s.drop_last(), gone);
        if gone.contains(s.last().0) {
            rest
        } else {
            rest.push(s.last())
        }
    }
}

/// `s` without the entry of `key`.
pub open spec fn without<K, V>(s: Seq<(K, V)>, key: K) -> Seq<(K, V)> {
    without_keys(s, Set::empty().insert(key))
}

/// `s` after `key` was written: its entry is the last one, with the new value.
pub open spec fn written<K, V>(s: Seq<(K, V)>, key: K, value: V) -> Seq<(K, V)> {
    without(s, key).push((key, value))
}

/// A cache of at most `limit` entries after `key` was written: where a full cache
/// gets a new key, the entry used longest ago leaves.
pub open spec fn stored<K, V>(s: Seq<(K, V)>, key: K, value: V, limit: nat) -> Seq<(K, V)> {
    if !has_key(s, key) && s.len() == limit {
        s.skip(1).push((key, value))
    } else {
        written(s, key, value)
    }
}

/// `s` after `key` was read: an entry that is there moves to the end.
pub open spec fn touched<K, V>(s: Seq<(K, V)>, key: K) -> Seq<(K, V)> {
    if has_key(s, key) {
        written(s, key, s[position(s, key)].1)
    } else {
        s
    }
}

/// With distinct keys, an entry is what `lookup` finds under its key.
pub proof fn lemma_lookup_at<K, V>(s: Seq<(K, V)>, i: int)
    requires
        distinct_keys(s),
        0 <= i < s.len(),
    ensures
        has_key(s, s[i].0),
        position(s, s[i].0) == i,
        lookup(s, s[i].0) == Some(s[i].1),
{
    let p = position(s, s[i].0);
    assert(s[i].0 == s[i].0);
    assert(0 <= p < s.len() && s[p].0 == s[i].0);
}

/// What is left keeps its key, its value and its place relative to the others.
pub proof fn lemma_without_keys<K, V>(s: Seq<(K, V)>, gone: Set<K>)
    ensures
        without_keys(s, gone).len() <= s.len(),
        forall|i: int|
            0 <= i < without_keys(s, gone).len() ==> {
                &&& !gone.contains((#[trigger] without_keys(s, gone)[i]).0)
                &&& s.contains(without_keys(s, gone)[i])
            },
        forall|i: int|
            0 <= i < s.len() && !gone.contains((#[trigger] s[i]).0) ==> without_keys(
                s,
                gone,
            ).contains(s[i]),
        distinct_keys(s) ==> distinct_keys(without_keys(s, gone)),
    decreases s.len(),
{
    if s.len() > 0 {
        let init = s.drop_last();
        let rest = without_keys(init, gone);
        let all = without_keys(s, gone);
        lemma_without_keys(init, gone);
        assert forall|i: int| 0 <= i < all.len() implies s.contains(#[trigger] all[i]) by {
            if i < rest.len() {
                assert(init.contains(rest[i]));
                let j = choose|j: int| 0 <= j < init.len() && init[j] == rest[i];
                assert(s[j] == all[i]);
            } else {
                assert(s[s.len() - 1] == all[i]);
            }
        }
        assert forall|i: int| 0 <= i < s.len() && !gone.contains((#[trigger] s[i]).0) implies all.contains(
        s[i]) by {
            if i < init.len() {
                assert(init[i] == s[i]);
                assert(rest.contains(init[i]));
                let j = choose|j: int| 0 <= j < rest.len() && rest[j] == init[i];
                assert(all[j] == s[i]);
            } else {
                assert(all[all.len() - 1] == s[i]);
            }
        }
        if distinct_keys(s) {
            assert(distinct_keys(init)) by {
                assert forall|i: int, j: int|
                    0 <= i < init.len() && 0 <= j < init.len() && i != j implies (#[trigger] init[i]).0
                    != (#[trigger] init[j]).0 by {
                    assert(init[i] == s[i] && init[j] == s[j]);
                }
            }
            assert forall|i: int, j: int|
                0 <= i < all.len() && 0 <= j < all.len() && i != j implies (#[trigger] all[i]).0 != (
            #[trigger] all[j]).0 by {
                if i < rest.len() && j < rest.len() {
                    assert(rest[i] == all[i] && rest[j] == all[j]);
                } else {
                    let k = if i < rest.len() {
                        i
                    } else {
                        j
                    };
                    assert(init.contains(rest[k]));
                    let m = choose|m: int| 0 <= m < init.len() && init[m] == rest[k];
                    assert(s[m] == all[k] && s[s.len() - 1] == s.last());
                    assert(s[m].0 != s[s.len() - 1].0);
                }
            }
        }
    }
}

/// Keys that `s` does not have change nothing when they go.
pub proof fn lemma_without_absent<K, V>(s: Seq<(K, V)>, gone: Set<K>)
    requires
        forall|i: int| 0 <= i < s.len() ==> !gone.contains((#[trigger] s[i]).0),
    ensures
        without_keys(s, gone) == s,
    decreases s.len(),
{
    if s.len() > 0 {
        let init = s.drop_last();
        assert forall|i: int| 0 <= i < init.len() implies !gone.contains((#[trigger] init[i]).0) by {
            assert(init[i] == s[i]);
        }
        lemma_without_absent(init, gone);
        assert(s[s.len() - 1] == s.last());
        assert(init.push(s.last()) =~= s);
    }
}

/// Removing two sets of keys one after the other removes their union.
pub proof fn lemma_without_twice<K, V>(s: Seq<(K, V)>, a: Set<K>, b: Set<K>)
    ensures
        without_keys(without_keys(s, a), b) == without_keys(s, a.union(b)),
    decreases s.len(),
{
    if s.len() > 0 {
        let init = s.drop_last();
        lemma_without_twice(init, a, b);
        if !a.contains(s.last().0) {
            let rest = without_keys(init, a);
            let all = rest.push(s.last());
            assert(all.drop_last() =~= rest);
            assert(all.last() == s.last());
        }
    }
}

/// Removal is done part by part.
pub proof fn lemma_without_add<K, V>(a: Seq<(K, V)>, b: Seq<(K, V)>, gone: Set<K>)
    ensures
        without_keys(a + b, gone) == without_keys(a, gone) + without_keys(b, gone),
    decreases b.len(),
{
    if b.len() == 0 {
        assert(a + b =~= a);
        assert(without_keys(a, gone) + without_keys(b, gone) =~= without_keys(a, gone));
    } else {
        assert((a + b).drop_last() =~= a + b.drop_last());
        assert((a + b).last() == b.last());
        lemma_without_add(a, b.drop_last(), gone);
        assert(without_keys(a + b, gone) =~= without_keys(a, gone) + without_keys(b, gone));
    }
}

/// Removing one key that is there makes the sequence one shorter; the other
/// keys keep what they had.
pub proof fn lemma_without<K, V>(s: Seq<(K, V)>, key: K)
    requires
        distinct_keys(s),
    ensures
        distinct_keys(without(s, key)),
        !has_key(without(s, key), key),
        !has_key(s, key) ==> without(s, key) == s,
        has_key(s, key) ==> without(s, key).len() == s.len() - 1,
        has_key(s, key) ==> without(s, key) == s.remove(position(s, key)),
        forall|other: K| other != key ==> #[trigger] lookup(without(s, key), other) == lookup(s, other),
        forall|other: K| other != key ==> #[trigger] has_key(without(s, key), other) == has_key(s, other),
    decreases s.len(),
{
    let gone = Set::empty().insert(key);
    let left = without(s, key);
    lemma_without_keys(s, gone);
    if !has_key(s, key) {
        lemma_without_absent(s, gone);
    } else {
        let p = position(s, key);
        let before = s.take(p);
        let after = s.skip(p + 1);
        assert(s =~= before + seq![s[p]] + after);
        lemma_without_add(before + seq![s[p]], after, gone);
        lemma_without_add(before, seq![s[p]], gone);
        assert forall|i: int| 0 <= i < before.len() implies !gone.contains((#[trigger] before[i]).0) by {
            assert(before[i] == s[i] && s[p].0 == key);
        }
        assert forall|i: int| 0 <= i < after.len() implies !gone.contains((#[trigger] after[i]).0) by {
            assert(after[i] == s[i + p + 1] && s[p].0 == key);
        }
        lemma_without_absent(before, gone);
        lemma_without_absent(after, gone);
        assert(seq![s[p]].drop_last() =~= Seq::empty());
        assert(without_keys(seq![s[p]], gone) =~= Seq::empty()) by {
            reveal_with_fuel(without_keys, 2);
        }
        assert(left =~= before + after);
        assert(left =~= s.remove(p));
    }
    assert forall|other: K| other != key implies #[trigger] has_key(left, other) == has_key(s, other) by {
        if has_key(s, other) {
            let i = position(s, other);
            assert(!gone.contains(s[i].0));
            assert(left.contains(s[i]));
            let j = choose|j: int| 0 <= j < left.len() && left[j] == s[i];
            assert(left[j].0 == other);
        }
        if has_key(left, other) {
            let i = position(left, other);
            assert(s.contains(left[i]));
        }
    }
    assert forall|other: K| other != key implies #[trigger] lookup(left, other) == lookup(s, other) by {
        assert(has_key(left, other) == has_key(s, other));
        if has_key(left, other) {
            let i = position(left, other);
            assert(s.contains(left[i]));
            let j = choose|j: int| 0 <= j < s.len() && s[j] == left[i];
            lemma_lookup_at(s, j);
            lemma_lookup_at(left, i);
        }
    }
    if has_key(left, key) {
        let i = position(left, key);
        assert(!gone.contains(left[i].0));
    }
}

/// Writing a key keeps the keys distinct, sets that key, and leaves the rest.
pub proof fn lemma_written<K, V>(s: Seq<(K, V)>, key: K, value: V)
    requires
        distinct_keys(s),
    ensures
        distinct_keys(written(s, key, value)),
        has_key(written(s, key, value), key),
        lookup(written(s, key, value), key) == Some(value),
        forall|other: K|
            other != key ==> #[trigger] lookup(written(s, key, value), other) == lookup(s, other),
        forall|other: K|
            other != key ==> #[trigger] has_key(written(s, key, value), other) == has_key(s, other),
{
    lemma_without(s, key);
    let rest = without(s, key);
    let all = written(s, key, value);
    assert forall|i: int, j: int| 0 <= i < all.len() && 0 <= j < all.len() && i != j implies (
    #[trigger] all[i]).0 != (#[trigger] all[j]).0 by {
        if i < rest.len() && j < rest.len() {
            assert(all[i] == rest[i] && all[j] == rest[j]);
        } else if i < rest.len() {
            assert(all[i] == rest[i]);
            if rest[i].0 == key {
                assert(has_key(rest, key));
            }
        } else {
            assert(all[j] == rest[j]);
            if rest[j].0 == key {
                assert(has_key(rest, key));
            }
        }
    }
    lemma_lookup_at(all, all.len() - 1);
    assert forall|other: K| other != key implies #[trigger] has_key(all, other) == has_key(s, other) by {
        assert(has_key(rest, other) == has_key(s, other));
        if has_key(rest, other) {
            let i = position(rest, other);
            assert(all[i].0 == other);
        }
        if has_key(all, other) {
            let i = position(all, other);
            assert(rest[i].0 == other);
        }
    }
    assert forall|other: K| other != key implies #[trigger] lookup(all, other) == lookup(s, other) by {
        assert(lookup(rest, other) == lookup(s, other));
        assert(has_key(all, other) == has_key(s, other));
        assert(has_key(rest, other) == has_key(s, other));
        if has_key(all, other) {
            let i = position(all, other);
            assert(rest[i] == all[i]);
            lemma_lookup_at(all, i);
            lemma_lookup_at(rest, i);
        }
    }
}

/// A write can be read back, whatever had to leave for it.
pub proof fn lemma_stored<K, V>(s: Seq<(K, V)>, key: K, value: V, limit: nat)
    requires
        distinct_keys(s),
        s.len() <= limit,
        limit > 0,
    ensures
        distinct_keys(stored(s, key, value, limit)),
        stored(s, key, value, limit).len() <= limit,
        lookup(stored(s, key, value, limit), key) == Some(value),
{
    lemma_without(s, key);
    lemma_written(s, key, value);
    let all = written(s, key, value);
    if !has_key(s, key) && s.len() == limit {
        assert(s.skip(1).push((key, value)) =~= all.skip(1));
        lemma_skip_distinct(all, 1);
        lemma_lookup_at(all.skip(1), all.len() - 2);
    }
}

/// A read keeps the keys distinct and loses nothing.
pub proof fn lemma_touched<K, V>(s: Seq<(K, V)>, key: K)
    requires
        distinct_keys(s),
    ensures
        distinct_keys(touched(s, key)),
        touched(s, key).len() == s.len(),
        forall|other: K| #[trigger] lookup(touched(s, key), other) == lookup(s, other),
{
    lemma_without(s, key);
    if has_key(s, key) {
        lemma_written(s, key, s[position(s, key)].1);
    }
}

/// Dropping entries from the front keeps the keys distinct.
pub proof fn lemma_skip_distinct<K, V>(s: Seq<(K, V)>, n: int)
    requires
        distinct_keys(s),
        0 <= n <= s.len(),
    ensures
        distinct_keys(s.skip(n)),
{
    let rest = s.skip(n);
    assert forall|i: int, j: int| 0 <= i < rest.len() && 0 <= j < rest.len() && i != j implies (
    #[trigger] rest[i]).0 != (#[trigger] rest[j]).0 by {
        assert(rest[i] == s[i + n] && rest[j] == s[j + n]);
    }
}

} // verus!
