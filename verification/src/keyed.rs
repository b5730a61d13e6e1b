//! Lists of entries kept in order of their keys. Such a list behaves as a map
//! from keys to values whose entries are walked in key order, the order of
//! `String`: setting a key replaces its entry or adds one where the key falls.
use vstd::prelude::*;
use crate::multi_agent::{lemma_lex_irreflexive, lemma_lex_total, lemma_lex_transitive, lex_lt, str_lt};
use crate::text::str_eq;

verus! {

/// Headers kept in order of their names, as a map from name to value lists
/// them: the header named `key` takes `value`, or a new header goes where its
/// name falls among the others.
pub open spec fn keyed_insert<V>(
    h: Seq<(Seq<char>, V)>,
    key: Seq<char>,
    value: V,
) -> Seq<(Seq<char>, V)>
    decreases h.len(),
{
    if h.len() == 0 {
        seq![(key, value)]
    } else if h[0].0 == key {
        seq![(key, value)] + h.skip(1)
    } else if lex_lt(key, h[0].0) {
        seq![(key, value)] + h
    } else {
        seq![h[0]] + keyed_insert(h.skip(1), key, value)
    }
}

/// Past headers whose names come before `key`, the insertion happens in the
/// rest.
pub proof fn lemma_keyed_insert_prefix<V>(
    h: Seq<(Seq<char>, V)>,
    key: Seq<char>,
    value: V,
    i: int,
)
    requires
        0 <= i <= h.len(),
        forall|j: int| 0 <= j < i ==> lex_lt(#[trigger] h[j].0, key),
    ensures
        keyed_insert(h, key, value) == h.take(i) + keyed_insert(h.skip(i), key, value),
    decreases i,
{
    if i == 0 {
        assert(h.skip(0) =~= h);
        assert(h.take(0) + keyed_insert(h, key, value) =~= keyed_insert(h, key, value));
    } else {
        lemma_lex_irreflexive(key);
        lemma_lex_total(h[0].0, key);
        let t = h.skip(1);
        assert forall|j: int| 0 <= j < i - 1 implies lex_lt(#[trigger] t[j].0, key) by {
            assert(t[j] == h[j + 1]);
        }
        lemma_keyed_insert_prefix(t, key, value, i - 1);
        assert(t.skip(i - 1) =~= h.skip(i));
        assert(h.take(i) =~= seq![h[0]] + t.take(i - 1));
        assert(keyed_insert(h, key, value) == seq![h[0]] + keyed_insert(t, key, value));
        assert(seq![h[0]] + (t.take(i - 1) + keyed_insert(h.skip(i), key, value)) =~= h.take(i)
            + keyed_insert(h.skip(i), key, value));
    }
}

/// Header names strictly increase along the list, so no name occurs twice.
pub open spec fn keys_ordered<V>(h: Seq<(Seq<char>, V)>) -> bool {
    forall|i: int, j: int| 0 <= i < j < h.len() ==> lex_lt(h[i].0, h[j].0)
}

/// The value of the first header named `key`.
pub open spec fn keyed_value<V>(h: Seq<(Seq<char>, V)>, key: Seq<char>) -> Option<V>
    decreases h.len(),
{
    if h.len() == 0 {
        None
    } else if h[0].0 == key {
        Some(h[0].1)
    } else {
        keyed_value(h.skip(1), key)
    }
}

/// In an ordered list, a name that sorts before the first is absent.
proof fn lemma_keyed_value_before_first<V>(h: Seq<(Seq<char>, V)>, key: Seq<char>)
    requires
        keys_ordered(h),
        h.len() > 0,
        lex_lt(key, h[0].0),
    ensures
        keyed_value(h, key) is None,
    decreases h.len(),
{
    lemma_lex_irreflexive(key);
    assert(h[0].0 != key);
    if h.len() == 1 {
        assert(h.skip(1).len() == 0);
        assert(keyed_value(h.skip(1), key) is None);
    }
    if h.len() > 1 {
        let t = h.skip(1);
        assert(t[0] == h[1]);
        lemma_lex_transitive(key, h[0].0, h[1].0);
        assert(keys_ordered(t)) by {
            assert forall|i: int, j: int| 0 <= i < j < t.len() implies lex_lt(t[i].0, t[j].0) by {
                assert(t[i] == h[i + 1] && t[j] == h[j + 1]);
            }
        }
        lemma_keyed_value_before_first(t, key);
    }
}

/// Setting a header keeps the names ordered, gives the name its new value and
/// leaves every other header's value as it was: the list behaves as a map
/// from names to values that is walked in order of names.
pub proof fn law_keyed_insert_keeps_keys_ordered<V>(
    h: Seq<(Seq<char>, V)>,
    key: Seq<char>,
    value: V,
)
    requires
        keys_ordered(h),
    ensures
        keys_ordered(keyed_insert(h, key, value)),
        keyed_value(keyed_insert(h, key, value), key) == Some(value),
        forall|other: Seq<char>|
            other != key ==> #[trigger] keyed_value(keyed_insert(h, key, value), other)
                == keyed_value(h, other),
    decreases h.len(),
{
    let r = keyed_insert(h, key, value);
    if h.len() == 0 {
        assert forall|other: Seq<char>| other != key implies #[trigger] keyed_value(r, other)
            == keyed_value(h, other) by {
            assert(r.skip(1) =~= Seq::<(Seq<char>, V)>::empty());
            assert(r[0].0 == key);
            assert(keyed_value(r.skip(1), other) is None);
            assert(keyed_value(h, other) is None);
        }
    } else {
        let t = h.skip(1);
        assert(keys_ordered(t)) by {
            assert forall|i: int, j: int| 0 <= i < j < t.len() implies lex_lt(t[i].0, t[j].0) by {
                assert(t[i] == h[i + 1] && t[j] == h[j + 1]);
            }
        }
        if h[0].0 == key {
            assert(r.skip(1) =~= t);
            assert(keys_ordered(r)) by {
                assert forall|i: int, j: int| 0 <= i < j < r.len() implies lex_lt(r[i].0, r[j].0) by {
                    assert(r[j] == h[j]);
                    if i > 0 {
                        assert(r[i] == h[i]);
                    }
                }
            }
            assert forall|other: Seq<char>| other != key implies #[trigger] keyed_value(r, other)
                == keyed_value(h, other) by {}
        } else if lex_lt(key, h[0].0) {
            assert(r.skip(1) =~= h);
            assert(keys_ordered(r)) by {
                assert forall|i: int, j: int| 0 <= i < j < r.len() implies lex_lt(r[i].0, r[j].0) by {
                    assert(r[j] == h[j - 1]);
                    if i > 0 {
                        assert(r[i] == h[i - 1]);
                    } else if j - 1 > 0 {
                        lemma_lex_transitive(key, h[0].0, h[j - 1].0);
                    }
                }
            }
            assert forall|other: Seq<char>| other != key implies #[trigger] keyed_value(r, other)
                == keyed_value(h, other) by {}
        } else {
            lemma_lex_total(key, h[0].0);
            law_keyed_insert_keeps_keys_ordered(t, key, value);
            let rt = keyed_insert(t, key, value);
            assert(r == seq![h[0]] + rt);
            assert(r.skip(1) =~= rt);
            assert(r[0] == h[0]);
            // every name in `rt` is either `key` or a name of `t`, all after h[0]
            assert forall|j: int| 0 <= j < rt.len() implies lex_lt(h[0].0, #[trigger] rt[j].0) by {
                lemma_keyed_insert_keys(t, key, value, j);
                if rt[j].0 != key {
                    let k = choose|k: int| 0 <= k < t.len() && t[k].0 == rt[j].0;
                    assert(t[k] == h[k + 1]);
                }
            }
            assert(keys_ordered(r)) by {
                assert forall|i: int, j: int| 0 <= i < j < r.len() implies lex_lt(r[i].0, r[j].0) by {
                    assert(r[j] == rt[j - 1]);
                    if i > 0 {
                        assert(r[i] == rt[i - 1]);
                    }
                }
            }
            assert(h[0].0 != key);
            assert forall|other: Seq<char>| other != key implies #[trigger] keyed_value(r, other)
                == keyed_value(h, other) by {
                if other != h[0].0 {
                    assert(keyed_value(rt, other) == keyed_value(t, other));
                }
            }
        }
    }
}

/// Each name after setting a header is the set name or one that was there.
proof fn lemma_keyed_insert_keys<V>(
    h: Seq<(Seq<char>, V)>,
    key: Seq<char>,
    value: V,
    j: int,
)
    requires
        0 <= j < keyed_insert(h, key, value).len(),
    ensures
        keyed_insert(h, key, value)[j].0 == key || exists|k: int|
            0 <= k < h.len() && h[k].0 == keyed_insert(h, key, value)[j].0,
    decreases h.len(),
{
    let r = keyed_insert(h, key, value);
    if h.len() == 0 {
    } else if h[0].0 == key {
        if j > 0 {
            assert(r[j] == h[j]);
        }
    } else if lex_lt(key, h[0].0) {
        if j > 0 {
            assert(r[j] == h[j - 1]);
        }
    } else {
        if j > 0 {
            let t = h.skip(1);
            lemma_keyed_insert_keys(t, key, value, j - 1);
            assert(r[j] == keyed_insert(t, key, value)[j - 1]);
            if keyed_insert(t, key, value)[j - 1].0 != key {
                let k = choose|k: int| 0 <= k < t.len() && t[k].0 == keyed_insert(t, key, value)[j - 1].0;
                assert(h[k + 1] == t[k]);
            }
        } else {
            assert(r[0] == h[0]);
        }
    }
}


/// Scanning past the keys smaller than `key` reaches the entry of `key`, if
/// the list has one there; otherwise the list has none.
pub proof fn lemma_keyed_value_slot<V>(h: Seq<(Seq<char>, V)>, key: Seq<char>, i: int)
    requires
        keys_ordered(h),
        0 <= i <= h.len(),
        forall|j: int| 0 <= j < i ==> lex_lt(#[trigger] h[j].0, key),
    ensures
        i < h.len() && h[i].0 == key ==> keyed_value(h, key) == Some(h[i].1),
        i == h.len() || lex_lt(key, h[i].0) ==> keyed_value(h, key) is None,
    decreases i,
{
    if i == 0 {
        if h.len() > 0 && lex_lt(key, h[0].0) {
            lemma_keyed_value_before_first(h, key);
        }
    } else {
        lemma_lex_irreflexive(key);
        assert(h[0].0 != key);
        let t = h.skip(1);
        assert(keys_ordered(t)) by {
            assert forall|a: int, b: int| 0 <= a < b < t.len() implies lex_lt(t[a].0, t[b].0) by {
                assert(t[a] == h[a + 1] && t[b] == h[b + 1]);
            }
        }
        assert forall|j: int| 0 <= j < i - 1 implies lex_lt(#[trigger] t[j].0, key) by {
            assert(t[j] == h[j + 1]);
        }
        lemma_keyed_value_slot(t, key, i - 1);
        if i < h.len() {
            assert(t[i - 1] == h[i]);
        }
    }
}

/// Setting a key at the position where it belongs is removing its old entry
/// (if there is one) and placing the new entry there.
pub proof fn lemma_keyed_insert_at_slot<V>(
    h: Seq<(Seq<char>, V)>,
    key: Seq<char>,
    value: V,
    i: int,
    found: bool,
)
    requires
        0 <= i <= h.len(),
        forall|j: int| 0 <= j < i ==> lex_lt(#[trigger] h[j].0, key),
        found <==> (i < h.len() && h[i].0 == key),
        !found && i < h.len() ==> lex_lt(key, h[i].0),
    ensures
        (if found {
            h.remove(i)
        } else {
            h
        }).insert(i, (key, value)) == keyed_insert(h, key, value),
{
    lemma_keyed_insert_prefix(h, key, value, i);
    let rest = h.skip(i);
    if found {
        assert(rest[0] == h[i]);
        assert(h.remove(i).insert(i, (key, value)) =~= h.take(i) + (seq![(key, value)] + rest.skip(
            1,
        )));
    } else if i < h.len() {
        assert(rest[0] == h[i]);
        lemma_lex_total(h[i].0, key);
        assert(h.insert(i, (key, value)) =~= h.take(i) + (seq![(key, value)] + rest));
    } else {
        assert(rest =~= Seq::<(Seq<char>, V)>::empty());
        assert(h.insert(i, (key, value)) =~= h.take(i) + seq![(key, value)]);
    }
}

/// The value of a key is that of its first entry.
pub proof fn lemma_keyed_value_first<V>(h: Seq<(Seq<char>, V)>, key: Seq<char>, i: int)
    requires
        0 <= i <= h.len(),
        forall|j: int| 0 <= j < i ==> #[trigger] h[j].0 != key,
    ensures
        i < h.len() && h[i].0 == key ==> keyed_value(h, key) == Some(h[i].1),
        i == h.len() ==> keyed_value(h, key) is None,
    decreases i,
{
    if i > 0 {
        let t = h.skip(1);
        assert(h[0].0 != key);
        assert forall|j: int| 0 <= j < i - 1 implies #[trigger] t[j].0 != key by {
            assert(t[j] == h[j + 1]);
        }
        lemma_keyed_value_first(t, key, i - 1);
        if i < h.len() {
            assert(t[i - 1] == h[i]);
        }
    }
}

/// Where `key` belongs in a list ordered by keys: every entry before the
/// position has a smaller key; the flag tells whether the entry at the
/// position has the key itself, and otherwise that entry (if any) has a
/// greater key.
pub fn find_key_slot<V>(entries: &Vec<(String, V)>, key: &str) -> (r: (usize, bool))
    ensures
        r.0 <= entries@.len(),
        forall|j: int| 0 <= j < r.0 ==> lex_lt(#[trigger] entries@[j].0@, key@),
        r.1 <==> (r.0 < entries@.len() && entries@[r.0 as int].0@ == key@),
        !r.1 && r.0 < entries@.len() ==> lex_lt(key@, entries@[r.0 as int].0@),
{
    let mut i: usize = 0;
    while i < entries.len() && str_lt(entries[i].0.as_str(), key)
        invariant
            i <= entries@.len(),
            forall|j: int| 0 <= j < i ==> lex_lt(#[trigger] entries@[j].0@, key@),
        decreases entries@.len() - i,
    {
        i = i + 1;
    }
    let found = i < entries.len() && str_eq(entries[i].0.as_str(), key);
    proof {
        if !found && i < entries.len() {
            lemma_lex_total(entries@[i as int].0@, key@);
        }
    }
    (i, found)
}

} // verus!
