//! Association lists: sequences of entries, each with a key, read as finite maps.
//!
//! The entry that counts for a key is the first one that carries it, as a
//! linear search finds it; later entries with the same key are shadowed.

use vstd::prelude::*;

verus! {

/// `i` is the position of the first entry of `s` whose key is `k`.
pub open spec fn first_match<T, K>(s: Seq<T>, key: spec_fn(T) -> K, k: K, i: int) -> bool {
    &&& 0 <= i < s.len()
    &&& key(s[i]) == k
    &&& forall|j: int| #![trigger s[j]] 0 <= j < i ==> key(s[j]) != k
}

/// Some entry of `s` carries the key `k`.
pub open spec fn has_key<T, K>(s: Seq<T>, key: spec_fn(T) -> K, k: K) -> bool {
    exists|i: int| #![trigger s[i]] 0 <= i < s.len() && key(s[i]) == k
}

/// The position of the first entry of `s` whose key is `k`.
pub open spec fn first_index<T, K>(s: Seq<T>, key: spec_fn(T) -> K, k: K) -> int {
    choose|i: int| first_match(s, key, k, i)
}

/// The finite map that the association list `s` stands for.
pub open spec fn assoc_map<T, K, V>(s: Seq<T>, key: spec_fn(T) -> K, val: spec_fn(T) -> V) -> Map<K, V> {
    Map::new(|k: K| has_key(s, key, k), |k: K| val(s[first_index(s, key, k)]))
}

/// No two entries of `s` carry the same key.
pub open spec fn keys_unique<T, K>(s: Seq<T>, key: spec_fn(T) -> K) -> bool {
    forall|i: int, j: int|
        #![trigger s[i], s[j]]
        0 <= i < s.len() && 0 <= j < s.len() && i != j ==> key(s[i]) != key(s[j])
}

/// A key that occurs has a first occurrence.
pub proof fn lemma_first_index<T, K>(s: Seq<T>, key: spec_fn(T) -> K, k: K)
    requires
        has_key(s, key, k),
    ensures
        first_match(s, key, k, first_index(s, key, k)),
{
    let i0 = choose|i: int| #![trigger s[i]] 0 <= i < s.len() && key(s[i]) == k;
    lemma_first_below(s, key, k, i0);
}

proof fn lemma_first_below<T, K>(s: Seq<T>, key: spec_fn(T) -> K, k: K, i0: int)
    requires
        0 <= i0 < s.len(),
        key(s[i0]) == k,
    ensures
        exists|i: int| first_match(s, key, k, i),
    decreases i0,
{
    if exists|j: int| #![trigger s[j]] 0 <= j < i0 && key(s[j]) == k {
        let j = choose|j: int| #![trigger s[j]] 0 <= j < i0 && key(s[j]) == k;
        lemma_first_below(s, key, k, j);
    } else {
        assert(first_match(s, key, k, i0));
    }
}

/// The first occurrence of a key is the one that `first_index` names, and the
/// map that the list stands for holds that entry's value under the key.
pub proof fn lemma_first_index_is<T, K, V>(
    s: Seq<T>,
    key: spec_fn(T) -> K,
    val: spec_fn(T) -> V,
    k: K,
    i: int,
)
    requires
        first_match(s, key, k, i),
    ensures
        first_index(s, key, k) == i,
        has_key(s, key, k),
        assoc_map(s, key, val).dom().contains(k),
        assoc_map(s, key, val)[k] == val(s[i]),
{
    assert(has_key(s, key, k));
    lemma_first_index(s, key, k);
    let f = first_index(s, key, k);
    if f < i {
        assert(key(s[f]) == k);
    } else if i < f {
        assert(key(s[i]) == k);
    }
}

/// A key that no entry carries is missing from the map.
pub proof fn lemma_absent<T, K, V>(s: Seq<T>, key: spec_fn(T) -> K, val: spec_fn(T) -> V, k: K)
    requires
        forall|j: int| #![trigger s[j]] 0 <= j < s.len() ==> key(s[j]) != k,
    ensures
        !has_key(s, key, k),
        !assoc_map(s, key, val).dom().contains(k),
{
}

/// Overwriting the first entry of a key with an entry of the same key
/// overwrites that key in the map.
pub proof fn lemma_update_first<T, K, V>(
    s: Seq<T>,
    key: spec_fn(T) -> K,
    val: spec_fn(T) -> V,
    i: int,
    x: T,
)
    requires
        first_match(s, key, key(s[i]), i),
        key(x) == key(s[i]),
    ensures
        assoc_map(s.update(i, x), key, val) == assoc_map(s, key, val).insert(key(x), val(x)),
        forall|k: K| has_key(s.update(i, x), key, k) == has_key(s, key, k),
{
    let t = s.update(i, x);
    let m = assoc_map(s, key, val);
    let mt = assoc_map(t, key, val);
    assert forall|k: K| has_key(t, key, k) == has_key(s, key, k) by {
        if has_key(s, key, k) {
            let j = choose|j: int| #![trigger s[j]] 0 <= j < s.len() && key(s[j]) == k;
            assert(key(t[j]) == k);
        }
        if has_key(t, key, k) {
            let j = choose|j: int| #![trigger t[j]] 0 <= j < t.len() && key(t[j]) == k;
            assert(key(s[j]) == k);
        }
    }
    assert forall|k: K| #[trigger] mt.dom().contains(k) implies mt[k] == m.insert(key(x), val(x))[k] by {
        if k == key(x) {
            assert(first_match(t, key, k, i));
            lemma_first_index_is(t, key, val, k, i);
        } else {
            lemma_first_index(s, key, k);
            let f = first_index(s, key, k);
            assert(first_match(t, key, k, f));
            lemma_first_index_is(t, key, val, k, f);
        }
    }
    assert(mt =~= m.insert(key(x), val(x)));
}

/// Appending an entry whose key no entry carries adds that key to the map.
pub proof fn lemma_push_new<T, K, V>(s: Seq<T>, key: spec_fn(T) -> K, val: spec_fn(T) -> V, x: T)
    requires
        !has_key(s, key, key(x)),
    ensures
        assoc_map(s.push(x), key, val) == assoc_map(s, key, val).insert(key(x), val(x)),
        forall|k: K| has_key(s.push(x), key, k) == (has_key(s, key, k) || k == key(x)),
{
    let t = s.push(x);
    let m = assoc_map(s, key, val);
    let mt = assoc_map(t, key, val);
    assert forall|k: K| has_key(t, key, k) == (has_key(s, key, k) || k == key(x)) by {
        if has_key(s, key, k) {
            let j = choose|j: int| #![trigger s[j]] 0 <= j < s.len() && key(s[j]) == k;
            assert(key(t[j]) == k);
        }
        if k == key(x) {
            assert(key(t[s.len() as int]) == k);
        }
        if has_key(t, key, k) && k != key(x) {
            let j = choose|j: int| #![trigger t[j]] 0 <= j < t.len() && key(t[j]) == k;
            assert(key(s[j]) == k);
        }
    }
    assert forall|k: K| #[trigger] mt.dom().contains(k) implies mt[k] == m.insert(key(x), val(x))[k] by {
        if k == key(x) {
            assert(first_match(t, key, k, s.len() as int));
            lemma_first_index_is(t, key, val, k, s.len() as int);
        } else {
            lemma_first_index(s, key, k);
            let f = first_index(s, key, k);
            assert(first_match(t, key, k, f));
            lemma_first_index_is(t, key, val, k, f);
        }
    }
    assert(mt =~= m.insert(key(x), val(x)));
}

/// When keys are unique, every entry is the first of its key.
pub proof fn lemma_unique_first<T, K>(s: Seq<T>, key: spec_fn(T) -> K, i: int)
    requires
        keys_unique(s, key),
        0 <= i < s.len(),
    ensures
        first_match(s, key, key(s[i]), i),
{
}

/// Overwriting an entry with one of the same key keeps the keys unique.
pub proof fn lemma_update_keeps_unique<T, K>(s: Seq<T>, key: spec_fn(T) -> K, i: int, x: T)
    requires
        keys_unique(s, key),
        0 <= i < s.len(),
        key(x) == key(s[i]),
    ensures
        keys_unique(s.update(i, x), key),
{
    let t = s.update(i, x);
    assert forall|a: int, b: int|
        #![trigger t[a], t[b]]
        0 <= a < t.len() && 0 <= b < t.len() && a != b implies key(t[a]) != key(t[b]) by {
        assert(key(t[a]) == key(s[a]));
        assert(key(t[b]) == key(s[b]));
    }
}

/// Appending an entry of a new key keeps the keys unique.
pub proof fn lemma_push_keeps_unique<T, K>(s: Seq<T>, key: spec_fn(T) -> K, x: T)
    requires
        keys_unique(s, key),
        !has_key(s, key, key(x)),
    ensures
        keys_unique(s.push(x), key),
{
    let t = s.push(x);
    assert forall|a: int, b: int|
        #![trigger t[a], t[b]]
        0 <= a < t.len() && 0 <= b < t.len() && a != b implies key(t[a]) != key(t[b]) by {
        if a < s.len() && b < s.len() {
            assert(t[a] == s[a] && t[b] == s[b]);
        } else if a < s.len() {
            assert(t[a] == s[a]);
        } else {
            assert(t[b] == s[b]);
        }
    }
}


/// The key of a named entry: its name.
pub open spec fn name_key<V>() -> spec_fn((String, V)) -> Seq<char> {
    |e: (String, V)| e.0@
}

/// The value of a named entry.
pub open spec fn name_val<V>() -> spec_fn((String, V)) -> V {
    |e: (String, V)| e.1
}

/// The map that a list of named entries stands for.
pub open spec fn named_map<V>(s: Seq<(String, V)>) -> Map<Seq<char>, V> {
    assoc_map(s, name_key::<V>(), name_val::<V>())
}

/// The position of the first entry named `key`, if any.
pub fn find_name<V>(s: &Vec<(String, V)>, key: &str) -> (r: Option<usize>)
    ensures
        match r {
            Some(i) => first_match(s@, name_key::<V>(), key@, i as int),
            None => !has_key(s@, name_key::<V>(), key@),
        },
        r is Some <==> named_map(s@).contains_key(key@),
        r matches Some(i) ==> named_map(s@)[key@] == s@[i as int].1,
{
    let wanted: String = key.to_owned();
    let mut i: usize = 0;
    while i < s.len()
        invariant
            i <= s.len(),
            wanted@ == key@,
            forall|j: int| #![trigger s@[j]] 0 <= j < i ==> s@[j].0@ != key@,
        decreases s.len() - i,
    {
        if s[i].0 == wanted {
            proof {
                lemma_first_index_is(s@, name_key::<V>(), name_val::<V>(), key@, i as int);
            }
            return Some(i);
        }
        i = i + 1;
    }
    proof {
        lemma_absent(s@, name_key::<V>(), name_val::<V>(), key@);
    }
    None
}

/// Sets the entry named `name` to `v`: overwrites the first entry of that
/// name, or appends one.
pub fn put_named<V>(s: &mut Vec<(String, V)>, name: &str, v: V)
    ensures
        named_map(final(s)@) == named_map(old(s)@).insert(name@, v),
{
    let ghost s0 = s@;
    match find_name(s, name) {
        Some(i) => {
            let key = s[i].0.clone();
            let ghost entry = (key, v);
            s.set(i, (key, v));
            proof {
                assert(s@ == s0.update(i as int, entry));
                lemma_update_first(s0, name_key::<V>(), name_val::<V>(), i as int, entry);
            }
        },
        None => {
            let key = name.to_owned();
            proof {
                lemma_push_new(s0, name_key::<V>(), name_val::<V>(), (key, v));
            }
            s.push((key, v));
        },
    }
}

} // verus!
