//! Small maps keyed by text, held as vectors of (key, value) pairs with
//! distinct keys. Their abstract content is a `Map` from key text to value.
use vstd::prelude::*;
use crate::text_util::str_eq;

verus! {

/// No key occurs twice.
pub open spec fn keys_unique<V>(s: Seq<(String, V)>) -> bool {
    forall|i: int, j: int| 0 <= i < j < s.len() ==> #[trigger] s[i].0@ != #[trigger] s[j].0@
}

/// Some entry has the key `k`.
pub open spec fn has_key<V>(s: Seq<(String, V)>, k: Seq<char>) -> bool {
    exists|i: int| 0 <= i < s.len() && #[trigger] s[i].0@ == k
}

/// The index of an entry with key `k` (the only one when keys are unique).
pub open spec fn key_index<V>(s: Seq<(String, V)>, k: Seq<char>) -> int {
    choose|i: int| 0 <= i < s.len() && #[trigger] s[i].0@ == k
}

/// The map from key text to value that the pairs hold.
pub open spec fn assoc_view<V>(s: Seq<(String, V)>) -> Map<Seq<char>, V> {
    Map::new(|k: Seq<char>| has_key(s, k), |k: Seq<char>| s[key_index(s, k)].1)
}

/// With distinct keys, the entry found for a key is the one at its index.
pub proof fn lemma_key_index<V>(s: Seq<(String, V)>, i: int)
    requires
        keys_unique(s),
        0 <= i < s.len(),
    ensures
        has_key(s, s[i].0@),
        key_index(s, s[i].0@) == i,
        assoc_view(s).contains_key(s[i].0@),
        assoc_view(s)[s[i].0@] == s[i].1,
{
    let k = s[i].0@;
    assert(has_key(s, k));
    let j = key_index(s, k);
    if j != i {
        if j < i {
            assert(s[j].0@ != s[i].0@);
        } else {
            assert(s[i].0@ != s[j].0@);
        }
    }
}

/// Appending an entry with a new key adds that key to the map.
pub proof fn lemma_push<V>(s: Seq<(String, V)>, key: String, val: V)
    requires
        keys_unique(s),
        !has_key(s, key@),
    ensures
        keys_unique(s.push((key, val))),
        assoc_view(s.push((key, val))) == assoc_view(s).insert(key@, val),
{
    let t = s.push((key, val));
    assert forall|i: int, j: int| 0 <= i < j < t.len() implies #[trigger] t[i].0@ != #[trigger] t[j].0@ by {
        if j == s.len() {
            assert(s[i].0@ != key@);
        } else {
            assert(s[i].0@ != s[j].0@);
        }
    }
    let m1 = assoc_view(t);
    let m2 = assoc_view(s).insert(key@, val);
    assert forall|k: Seq<char>| #[trigger] m1.contains_key(k) <==> m2.contains_key(k) by {
        if has_key(t, k) {
            let i = choose|i: int| 0 <= i < t.len() && #[trigger] t[i].0@ == k;
            if i < s.len() {
                assert(s[i].0@ == k);
                assert(has_key(s, k));
            }
        }
        if has_key(s, k) {
            let i = choose|i: int| 0 <= i < s.len() && #[trigger] s[i].0@ == k;
            assert(t[i].0@ == k);
        }
        if k == key@ {
            assert(t[s.len() as int].0@ == k);
        }
    }
    assert forall|k: Seq<char>| #[trigger] m1.contains_key(k) implies m1[k] == m2[k] by {
        let i = key_index(t, k);
        lemma_key_index(t, i);
        if i < s.len() {
            assert(t[i] == s[i]);
            lemma_key_index(s, i);
        }
    }
    assert(m1 =~= m2);
}

/// Replacing the value of the entry at `i` changes only that key's value.
pub proof fn lemma_update<V>(s: Seq<(String, V)>, i: int, key: String, val: V)
    requires
        keys_unique(s),
        0 <= i < s.len(),
        s[i].0@ == key@,
    ensures
        keys_unique(s.update(i, (key, val))),
        assoc_view(s.update(i, (key, val))) == assoc_view(s).insert(key@, val),
{
    let t = s.update(i, (key, val));
    assert forall|a: int, b: int| 0 <= a < b < t.len() implies #[trigger] t[a].0@ != #[trigger] t[b].0@ by {
        assert(s[a].0@ != s[b].0@);
    }
    lemma_key_index(s, i);
    let m1 = assoc_view(t);
    let m2 = assoc_view(s).insert(key@, val);
    assert forall|k: Seq<char>| #[trigger] m1.contains_key(k) <==> m2.contains_key(k) by {
        if has_key(t, k) {
            let j = choose|j: int| 0 <= j < t.len() && #[trigger] t[j].0@ == k;
            assert(s[j].0@ == k);
        }
        if has_key(s, k) {
            let j = choose|j: int| 0 <= j < s.len() && #[trigger] s[j].0@ == k;
            assert(t[j].0@ == k);
        }
    }
    assert forall|k: Seq<char>| #[trigger] m1.contains_key(k) implies m1[k] == m2[k] by {
        let j = key_index(t, k);
        lemma_key_index(t, j);
        if j != i {
            assert(t[j] == s[j]);
            lemma_key_index(s, j);
        }
    }
    assert(m1 =~= m2);
}

/// Removing the entry at `i` removes its key from the map.
pub proof fn lemma_remove<V>(s: Seq<(String, V)>, i: int)
    requires
        keys_unique(s),
        0 <= i < s.len(),
    ensures
        keys_unique(s.remove(i)),
        assoc_view(s.remove(i)) == assoc_view(s).remove(s[i].0@),
{
    let t = s.remove(i);
    let key = s[i].0@;
    assert forall|a: int, b: int| 0 <= a < b < t.len() implies #[trigger] t[a].0@ != #[trigger] t[b].0@ by {
        let a2 = if a < i { a } else { a + 1 };
        let b2 = if b < i { b } else { b + 1 };
        assert(t[a] == s[a2]);
        assert(t[b] == s[b2]);
        assert(s[a2].0@ != s[b2].0@);
    }
    let m1 = assoc_view(t);
    let m2 = assoc_view(s).remove(key);
    assert forall|k: Seq<char>| #[trigger] m1.contains_key(k) <==> m2.contains_key(k) by {
        if has_key(t, k) {
            let j = choose|j: int| 0 <= j < t.len() && #[trigger] t[j].0@ == k;
            let j2 = if j < i { j } else { j + 1 };
            assert(t[j] == s[j2]);
            assert(s[j2].0@ == k);
            assert(j2 != i);
            if k == key {
                if j2 < i {
                    assert(s[j2].0@ != s[i].0@);
                } else {
                    assert(s[i].0@ != s[j2].0@);
                }
            }
        }
        if has_key(s, k) && k != key {
            let j = choose|j: int| 0 <= j < s.len() && #[trigger] s[j].0@ == k;
            assert(j != i);
            let j2 = if j < i { j } else { j - 1 };
            assert(t[j2] == s[j]);
            assert(t[j2].0@ == k);
        }
    }
    assert forall|k: Seq<char>| #[trigger] m1.contains_key(k) implies m1[k] == m2[k] by {
        let j = key_index(t, k);
        lemma_key_index(t, j);
        let j2 = if j < i { j } else { j + 1 };
        assert(t[j] == s[j2]);
        lemma_key_index(s, j2);
    }
    assert(m1 =~= m2);
}

/// With distinct keys, the map has one key per entry.
pub proof fn lemma_assoc_len<V>(s: Seq<(String, V)>)
    requires
        keys_unique(s),
    ensures
        assoc_view(s).dom().finite(),
        assoc_view(s).len() == s.len(),
    decreases s.len(),
{
    if s.len() == 0 {
        assert(assoc_view(s).dom() =~= Set::empty());
    } else {
        let t = s.drop_last();
        assert(keys_unique(t));
        lemma_assoc_len(t);
        let last = s.last();
        assert(!has_key(t, last.0@)) by {
            if has_key(t, last.0@) {
                let j = choose|j: int| 0 <= j < t.len() && #[trigger] t[j].0@ == last.0@;
                assert(s[j].0@ != s[s.len() - 1].0@);
            }
        }
        lemma_push(t, last.0, last.1);
        assert(t.push(last) =~= s);
    }
}

/// The map `m` after setting each (key, value) of `v` in order; a later
/// entry for a key wins.
pub open spec fn inserted_all<V>(m: Map<Seq<char>, V>, v: Seq<(String, V)>) -> Map<Seq<char>, V>
    decreases v.len(),
{
    if v.len() == 0 {
        m
    } else {
        inserted_all(m, v.drop_last()).insert(v.last().0@, v.last().1)
    }
}

/// Sets every (key, value) of `entries`, in order.
pub fn assoc_insert_all<V>(v: &mut Vec<(String, V)>, entries: Vec<(String, V)>)
    requires
        keys_unique(old(v)@),
    ensures
        keys_unique(final(v)@),
        assoc_view(final(v)@) == inserted_all(assoc_view(old(v)@), entries@),
{
    let ghost src = entries@;
    let ghost start = assoc_view(v@);
    let mut rest = entries;
    let mut i: usize = 0;
    assert(src.len() == rest.len());
    assert(inserted_all(start, src.take(0)) == start);
    while rest.len() > 0
        invariant
            rest@ == src.skip(i as int),
            src.len() <= usize::MAX,
            i <= src.len(),
            keys_unique(v@),
            assoc_view(v@) == inserted_all(start, src.take(i as int)),
        decreases rest@.len(),
    {
        proof {
            assert(i < src.len());
            assert(src.skip(i as int)[0] == src[i as int]);
            let t = src.take(i as int + 1);
            assert(t.drop_last() =~= src.take(i as int));
            assert(t.last() == src[i as int]);
        }
        let (k, val) = rest.remove(0);
        proof {
            assert(rest@ =~= src.skip(i as int + 1));
        }
        assoc_insert(v, k, val);
        i = i + 1;
    }
    proof {
        assert(src.take(src.len() as int) =~= src);
    }
}

/// The position of the entry with key `key`, if there is one.
pub fn assoc_find<V>(v: &Vec<(String, V)>, key: &str) -> (r: Option<usize>)
    ensures
        match r {
            Some(i) => i < v@.len() && v@[i as int].0@ == key@,
            None => !has_key(v@, key@),
        },
{
    let mut i: usize = 0;
    while i < v.len()
        invariant
            i <= v@.len(),
            forall|j: int| 0 <= j < i ==> #[trigger] v@[j].0@ != key@,
        decreases v@.len() - i,
    {
        if str_eq(v[i].0.as_str(), key) {
            return Some(i);
        }
        i = i + 1;
    }
    None
}

/// Sets the value for `key`, adding an entry when the key is new.
pub fn assoc_insert<V>(v: &mut Vec<(String, V)>, key: String, val: V)
    requires
        keys_unique(old(v)@),
    ensures
        keys_unique(final(v)@),
        assoc_view(final(v)@) == assoc_view(old(v)@).insert(key@, val),
        final(v)@.len() == old(v)@.len() + if has_key(old(v)@, key@) { 0int } else { 1int },
{
    match assoc_find(v, key.as_str()) {
        Some(i) => {
            proof {
                lemma_update(v@, i as int, key, val);
            }
            v.set(i, (key, val));
        },
        None => {
            proof {
                lemma_push(v@, key, val);
            }
            v.push((key, val));
        },
    }
}

/// Removes the entry for `key`, if any.
pub fn assoc_remove<V>(v: &mut Vec<(String, V)>, key: &str)
    requires
        keys_unique(old(v)@),
    ensures
        keys_unique(final(v)@),
        assoc_view(final(v)@) == assoc_view(old(v)@).remove(key@),
{
    match assoc_find(v, key) {
        Some(i) => {
            proof {
                lemma_remove(v@, i as int);
            }
            v.remove(i);
        },
        None => {
            assert(assoc_view(v@) =~= assoc_view(v@).remove(key@));
        },
    }
}

/// Removes the entry for `key` and hands back its value, if there is one.
pub fn assoc_take<V>(v: &mut Vec<(String, V)>, key: &str) -> (r: Option<V>)
    requires
        keys_unique(old(v)@),
    ensures
        keys_unique(final(v)@),
        assoc_view(final(v)@) == assoc_view(old(v)@).remove(key@),
        match r {
            Some(x) => assoc_view(old(v)@).contains_key(key@) && x == assoc_view(old(v)@)[key@]
                && final(v)@.len() == old(v)@.len() - 1,
            None => !assoc_view(old(v)@).contains_key(key@) && final(v)@.len() == old(v)@.len(),
        },
{
    match assoc_find(v, key) {
        Some(i) => {
            proof {
                lemma_remove(v@, i as int);
                lemma_key_index(v@, i as int);
            }
            let (_, x) = v.remove(i);
            Some(x)
        },
        None => {
            assert(assoc_view(v@) =~= assoc_view(v@).remove(key@));
            None
        },
    }
}

/// The value stored for `key`, if any.
pub fn assoc_get<'a, V>(v: &'a Vec<(String, V)>, key: &str) -> (r: Option<&'a V>)
    requires
        keys_unique(v@),
    ensures
        match r {
            Some(x) => assoc_view(v@).contains_key(key@) && *x == assoc_view(v@)[key@],
            None => !assoc_view(v@).contains_key(key@),
        },
{
    match assoc_find(v, key) {
        Some(i) => {
            proof {
                lemma_key_index(v@, i as int);
            }
            Some(&v[i].1)
        },
        None => None,
    }
}

} // verus!
