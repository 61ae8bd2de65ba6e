//! The order of texts (by code point, which for UTF-8 strings is the order
//! of their bytes and so that of `str`'s comparison), and sorting lists of
//! texts in it.
use vstd::prelude::*;
use crate::text_util::{chars_of, strings_view};

verus! {

/// `a` comes strictly before `b`: at the first position where they differ
/// `a` has the smaller code point, or `a` is a proper prefix of `b`.
pub open spec fn text_lt(a: Seq<char>, b: Seq<char>) -> bool
    decreases a.len(),
{
    if a.len() == 0 {
        b.len() > 0
    } else if b.len() == 0 {
        false
    } else if (a[0] as int) < (b[0] as int) {
        true
    } else if (a[0] as int) > (b[0] as int) {
        false
    } else {
        text_lt(a.drop_first(), b.drop_first())
    }
}

/// No text of the list comes before one earlier in the list.
pub open spec fn texts_sorted(s: Seq<Seq<char>>) -> bool {
    forall|i: int, j: int| 0 <= i < j < s.len() ==> !text_lt(s[j], s[i])
}

/// `x` placed after the texts of `t` that do not come after it (so after
/// equal texts already there).
pub open spec fn insert_sorted(t: Seq<Seq<char>>, x: Seq<char>) -> Seq<Seq<char>>
    decreases t.len(),
{
    if t.len() == 0 {
        seq![x]
    } else if text_lt(x, t[0]) {
        seq![x] + t
    } else {
        seq![t[0]] + insert_sorted(t.drop_first(), x)
    }
}

/// The texts sorted by insertion, in their order: a stable sort.
pub open spec fn sorted_texts(s: Seq<Seq<char>>) -> Seq<Seq<char>>
    decreases s.len(),
{
    if s.len() == 0 {
        Seq::empty()
    } else {
        insert_sorted(sorted_texts(s.drop_last()), s.last())
    }
}

proof fn lemma_text_lt_transitive(a: Seq<char>, b: Seq<char>, c: Seq<char>)
    requires
        text_lt(a, b),
        text_lt(b, c),
    ensures
        text_lt(a, c),
    decreases a.len(),
{
    if a.len() > 0 && b.len() > 0 && c.len() > 0 && a[0] == b[0] && b[0] == c[0] {
        lemma_text_lt_transitive(a.drop_first(), b.drop_first(), c.drop_first());
    }
}

proof fn lemma_text_lt_asymmetric(a: Seq<char>, b: Seq<char>)
    requires
        text_lt(a, b),
    ensures
        !text_lt(b, a),
    decreases a.len(),
{
    if a.len() > 0 && b.len() > 0 && a[0] == b[0] {
        lemma_text_lt_asymmetric(a.drop_first(), b.drop_first());
    }
}

proof fn lemma_text_lt_total(a: Seq<char>, b: Seq<char>)
    requires
        a != b,
    ensures
        text_lt(a, b) || text_lt(b, a),
    decreases a.len(),
{
    if a.len() > 0 && b.len() > 0 && (a[0] as int) == (b[0] as int) {
        assert(a[0] == b[0]);
        if a.drop_first() == b.drop_first() {
            assert(a =~= seq![a[0]] + a.drop_first());
            assert(b =~= seq![b[0]] + b.drop_first());
        }
        lemma_text_lt_total(a.drop_first(), b.drop_first());
    } else if a.len() == 0 && b.len() == 0 {
        assert(a =~= b);
    }
}

proof fn lemma_insert_sorted_props(t: Seq<Seq<char>>, x: Seq<char>)
    requires
        texts_sorted(t),
    ensures
        texts_sorted(insert_sorted(t, x)),
        insert_sorted(t, x).to_multiset() =~= t.to_multiset().insert(x),
        insert_sorted(t, x).len() == t.len() + 1,
        forall|k: int| 0 <= k < insert_sorted(t, x).len() ==> #[trigger] insert_sorted(t, x)[k] == x || t.contains(
            insert_sorted(t, x)[k],
        ),
    decreases t.len(),
{
    broadcast use vstd::seq_lib::group_to_multiset_ensures;

    let r = insert_sorted(t, x);
    if t.len() == 0 {
        assert(r =~= seq![x]);
        assert(seq![x] =~= Seq::<Seq<char>>::empty().push(x));
        assert(t =~= Seq::<Seq<char>>::empty());
    } else if text_lt(x, t[0]) {
        assert(r == seq![x] + t);
        assert forall|i: int, j: int| 0 <= i < j < r.len() implies !text_lt(r[j], r[i]) by {
            if i == 0 {
                assert(r[j] == t[j - 1]);
                if text_lt(t[j - 1], x) {
                    lemma_text_lt_transitive(t[j - 1], x, t[0]);
                    if j - 1 > 0 {
                        assert(!text_lt(t[j - 1], t[0]));
                    } else {
                        lemma_text_lt_asymmetric(x, t[0]);
                    }
                }
            } else {
                assert(r[i] == t[i - 1] && r[j] == t[j - 1]);
            }
        }
        vstd::seq_lib::lemma_multiset_commutative(seq![x], t);
        assert(seq![x] =~= Seq::<Seq<char>>::empty().push(x));
        assert forall|k: int| 0 <= k < r.len() implies #[trigger] r[k] == x || t.contains(r[k]) by {
            if k > 0 {
                assert(r[k] == t[k - 1]);
            }
        }
    } else {
        let rest = t.drop_first();
        assert(texts_sorted(rest)) by {
            assert forall|i: int, j: int| 0 <= i < j < rest.len() implies !text_lt(rest[j], rest[i]) by {
                assert(rest[i] == t[i + 1] && rest[j] == t[j + 1]);
            }
        }
        lemma_insert_sorted_props(rest, x);
        let ir = insert_sorted(rest, x);
        assert(r == seq![t[0]] + ir);
        assert forall|i: int, j: int| 0 <= i < j < r.len() implies !text_lt(r[j], r[i]) by {
            if i == 0 {
                assert(r[j] == ir[j - 1]);
                if ir[j - 1] == x {
                } else {
                    assert(rest.contains(ir[j - 1]));
                    let q = choose|q: int| 0 <= q < rest.len() && rest[q] == ir[j - 1];
                    assert(rest[q] == t[q + 1]);
                }
            } else {
                assert(r[i] == ir[i - 1] && r[j] == ir[j - 1]);
            }
        }
        vstd::seq_lib::lemma_multiset_commutative(seq![t[0]], ir);
        vstd::seq_lib::lemma_multiset_commutative(seq![t[0]], rest);
        assert(t =~= seq![t[0]] + rest);
        assert(seq![t[0]] =~= Seq::<Seq<char>>::empty().push(t[0]));
        assert forall|k: int| 0 <= k < r.len() implies #[trigger] r[k] == x || t.contains(r[k]) by {
            if k == 0 {
                assert(t[0] == r[0]);
            } else {
                assert(r[k] == ir[k - 1]);
                if ir[k - 1] != x {
                    let q = choose|q: int| 0 <= q < rest.len() && rest[q] == ir[k - 1];
                    assert(t[q + 1] == r[k]);
                }
            }
        }
    }
}

/// Sorting gives a sorted list of the same texts, each as often as before.
pub proof fn lemma_sorted_texts(s: Seq<Seq<char>>)
    ensures
        texts_sorted(sorted_texts(s)),
        sorted_texts(s).to_multiset() =~= s.to_multiset(),
        sorted_texts(s).len() == s.len(),
    decreases s.len(),
{
    broadcast use vstd::seq_lib::group_to_multiset_ensures;

    if s.len() > 0 {
        lemma_sorted_texts(s.drop_last());
        lemma_insert_sorted_props(sorted_texts(s.drop_last()), s.last());
        assert(s =~= s.drop_last().push(s.last()));
    }
}

/// Where `insert_sorted` places `x`: at the first text it comes before.
proof fn lemma_insert_at(t: Seq<Seq<char>>, x: Seq<char>, k: int)
    requires
        0 <= k <= t.len(),
        forall|j: int| 0 <= j < k ==> !text_lt(x, #[trigger] t[j]),
        k == t.len() || text_lt(x, t[k]),
    ensures
        insert_sorted(t, x) == t.take(k).push(x) + t.skip(k),
    decreases t.len(),
{
    if t.len() == 0 {
        assert(t.take(k).push(x) + t.skip(k) =~= seq![x]);
    } else if k == 0 {
        assert(t.take(0).push(x) + t.skip(0) =~= seq![x] + t);
    } else {
        let rest = t.drop_first();
        assert forall|j: int| 0 <= j < k - 1 implies !text_lt(x, #[trigger] rest[j]) by {
            assert(rest[j] == t[j + 1]);
        }
        if k < t.len() {
            assert(rest[k - 1] == t[k]);
        }
        lemma_insert_at(rest, x, k - 1);
        assert(seq![t[0]] + (rest.take(k - 1).push(x) + rest.skip(k - 1)) =~= t.take(k).push(x) + t.skip(k));
    }
}

/// Whether `a` comes strictly before `b`.
pub fn text_less(a: &str, b: &str) -> (r: bool)
    ensures
        r == text_lt(a@, b@),
{
    let av = chars_of(a);
    let bv = chars_of(b);
    let mut i: usize = 0;
    proof {
        assert(a@.skip(0) =~= a@);
        assert(b@.skip(0) =~= b@);
    }
    while i < av.len() && i < bv.len()
        invariant
            av@ == a@,
            bv@ == b@,
            i <= av@.len(),
            i <= bv@.len(),
            text_lt(a@, b@) == text_lt(a@.skip(i as int), b@.skip(i as int)),
        decreases av@.len() - i,
    {
        let x = av[i];
        let y = bv[i];
        proof {
            assert(a@.skip(i as int)[0] == a@[i as int]);
            assert(b@.skip(i as int)[0] == b@[i as int]);
        }
        if x < y {
            return true;
        }
        if x > y {
            return false;
        }
        proof {
            assert(a@.skip(i as int).drop_first() =~= a@.skip(i + 1));
            assert(b@.skip(i as int).drop_first() =~= b@.skip(i + 1));
        }
        i = i + 1;
    }
    i < bv.len()
}

/// Places `x` after the texts of `t` that do not come after it.
fn insert_text(t: &mut Vec<String>, x: String)
    ensures
        strings_view(final(t)@) == insert_sorted(strings_view(old(t)@), x@),
{
    let ghost tv = strings_view(t@);
    let mut k: usize = 0;
    while k < t.len() && !text_less(x.as_str(), t[k].as_str())
        invariant
            tv == strings_view(t@),
            k <= t@.len(),
            forall|j: int| 0 <= j < k ==> !text_lt(x@, #[trigger] tv[j]),
        decreases t@.len() - k,
    {
        k = k + 1;
    }
    proof {
        lemma_insert_at(tv, x@, k as int);
    }
    let ghost t0 = t@;
    t.insert(k, x);
    proof {
        assert(strings_view(t@) =~= tv.take(k as int).push(x@) + tv.skip(k as int)) by {
            assert(t@ == t0.insert(k as int, x));
        }
    }
}

/// The texts sorted, stably (see `sorted_texts`).
pub fn sort_texts(v: &Vec<String>) -> (r: Vec<String>)
    ensures
        strings_view(r@) == sorted_texts(strings_view(v@)),
{
    let ghost sv = strings_view(v@);
    let mut r: Vec<String> = Vec::new();
    let mut i: usize = 0;
    proof {
        assert(sv.take(0) =~= Seq::<Seq<char>>::empty());
        assert(strings_view(r@) =~= Seq::<Seq<char>>::empty());
    }
    while i < v.len()
        invariant
            sv == strings_view(v@),
            i <= v@.len(),
            strings_view(r@) == sorted_texts(sv.take(i as int)),
        decreases v@.len() - i,
    {
        proof {
            assert(sv.take(i + 1).drop_last() =~= sv.take(i as int));
            assert(sv.take(i + 1).last() == sv[i as int]);
        }
        let x = v[i].clone();
        insert_text(&mut r, x);
        i = i + 1;
    }
    proof {
        assert(sv.take(v@.len() as int) =~= sv);
    }
    r
}

} // verus!
