//! Facts about `Seq::flat_map` that the loops building issue, record and
//! line lists rely on, and the stable sort by a text key.
use vstd::prelude::*;

use crate::text::{lemma_seq_lt_irreflexive, lemma_seq_lt_transitive, seq_lt};

verus! {

/// Growing a prefix by one element appends that element's image.
pub proof fn lemma_flat_map_take_succ<A, B>(s: Seq<A>, f: spec_fn(A) -> Seq<B>, i: int)
    requires
        0 <= i < s.len(),
    ensures
        s.take(i + 1).flat_map(f) == s.take(i).flat_map(f) + f(s[i]),
{
    assert(s.take(i + 1).map_values(f) =~= s.take(i).map_values(f).push(f(s[i])));
    s.take(i).map_values(f).lemma_flatten_push(f(s[i]));
}

/// The empty prefix maps to nothing.
pub proof fn lemma_flat_map_take_zero<A, B>(s: Seq<A>, f: spec_fn(A) -> Seq<B>)
    ensures
        s.take(0).flat_map(f) == Seq::<B>::empty(),
{
    assert(s.take(0).map_values(f) =~= Seq::<Seq<B>>::empty());
}

/// The whole sequence is its longest prefix.
pub proof fn lemma_flat_map_take_all<A, B>(s: Seq<A>, f: spec_fn(A) -> Seq<B>)
    ensures
        s.take(s.len() as int).flat_map(f) == s.flat_map(f),
{
    assert(s.take(s.len() as int) =~= s);
}

/// `flat_map` distributes over concatenation.
pub proof fn lemma_flat_map_add<A, B>(a: Seq<A>, b: Seq<A>, f: spec_fn(A) -> Seq<B>)
    ensures
        (a + b).flat_map(f) == a.flat_map(f) + b.flat_map(f),
    decreases b.len(),
{
    if b.len() == 0 {
        assert(a + b =~= a);
        assert(b.map_values(f) =~= Seq::<Seq<B>>::empty());
        assert(a.flat_map(f) + b.flat_map(f) =~= a.flat_map(f));
    } else {
        let b0 = b.drop_last();
        lemma_flat_map_add(a, b0, f);
        assert((a + b).map_values(f) =~= (a + b0).map_values(f).push(f(b.last())));
        (a + b0).map_values(f).lemma_flatten_push(f(b.last()));
        assert(b.map_values(f) =~= b0.map_values(f).push(f(b.last())));
        b0.map_values(f).lemma_flatten_push(f(b.last()));
        assert(a.flat_map(f) + b.flat_map(f) =~= a.flat_map(f) + b0.flat_map(f) + f(b.last()));
    }
}

/// Growing a prefix by one element keeps that element in the filter when it qualifies.
pub proof fn lemma_filter_take_succ<A>(s: Seq<A>, p: spec_fn(A) -> bool, i: int)
    requires
        0 <= i < s.len(),
    ensures
        s.take(i + 1).filter(p) == if p(s[i]) {
            s.take(i).filter(p).push(s[i])
        } else {
            s.take(i).filter(p)
        },
{
    assert(s.take(i + 1) =~= s.take(i).push(s[i]));
    s.take(i).lemma_filter_push(s[i], p);
}

/// The empty prefix filters to nothing.
pub proof fn lemma_filter_take_zero<A>(s: Seq<A>, p: spec_fn(A) -> bool)
    ensures
        s.take(0).filter(p) == Seq::<A>::empty(),
{
    reveal(Seq::filter);
    assert(s.take(0) =~= Seq::<A>::empty());
}

/// Where an element with key `k` goes among elements sorted by key: before
/// the first one, from `i` on, whose key sorts after `k`, so that equal keys
/// keep their order.
pub open spec fn key_insert_index<T>(s: Seq<T>, key: spec_fn(T) -> Seq<char>, k: Seq<char>, i: int) -> int
    decreases s.len() - i,
{
    if i < 0 || i >= s.len() {
        s.len() as int
    } else if seq_lt(k, key(s[i])) {
        i
    } else {
        key_insert_index(s, key, k, i + 1)
    }
}

/// The elements sorted by key, stably (as `sort_by` comparing the keys sorts them).
pub open spec fn sorted_by_key<T>(s: Seq<T>, key: spec_fn(T) -> Seq<char>) -> Seq<T>
    decreases s.len(),
{
    if s.len() == 0 {
        s
    } else {
        let sorted = sorted_by_key(s.drop_last(), key);
        sorted.insert(key_insert_index(sorted, key, key(s.last()), 0), s.last())
    }
}

/// The elements are in key order: no key sorts before the key of an
/// earlier element.
pub open spec fn sorted_by<T>(s: Seq<T>, key: spec_fn(T) -> Seq<char>) -> bool {
    forall|i: int, j: int| #![trigger s[i], s[j]] 0 <= i < j < s.len() ==> !seq_lt(key(s[j]), key(s[i]))
}

proof fn lemma_key_insert_index<T>(s: Seq<T>, key: spec_fn(T) -> Seq<char>, k: Seq<char>, i: int)
    requires
        0 <= i <= s.len(),
    ensures
        i <= key_insert_index(s, key, k, i) <= s.len(),
        forall|m: int| i <= m < key_insert_index(s, key, k, i) ==> !seq_lt(k, #[trigger] key(s[m])),
        key_insert_index(s, key, k, i) < s.len() ==> seq_lt(k, key(s[key_insert_index(s, key, k, i)])),
    decreases s.len() - i,
{
    if i < s.len() && !seq_lt(k, key(s[i])) {
        lemma_key_insert_index(s, key, k, i + 1);
    }
}

/// Sorting by key yields the same elements, in key order.
pub proof fn lemma_sorted_by_key<T>(s: Seq<T>, key: spec_fn(T) -> Seq<char>)
    ensures
        sorted_by(sorted_by_key(s, key), key),
        sorted_by_key(s, key).to_multiset() == s.to_multiset(),
    decreases s.len(),
{
    broadcast use vstd::seq_lib::to_multiset_build, vstd::seq_lib::to_multiset_insert;

    if s.len() > 0 {
        let t = s.drop_last();
        let x = s.last();
        let k = key(x);
        let r0 = sorted_by_key(t, key);
        lemma_sorted_by_key(t, key);
        let idx = key_insert_index(r0, key, k, 0);
        lemma_key_insert_index(r0, key, k, 0);
        let r = r0.insert(idx, x);
        assert(r == sorted_by_key(s, key));
        assert forall|i: int, j: int| #![trigger r[i], r[j]] 0 <= i < j < r.len() implies !seq_lt(
            key(r[j]),
            key(r[i]),
        ) by {
            if j < idx {
                assert(r[i] == r0[i] && r[j] == r0[j]);
            } else if j == idx {
                assert(r[i] == r0[i]);
                assert(!seq_lt(k, key(r0[i])));
            } else if i < idx {
                assert(r[i] == r0[i] && r[j] == r0[j - 1]);
            } else if i == idx {
                assert(r[j] == r0[j - 1]);
                assert(seq_lt(k, key(r0[idx])));
                if seq_lt(key(r0[j - 1]), k) {
                    lemma_seq_lt_transitive(key(r0[j - 1]), k, key(r0[idx]));
                    if j - 1 == idx {
                        lemma_seq_lt_irreflexive(key(r0[idx]));
                    } else {
                        assert(!seq_lt(key(r0[j - 1]), key(r0[idx])));
                    }
                }
            } else {
                assert(r[i] == r0[i - 1] && r[j] == r0[j - 1]);
            }
        }
        assert(s == t.push(x));
    }
}

/// What an element maps to is part of the flattened image.
pub proof fn lemma_flat_map_contains<A, B>(s: Seq<A>, f: spec_fn(A) -> Seq<B>, i: int, x: B)
    requires
        0 <= i < s.len(),
        f(s[i]).contains(x),
    ensures
        s.flat_map(f).contains(x),
{
    let a = s.take(i);
    let b = s.skip(i);
    assert(s =~= a + b);
    lemma_flat_map_add(a, b, f);
    let c = b.skip(1);
    assert(b =~= seq![s[i]] + c);
    lemma_flat_map_add(seq![s[i]], c, f);
    assert(seq![s[i]].flat_map(f) =~= f(s[i])) by {
        lemma_flat_map_take_succ(seq![s[i]], f, 0);
        lemma_flat_map_take_zero(seq![s[i]], f);
        assert(seq![s[i]].take(1) =~= seq![s[i]]);
    }
    let fx = f(s[i]);
    let j = choose|j: int| 0 <= j < fx.len() && #[trigger] fx[j] == x;
    let whole = a.flat_map(f) + (f(s[i]) + c.flat_map(f));
    assert(whole[a.flat_map(f).len() + j] == x);
}

/// What either part holds, the concatenation holds.
pub proof fn lemma_concat_contains<A>(a: Seq<A>, b: Seq<A>, x: A)
    requires
        a.contains(x) || b.contains(x),
    ensures
        (a + b).contains(x),
{
    if a.contains(x) {
        let i = choose|i: int| 0 <= i < a.len() && #[trigger] a[i] == x;
        assert((a + b)[i] == x);
    } else {
        let i = choose|i: int| 0 <= i < b.len() && #[trigger] b[i] == x;
        assert((a + b)[a.len() + i] == x);
    }
}

/// Every element satisfies `p`.
pub open spec fn all_of<B>(s: Seq<B>, p: spec_fn(B) -> bool) -> bool {
    forall|i: int| 0 <= i < s.len() ==> #[trigger] p(s[i])
}

/// A concatenation of two lists whose elements satisfy `p` satisfies `p`.
pub proof fn lemma_all_of_concat<B>(a: Seq<B>, b: Seq<B>, p: spec_fn(B) -> bool)
    requires
        all_of(a, p),
        all_of(b, p),
    ensures
        all_of(a + b, p),
{
    assert forall|i: int| 0 <= i < (a + b).len() implies #[trigger] p((a + b)[i]) by {
        if i < a.len() {
            assert((a + b)[i] == a[i]);
        } else {
            assert((a + b)[i] == b[i - a.len()]);
        }
    }
}

/// When every image satisfies `p` throughout, so does the flattened image.
pub proof fn lemma_flat_map_all<A, B>(s: Seq<A>, f: spec_fn(A) -> Seq<B>, p: spec_fn(B) -> bool)
    requires
        forall|x: A| #[trigger] all_of(f(x), p),
    ensures
        all_of(s.flat_map(f), p),
    decreases s.len(),
{
    if s.len() == 0 {
        lemma_flat_map_take_zero(s, f);
        assert(s.take(0) =~= s);
    } else {
        let t = s.drop_last();
        lemma_flat_map_all(t, f, p);
        lemma_flat_map_take_succ(s, f, s.len() - 1);
        assert(s.take(s.len() - 1) =~= t);
        assert(s.take(s.len() as int) =~= s);
        assert(all_of(f(s[s.len() - 1]), p));
        lemma_all_of_concat(t.flat_map(f), f(s[s.len() - 1]), p);
    }
}

/// Where the image of element `k` stands in the flattened image: right
/// after the images of the elements before it.
pub proof fn lemma_flat_map_index<A, B>(s: Seq<A>, f: spec_fn(A) -> Seq<B>, k: int, j: int)
    requires
        0 <= k < s.len(),
        0 <= j < f(s[k]).len(),
    ensures
        s.take(k).flat_map(f).len() + j < s.flat_map(f).len(),
        s.flat_map(f)[s.take(k).flat_map(f).len() + j] == f(s[k])[j],
{
    let a = s.take(k);
    let b = s.skip(k);
    assert(s =~= a + b);
    lemma_flat_map_add(a, b, f);
    let c = b.skip(1);
    assert(b =~= seq![s[k]] + c);
    lemma_flat_map_add(seq![s[k]], c, f);
    assert(seq![s[k]].flat_map(f) =~= f(s[k])) by {
        lemma_flat_map_take_succ(seq![s[k]], f, 0);
        lemma_flat_map_take_zero(seq![s[k]], f);
        assert(seq![s[k]].take(1) =~= seq![s[k]]);
    }
    let whole = a.flat_map(f) + (f(s[k]) + c.flat_map(f));
    assert(whole[a.flat_map(f).len() + j] == f(s[k])[j]);
}

} // verus!
