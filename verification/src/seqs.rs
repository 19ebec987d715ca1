//! Generic sequence facts shared by the catalog modules.

use vstd::prelude::*;

verus! {

/// Index of the first element of `s` that satisfies `p`, if any.
pub open spec fn first_index<T>(s: Seq<T>, p: spec_fn(T) -> bool) -> Option<int>
    decreases s.len(),
{
    if s.len() == 0 {
        None
    } else if p(s[0]) {
        Some(0)
    } else {
        match first_index(s.drop_first(), p) {
            Some(i) => Some(i + 1),
            None => None,
        }
    }
}

/// `first_index` is the least index that satisfies the predicate.
pub proof fn lemma_first_index<T>(s: Seq<T>, p: spec_fn(T) -> bool)
    ensures
        match first_index(s, p) {
            Some(i) => 0 <= i < s.len() && p(s[i]) && forall|j: int| 0 <= j < i ==> !p(#[trigger] s[j]),
            None => forall|j: int| 0 <= j < s.len() ==> !p(#[trigger] s[j]),
        },
    decreases s.len(),
{
    if s.len() > 0 && !p(s[0]) {
        lemma_first_index(s.drop_first(), p);
        assert forall|j: int| 1 <= j < s.len() implies s[j] == s.drop_first()[j - 1] by {}
    }
}

/// A least satisfying index is what `first_index` returns.
pub proof fn lemma_first_index_is<T>(s: Seq<T>, p: spec_fn(T) -> bool, i: int)
    requires
        0 <= i < s.len(),
        p(s[i]),
        forall|j: int| 0 <= j < i ==> !p(#[trigger] s[j]),
    ensures
        first_index(s, p) == Some(i),
{
    lemma_first_index(s, p);
    match first_index(s, p) {
        Some(k) => {
            if k < i {
                assert(!p(s[k]));
            } else if k > i {
                assert(!p(s[i]));
            }
        },
        None => {
            assert(!p(s[i]));
        },
    }
}

/// No satisfying index means `first_index` is `None`.
pub proof fn lemma_first_index_none<T>(s: Seq<T>, p: spec_fn(T) -> bool)
    requires
        forall|j: int| 0 <= j < s.len() ==> !p(#[trigger] s[j]),
    ensures
        first_index(s, p) is None,
{
    lemma_first_index(s, p);
    if let Some(k) = first_index(s, p) {
        assert(p(s[k]));
    }
}

/// Concatenation of a sequence of sequences.
pub open spec fn flatten<T>(s: Seq<Seq<T>>) -> Seq<T>
    decreases s.len(),
{
    if s.len() == 0 {
        Seq::empty()
    } else {
        flatten(s.drop_last()) + s.last()
    }
}

/// Appending one more block extends the flattening by that block.
pub proof fn lemma_flatten_push<T>(s: Seq<Seq<T>>, t: Seq<T>)
    ensures
        flatten(s.push(t)) == flatten(s) + t,
{
    assert(s.push(t).drop_last() =~= s);
}

/// Every element of every block is in the flattening.
pub proof fn lemma_flatten_contains<T>(s: Seq<Seq<T>>, j: int, k: int)
    requires
        0 <= j < s.len(),
        0 <= k < s[j].len(),
    ensures
        flatten(s).contains(s[j][k]),
    decreases s.len(),
{
    if j == s.len() - 1 {
        assert(flatten(s) == flatten(s.drop_last()) + s.last());
        assert(flatten(s)[flatten(s.drop_last()).len() + k] == s[j][k]);
    } else {
        lemma_flatten_contains(s.drop_last(), j, k);
        let i = choose|i: int| 0 <= i < flatten(s.drop_last()).len() && flatten(s.drop_last())[i] == s[j][k];
        assert(flatten(s)[i] == s[j][k]);
    }
}

/// An element that the map keeps is in the result of `filter_map`.
pub proof fn lemma_filter_map_keeps<A, B>(s: Seq<A>, f: spec_fn(A) -> Option<B>, i: int)
    requires
        0 <= i < s.len(),
        f(s[i]) is Some,
    ensures
        s.filter_map(f).contains(f(s[i]).unwrap()),
    decreases s.len(),
{
    let r = s.drop_last().filter_map(f);
    if i == s.len() - 1 {
        assert(s.filter_map(f) == r + seq![f(s[i]).unwrap()]);
        assert(s.filter_map(f)[r.len() as int] == f(s[i]).unwrap());
    } else {
        assert(s.drop_last()[i] == s[i]);
        lemma_filter_map_keeps(s.drop_last(), f, i);
        let k = choose|k: int| 0 <= k < r.len() && r[k] == f(s[i]).unwrap();
        assert(s.filter_map(f)[k] == r[k]);
    }
}


/// A map that keeps exactly a prefix of the elements yields the mapped prefix.
pub proof fn lemma_filter_map_prefix<A, B>(s: Seq<A>, f: spec_fn(A) -> Option<B>, m: int)
    requires
        0 <= m <= s.len(),
        forall|i: int| 0 <= i < m ==> f(#[trigger] s[i]) is Some,
        forall|i: int| m <= i < s.len() ==> f(#[trigger] s[i]) is None,
    ensures
        s.filter_map(f).len() == m,
        forall|i: int| 0 <= i < m ==> Some(#[trigger] s.filter_map(f)[i]) == f(s[i]),
    decreases s.len(),
{
    if s.len() > 0 {
        let r = s.drop_last();
        if m == s.len() {
            lemma_filter_map_prefix(r, f, m - 1);
            assert(f(s[s.len() - 1]) is Some);
            assert forall|i: int| 0 <= i < m implies Some(#[trigger] s.filter_map(f)[i]) == f(s[i]) by {
                if i < m - 1 {
                    assert(s.filter_map(f)[i] == r.filter_map(f)[i]);
                    assert(r[i] == s[i]);
                }
            }
        } else {
            lemma_filter_map_prefix(r, f, m);
            assert(f(s[s.len() - 1]) is None);
            assert forall|i: int| 0 <= i < m implies Some(#[trigger] s.filter_map(f)[i]) == f(s[i]) by {
                assert(r[i] == s[i]);
            }
        }
    }
}

/// `filter_map` distributes over concatenation.
pub proof fn lemma_filter_map_concat<A, B>(a: Seq<A>, b: Seq<A>, f: spec_fn(A) -> Option<B>)
    ensures
        (a + b).filter_map(f) == a.filter_map(f) + b.filter_map(f),
    decreases b.len(),
{
    if b.len() == 0 {
        assert(a + b =~= a);
        assert(a.filter_map(f) + b.filter_map(f) =~= a.filter_map(f));
    } else {
        lemma_filter_map_concat(a, b.drop_last(), f);
        assert((a + b).drop_last() =~= a + b.drop_last());
        assert((a + b).last() == b.last());
        match f(b.last()) {
            Some(x) => {
                assert(a.filter_map(f) + b.filter_map(f) =~= a.filter_map(f) + b.drop_last().filter_map(f) + seq![x]);
            },
            None => {},
        }
    }
}

} // verus!
