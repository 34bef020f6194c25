//! Stable sorting of the lists the panel shows (projects by name, snapshots
//! newest first, folders by size): each element type says which of two
//! elements goes strictly first, and elements that tie keep their order.

use vstd::prelude::*;

verus! {

/// An order between the elements of a list.
pub trait Ranked: Sized {
    /// `self` goes strictly before `other`.
    spec fn ranks_before(&self, other: &Self) -> bool;

    fn goes_before(&self, other: &Self) -> (r: bool)
        ensures
            r == self.ranks_before(other),
    ;
}

/// `x` put into `s` after every element it does not go strictly before.
pub open spec fn insert_ranked<T: Ranked>(s: Seq<T>, x: T) -> Seq<T>
    decreases s.len(),
{
    if s.len() == 0 {
        seq![x]
    } else if x.ranks_before(&s.last()) {
        insert_ranked(s.drop_last(), x).push(s.last())
    } else {
        s.push(x)
    }
}

/// `s` sorted by insertion, which keeps tied elements in their order.
pub open spec fn sort_ranked<T: Ranked>(s: Seq<T>) -> Seq<T>
    decreases s.len(),
{
    if s.len() == 0 {
        s
    } else {
        insert_ranked(sort_ranked(s.drop_last()), s.last())
    }
}

proof fn lemma_insert_ranked_step<T: Ranked>(s: Seq<T>, x: T, j: int)
    requires
        0 < j <= s.len(),
        x.ranks_before(&s[j - 1]),
    ensures
        insert_ranked(s.take(j), x) + s.skip(j) == insert_ranked(s.take(j - 1), x) + s.skip(j - 1),
{
    let t = s.take(j);
    assert(t.drop_last() =~= s.take(j - 1));
    assert(t.last() == s[j - 1]);
    assert(insert_ranked(t, x) == insert_ranked(s.take(j - 1), x).push(s[j - 1]));
    assert(insert_ranked(s.take(j - 1), x).push(s[j - 1]) + s.skip(j) =~= insert_ranked(
        s.take(j - 1),
        x,
    ) + s.skip(j - 1));
}

pub proof fn lemma_insert_ranked_len<T: Ranked>(s: Seq<T>, x: T)
    ensures
        insert_ranked(s, x).len() == s.len() + 1,
    decreases s.len(),
{
    if s.len() > 0 && x.ranks_before(&s.last()) {
        lemma_insert_ranked_len(s.drop_last(), x);
    }
}

pub proof fn lemma_sort_ranked_len<T: Ranked>(s: Seq<T>)
    ensures
        sort_ranked(s).len() == s.len(),
    decreases s.len(),
{
    if s.len() > 0 {
        lemma_sort_ranked_len(s.drop_last());
        lemma_insert_ranked_len(sort_ranked(s.drop_last()), s.last());
    }
}

/// `insert_ranked` over plain values, with `lt` as the strict order.
pub open spec fn insert_by<V>(s: Seq<V>, x: V, lt: spec_fn(V, V) -> bool) -> Seq<V>
    decreases s.len(),
{
    if s.len() == 0 {
        seq![x]
    } else if lt(x, s.last()) {
        insert_by(s.drop_last(), x, lt).push(s.last())
    } else {
        s.push(x)
    }
}

/// `sort_ranked` over plain values, with `lt` as the strict order.
pub open spec fn sort_by<V>(s: Seq<V>, lt: spec_fn(V, V) -> bool) -> Seq<V>
    decreases s.len(),
{
    if s.len() == 0 {
        s
    } else {
        insert_by(sort_by(s.drop_last(), lt), s.last(), lt)
    }
}

proof fn lemma_insert_map<T: Ranked, V>(s: Seq<T>, x: T, f: spec_fn(T) -> V, lt: spec_fn(V, V) -> bool)
    requires
        forall|a: T, b: T| #[trigger] a.ranks_before(&b) == lt(f(a), f(b)),
    ensures
        insert_ranked(s, x).map_values(f) == insert_by(s.map_values(f), f(x), lt),
    decreases s.len(),
{
    if s.len() == 0 {
        assert(insert_ranked(s, x).map_values(f) =~= seq![f(x)]);
    } else {
        assert(s.map_values(f).drop_last() =~= s.drop_last().map_values(f));
        assert(s.map_values(f).last() == f(s.last()));
        assert(x.ranks_before(&s.last()) == lt(f(x), f(s.last())));
        if x.ranks_before(&s.last()) {
            lemma_insert_map(s.drop_last(), x, f, lt);
            assert(insert_ranked(s.drop_last(), x).push(s.last()).map_values(f) =~= insert_ranked(
                s.drop_last(),
                x,
            ).map_values(f).push(f(s.last())));
        } else {
            assert(s.push(x).map_values(f) =~= s.map_values(f).push(f(x)));
        }
    }
}

/// Sorting and then looking at plain values is sorting the plain values, when
/// the order only depends on them.
pub proof fn lemma_sort_map<T: Ranked, V>(s: Seq<T>, f: spec_fn(T) -> V, lt: spec_fn(V, V) -> bool)
    requires
        forall|a: T, b: T| #[trigger] a.ranks_before(&b) == lt(f(a), f(b)),
    ensures
        sort_ranked(s).map_values(f) == sort_by(s.map_values(f), lt),
    decreases s.len(),
{
    if s.len() == 0 {
        assert(sort_ranked(s).map_values(f) =~= s.map_values(f));
    } else {
        lemma_sort_map(s.drop_last(), f, lt);
        lemma_insert_map(sort_ranked(s.drop_last()), s.last(), f, lt);
        assert(s.map_values(f).drop_last() =~= s.drop_last().map_values(f));
        assert(s.map_values(f).last() == f(s.last()));
    }
}

/// Puts `x` into `out` where `insert_ranked` puts it.
fn insert_into<T: Ranked>(out: &mut Vec<T>, x: T)
    ensures
        final(out)@ == insert_ranked(old(out)@, x),
{
    let ghost s = out@;
    let mut j = out.len();
    proof {
        assert(s.take(j as int) =~= s);
        assert(s.skip(j as int) =~= Seq::<T>::empty());
        assert(insert_ranked(s, x) =~= insert_ranked(s.take(j as int), x) + s.skip(j as int));
    }
    while j > 0 && x.goes_before(&out[j - 1])
        invariant
            j <= out.len(),
            out@ == s,
            insert_ranked(s, x) == insert_ranked(s.take(j as int), x) + s.skip(j as int),
        decreases j,
    {
        proof {
            lemma_insert_ranked_step(s, x, j as int);
        }
        j -= 1;
    }
    proof {
        let t = s.take(j as int);
        if j > 0 {
            assert(t.last() == s[j - 1]);
            assert(insert_ranked(t, x) == t.push(x));
        } else {
            assert(t =~= Seq::<T>::empty());
            assert(insert_ranked(t, x) =~= seq![x]);
        }
        assert(t.push(x) + s.skip(j as int) =~= s.insert(j as int, x));
    }
    out.insert(j, x);
}

/// `v` sorted stably by `Ranked`.
pub fn sort_stable<T: Ranked>(v: Vec<T>) -> (r: Vec<T>)
    ensures
        r@ == sort_ranked(v@),
{
    let ghost all = v@;
    let mut rest = v;
    let mut rev: Vec<T> = Vec::new();
    while rest.len() > 0
        invariant
            all == rest@ + rev@.reverse(),
        decreases rest.len(),
    {
        let ghost before = rest@;
        let ghost before_rev = rev@;
        let x = rest.pop().unwrap();
        rev.push(x);
        assert(rev@.reverse() =~= seq![x] + before_rev.reverse());
        assert(before =~= rest@.push(x));
        assert(all =~= rest@ + rev@.reverse());
    }
    assert(rev@.reverse() =~= all);
    let mut out: Vec<T> = Vec::new();
    assert(all.take(0) =~= Seq::<T>::empty());
    while rev.len() > 0
        invariant
            rev@.reverse() == all.skip(all.len() - rev@.len()),
            rev@.len() <= all.len(),
            out@ == sort_ranked(all.take(all.len() - rev@.len())),
        decreases rev.len(),
    {
        let ghost k = all.len() - rev@.len();
        let ghost before_rev = rev@;
        let x = rev.pop().unwrap();
        proof {
            assert(before_rev.reverse()[0] == x);
            assert(all.skip(k)[0] == all[k]);
            assert(x == all[k]);
            assert(rev@.reverse() =~= before_rev.reverse().skip(1));
            assert(all.skip(k).skip(1) =~= all.skip(k + 1));
            assert(all.take(k + 1).drop_last() =~= all.take(k));
            assert(all.take(k + 1).last() == all[k]);
        }
        insert_into(&mut out, x);
    }
    assert(all.take(all.len() as int) =~= all);
    out
}

/// No element of `s` goes strictly before an earlier one.
pub open spec fn is_ranked<T: Ranked>(s: Seq<T>) -> bool {
    forall|i: int, j: int| #![trigger s[i], s[j]] 0 <= i < j < s.len() ==> !s[j].ranks_before(&s[i])
}

/// The order is a strict weak order: asymmetric, and "does not go before" is
/// transitive.
pub open spec fn weak_order<T: Ranked>() -> bool {
    &&& forall|a: T, b: T| #[trigger] a.ranks_before(&b) ==> !b.ranks_before(&a)
    &&& forall|a: T, b: T, c: T|
        #![trigger a.ranks_before(&b), b.ranks_before(&c)]
        !a.ranks_before(&b) && !b.ranks_before(&c) ==> !a.ranks_before(&c)
}

proof fn lemma_insert_ranked_shape<T: Ranked>(s: Seq<T>, x: T) -> (k: int)
    ensures
        0 <= k <= s.len(),
        insert_ranked(s, x) == s.insert(k, x),
        forall|j: int| k <= j < s.len() ==> x.ranks_before(&#[trigger] s[j]),
        k > 0 ==> !x.ranks_before(&s[k - 1]),
    decreases s.len(),
{
    if s.len() == 0 {
        assert(s.insert(0, x) =~= seq![x]);
        0
    } else if x.ranks_before(&s.last()) {
        let p = s.drop_last();
        let k = lemma_insert_ranked_shape(p, x);
        assert(insert_ranked(s, x) =~= s.insert(k, x)) by {
            assert(s =~= p.push(s.last()));
        }
        assert forall|j: int| k <= j < s.len() implies x.ranks_before(&#[trigger] s[j]) by {
            if j < p.len() {
                assert(s[j] == p[j]);
            }
        }
        if k > 0 {
            assert(s[k - 1] == p[k - 1]);
        }
        k
    } else {
        assert(s.push(x) =~= s.insert(s.len() as int, x));
        s.len() as int
    }
}

proof fn lemma_insert_ranked_sorted<T: Ranked>(s: Seq<T>, x: T)
    requires
        weak_order::<T>(),
        is_ranked(s),
    ensures
        is_ranked(insert_ranked(s, x)),
        insert_ranked(s, x).to_multiset() == s.to_multiset().insert(x),
{
    let k = lemma_insert_ranked_shape(s, x);
    let r = s.insert(k, x);
    assert forall|i: int, j: int| #![trigger r[i], r[j]] 0 <= i < j < r.len() implies !r[j].ranks_before(&r[i]) by {
        if j < k {
            assert(r[i] == s[i] && r[j] == s[j]);
        } else if j == k {
            assert(r[i] == s[i]);
            if i < k - 1 {
                assert(!s[k - 1].ranks_before(&s[i]));
                assert(!x.ranks_before(&s[k - 1]));
            }
        } else if i == k {
            assert(r[j] == s[j - 1]);
            assert(x.ranks_before(&s[j - 1]));
        } else if i < k {
            assert(r[i] == s[i] && r[j] == s[j - 1]);
        } else {
            assert(r[i] == s[i - 1] && r[j] == s[j - 1]);
        }
    }
    vstd::seq_lib::to_multiset_insert(s, k, x);
}

/// Sorting puts the elements in order and keeps them all: what comes out is
/// ordered, and holds each element as many times as what went in.
pub proof fn law_sort_ranked<T: Ranked>(s: Seq<T>)
    requires
        weak_order::<T>(),
    ensures
        is_ranked(sort_ranked(s)),
        sort_ranked(s).to_multiset() == s.to_multiset(),
    decreases s.len(),
{
    if s.len() == 0 {
    } else {
        let p = s.drop_last();
        law_sort_ranked(p);
        lemma_insert_ranked_sorted(sort_ranked(p), s.last());
        assert(s =~= p.push(s.last()));
        vstd::seq_lib::to_multiset_build(p, s.last());
    }
}

} // verus!
