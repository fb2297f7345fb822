//! Facts about sequences that the loops building lists rely on.
use vstd::prelude::*;
use crate::text::texts;

verus! {

broadcast use vstd::seq_lib::group_seq_properties;

/// Taking one more element appends it.
pub proof fn lemma_take_push<A>(s: Seq<A>, i: int)
    requires
        0 <= i < s.len(),
    ensures
        s.take(i + 1) == s.take(i).push(s[i]),
{
    assert(s.take(i + 1) =~= s.take(i).push(s[i]));
}

/// Filtering one more element keeps it exactly when it passes.
pub proof fn lemma_filter_take<A>(s: Seq<A>, i: int, p: spec_fn(A) -> bool)
    requires
        0 <= i < s.len(),
    ensures
        s.take(i + 1).filter(p) == (if p(s[i]) {
            s.take(i).filter(p).push(s[i])
        } else {
            s.take(i).filter(p)
        }),
{
    lemma_take_push(s, i);
    s.take(i).lemma_filter_push(s[i], p);
}

/// The texts of a list with one more string.
pub proof fn lemma_texts_push(s: Seq<String>, x: String)
    ensures
        texts(s.push(x)) == texts(s).push(x@),
{
    assert(texts(s.push(x)) =~= texts(s).push(x@));
}

/// The whole of a sequence is all of it taken.
pub proof fn lemma_take_all<A>(s: Seq<A>)
    ensures
        s.take(s.len() as int) == s,
{
    assert(s.take(s.len() as int) =~= s);
}


/// What a filter keeps: exactly the elements that pass; and it repeats
/// nothing that the sequence did not repeat.
pub proof fn lemma_filter_members<A>(s: Seq<A>, p: spec_fn(A) -> bool)
    ensures
        forall|x: A| #[trigger] s.filter(p).contains(x) <==> s.contains(x) && p(x),
        s.no_duplicates() ==> s.filter(p).no_duplicates(),
    decreases s.len(),
{
    if s.len() > 0 {
        let init = s.drop_last();
        lemma_filter_members(init, p);
        init.lemma_filter_push(s.last(), p);
        assert(init.push(s.last()) =~= s);
        assert forall|x: A| #[trigger] s.contains(x) <==> init.contains(x) || x == s.last() by {
            if s.contains(x) {
                let i = choose|i: int| 0 <= i < s.len() && s[i] == x;
                if i < s.len() - 1 {
                    assert(init[i] == x);
                }
            }
            if init.contains(x) {
                let i = choose|i: int| 0 <= i < init.len() && init[i] == x;
                assert(s[i] == x);
            }
        }
        if s.no_duplicates() {
            assert(init.no_duplicates()) by {
                assert forall|i: int, j: int| 0 <= i < init.len() && 0 <= j < init.len() && i != j implies init[i]
                    != init[j] by {
                    assert(init[i] == s[i] && init[j] == s[j]);
                }
            }
            assert(!init.contains(s.last())) by {
                if init.contains(s.last()) {
                    let i = choose|i: int| 0 <= i < init.len() && init[i] == s.last();
                    assert(s[i] == s[s.len() - 1]);
                }
            }
            let f = init.filter(p);
            if p(s.last()) {
                assert(!f.contains(s.last()));
                assert(f.push(s.last()).no_duplicates()) by {
                    let g = f.push(s.last());
                    assert forall|i: int, j: int| 0 <= i < g.len() && 0 <= j < g.len() && i != j implies g[i] != g[j] by {
                        if i < f.len() && j < f.len() {
                            assert(g[i] == f[i] && g[j] == f[j]);
                        } else if i < f.len() {
                            assert(g[i] == f[i]);
                            assert(f.contains(f[i]));
                        } else {
                            assert(g[j] == f[j]);
                            assert(f.contains(f[j]));
                        }
                    }
                }
            }
        }
    } else {
        assert(s.filter(p) =~= Seq::<A>::empty());
    }
}


/// How many times a filter keeps `x`: as often as the sequence holds it,
/// when it passes, else never.
pub proof fn lemma_filter_count<A>(s: Seq<A>, p: spec_fn(A) -> bool, x: A)
    ensures
        s.filter(p).to_multiset().count(x) == (if p(x) { s.to_multiset().count(x) } else { 0 }),
    decreases s.len(),
{
    broadcast use vstd::seq_lib::group_to_multiset_ensures;

    if s.len() == 0 {
        assert(s.filter(p) =~= Seq::<A>::empty());
    } else {
        let init = s.drop_last();
        lemma_filter_count(init, p, x);
        init.lemma_filter_push(s.last(), p);
        assert(init.push(s.last()) =~= s);
    }
}

/// Filtering two sequences with the same elements, as often each, keeps the
/// same elements, as often each.
pub proof fn lemma_filter_multiset<A>(a: Seq<A>, b: Seq<A>, p: spec_fn(A) -> bool)
    requires
        a.to_multiset() == b.to_multiset(),
    ensures
        a.filter(p).to_multiset() == b.filter(p).to_multiset(),
{
    assert forall|x: A| a.filter(p).to_multiset().count(x) == b.filter(p).to_multiset().count(x) by {
        lemma_filter_count(a, p, x);
        lemma_filter_count(b, p, x);
    }
    assert(a.filter(p).to_multiset() =~= b.filter(p).to_multiset());
}

} // verus!
