//! The order strings are sorted in (byte-wise, as `str`'s `Ord`), and
//! stable insertion into a sorted sequence.
use vstd::prelude::*;
use vstd::utf8::{decode_utf8, encode_utf8};

verus! {

/// Whether `a` comes strictly before `b` in lexicographic byte order.
pub open spec fn bytes_lt(a: Seq<u8>, b: Seq<u8>) -> bool
    decreases a.len(),
{
    if a.len() == 0 {
        b.len() > 0
    } else if b.len() == 0 {
        false
    } else if a[0] != b[0] {
        a[0] < b[0]
    } else {
        bytes_lt(a.drop_first(), b.drop_first())
    }
}

/// Whether the text `a` sorts strictly before `b`: byte-wise on their UTF-8
/// encodings.
pub open spec fn text_lt(a: Seq<char>, b: Seq<char>) -> bool {
    bytes_lt(encode_utf8(a), encode_utf8(b))
}

proof fn lemma_bytes_lt_skip(a: Seq<u8>, b: Seq<u8>, i: int)
    requires
        0 <= i <= a.len(),
        i <= b.len(),
        a.take(i) =~= b.take(i),
    ensures
        bytes_lt(a, b) == bytes_lt(a.skip(i), b.skip(i)),
    decreases i,
{
    if i > 0 {
        assert(a[0] == a.take(i)[0]);
        assert(b[0] == b.take(i)[0]);
        assert(a.drop_first().take(i - 1) =~= b.drop_first().take(i - 1)) by {
            assert forall|k: int| 0 <= k < i - 1 implies #[trigger] a.drop_first().take(i - 1)[k] == b.drop_first().take(
                i - 1,
            )[k] by {
                assert(a.take(i)[k + 1] == b.take(i)[k + 1]);
            }
        }
        lemma_bytes_lt_skip(a.drop_first(), b.drop_first(), i - 1);
        assert(a.drop_first().skip(i - 1) =~= a.skip(i));
        assert(b.drop_first().skip(i - 1) =~= b.skip(i));
    } else {
        assert(a.skip(0) =~= a);
        assert(b.skip(0) =~= b);
    }
}

/// Whether `a` sorts strictly before `b`, as `a < b` on `str` does.
pub fn text_less(a: &str, b: &str) -> (r: bool)
    ensures
        r == text_lt(a@, b@),
{
    let x = a.as_bytes();
    let y = b.as_bytes();
    let ghost xs = encode_utf8(a@);
    let ghost ys = encode_utf8(b@);
    assert(x@ == xs);
    assert(y@ == ys);
    let mut i: usize = 0;
    while i < x.len() && i < y.len() && x[i] == y[i]
        invariant
            x@ == xs,
            y@ == ys,
            i <= x@.len(),
            i <= y@.len(),
            xs.take(i as int) =~= ys.take(i as int),
        decreases x@.len() - i,
    {
        assert(xs.take(i + 1) =~= xs.take(i as int).push(xs[i as int]));
        assert(ys.take(i + 1) =~= ys.take(i as int).push(ys[i as int]));
        i = i + 1;
    }
    proof {
        lemma_bytes_lt_skip(xs, ys, i as int);
    }
    if i == x.len() {
        i < y.len()
    } else if i == y.len() {
        false
    } else {
        x[i] < y[i]
    }
}

/// `sorted` with `x` inserted before its first element that sorts after `x`
/// (`after(e, x)`), so that `x` follows every element it does not precede.
pub open spec fn insert_sorted<T>(sorted: Seq<T>, x: T, after: spec_fn(T, T) -> bool) -> Seq<T>
    decreases sorted.len(),
{
    if sorted.len() == 0 {
        seq![x]
    } else if after(sorted[0], x) {
        seq![x] + sorted
    } else {
        seq![sorted[0]] + insert_sorted(sorted.drop_first(), x, after)
    }
}

/// The stable sort of `s`: each element inserted, in order, after every
/// element before it that does not sort after it.
pub open spec fn sort_by<T>(s: Seq<T>, after: spec_fn(T, T) -> bool) -> Seq<T>
    decreases s.len(),
{
    if s.len() == 0 {
        seq![]
    } else {
        insert_sorted(sort_by(s.drop_last(), after), s.last(), after)
    }
}

/// Where [`insert_sorted`] puts `x`: before the first element that sorts
/// after it.
pub open spec fn insert_position<T>(sorted: Seq<T>, x: T, after: spec_fn(T, T) -> bool) -> int
    decreases sorted.len(),
{
    if sorted.len() == 0 {
        0
    } else if after(sorted[0], x) {
        0
    } else {
        1 + insert_position(sorted.drop_first(), x, after)
    }
}

/// Inserting puts `x` at its position, the rest unchanged around it.
pub proof fn lemma_insert_sorted<T>(sorted: Seq<T>, x: T, after: spec_fn(T, T) -> bool)
    ensures
        0 <= insert_position(sorted, x, after) <= sorted.len(),
        insert_sorted(sorted, x, after) =~= sorted.take(insert_position(sorted, x, after)).push(x) + sorted.skip(
            insert_position(sorted, x, after),
        ),
        forall|k: int| 0 <= k < insert_position(sorted, x, after) ==> !after(#[trigger] sorted[k], x),
        insert_position(sorted, x, after) < sorted.len() ==> after(sorted[insert_position(sorted, x, after)], x),
    decreases sorted.len(),
{
    if sorted.len() > 0 && !after(sorted[0], x) {
        let rest = sorted.drop_first();
        lemma_insert_sorted(rest, x, after);
        let p = insert_position(rest, x, after);
        assert(sorted.take(p + 1) =~= seq![sorted[0]] + rest.take(p));
        assert(sorted.skip(p + 1) =~= rest.skip(p));
        assert forall|k: int| 0 <= k < p + 1 implies !after(#[trigger] sorted[k], x) by {
            if k > 0 {
                assert(sorted[k] == rest[k - 1]);
            }
        }
    } else if sorted.len() > 0 {
        assert(sorted.take(0) =~= Seq::<T>::empty());
        assert(sorted.skip(0) =~= sorted);
    }
}


/// Whether no element of `s` sorts after one that comes later in `s`.
pub open spec fn sorted_by<T>(s: Seq<T>, after: spec_fn(T, T) -> bool) -> bool {
    forall|i: int, j: int| 0 <= i < j < s.len() ==> !after(#[trigger] s[i], #[trigger] s[j])
}

/// Whether `after` is a strict order: nothing sorts after itself, and it
/// is transitive.
pub open spec fn strict_order<T>(after: spec_fn(T, T) -> bool) -> bool {
    &&& forall|a: T| !#[trigger] after(a, a)
    &&& forall|a: T, b: T, c: T| #[trigger] after(a, b) && #[trigger] after(b, c) ==> after(a, c)
}

/// Whether any two different elements of `s` are ordered one way or the other.
pub open spec fn total_on<T>(s: Seq<T>, after: spec_fn(T, T) -> bool) -> bool {
    forall|a: T, b: T| s.contains(a) && s.contains(b) && a != b ==> #[trigger] after(a, b) || #[trigger] after(b, a)
}

/// Inserting into a sorted sequence keeps it sorted, and adds `x` to its
/// elements.
pub proof fn lemma_insert_sorted_order<T>(sorted: Seq<T>, x: T, after: spec_fn(T, T) -> bool)
    requires
        strict_order(after),
        sorted_by(sorted, after),
    ensures
        sorted_by(insert_sorted(sorted, x, after), after),
        insert_sorted(sorted, x, after).to_multiset() == sorted.to_multiset().insert(x),
{
    broadcast use vstd::seq_lib::group_to_multiset_ensures;

    lemma_insert_sorted(sorted, x, after);
    let p = insert_position(sorted, x, after);
    let r = insert_sorted(sorted, x, after);
    assert(r =~= sorted.insert(p, x));
    assert forall|i: int, j: int| 0 <= i < j < r.len() implies !after(#[trigger] r[i], #[trigger] r[j]) by {
        if j < p {
            assert(r[i] == sorted[i] && r[j] == sorted[j]);
        } else if j == p {
            assert(r[i] == sorted[i] && r[j] == x);
        } else if i < p {
            assert(r[i] == sorted[i] && r[j] == sorted[j - 1]);
        } else if i == p {
            assert(r[i] == x && r[j] == sorted[j - 1]);
            assert(after(sorted[p], x));
            if after(x, sorted[j - 1]) {
                assert(after(sorted[p], sorted[j - 1]));
                if j - 1 > p {
                    assert(!after(sorted[p], sorted[j - 1]));
                }
            }
        } else {
            assert(r[i] == sorted[i - 1] && r[j] == sorted[j - 1]);
        }
    }
}

/// The stable sort of `s` is sorted and holds the elements of `s`.
pub proof fn lemma_sort_by_order<T>(s: Seq<T>, after: spec_fn(T, T) -> bool)
    requires
        strict_order(after),
    ensures
        sorted_by(sort_by(s, after), after),
        sort_by(s, after).to_multiset() == s.to_multiset(),
    decreases s.len(),
{
    broadcast use vstd::seq_lib::group_to_multiset_ensures;

    if s.len() > 0 {
        lemma_sort_by_order(s.drop_last(), after);
        lemma_insert_sorted_order(sort_by(s.drop_last(), after), s.last(), after);
        assert(s.drop_last().push(s.last()) =~= s);
    }
}

/// Two sorted sequences with the same elements, on which the order is
/// total, are the same sequence.
pub proof fn lemma_sorted_unique<T>(a: Seq<T>, b: Seq<T>, after: spec_fn(T, T) -> bool)
    requires
        strict_order(after),
        total_on(a, after),
        sorted_by(a, after),
        sorted_by(b, after),
        a.to_multiset() == b.to_multiset(),
    ensures
        a == b,
    decreases a.len(),
{
    broadcast use vstd::seq_lib::group_to_multiset_ensures;

    a.to_multiset_ensures();
    b.to_multiset_ensures();
    if a.len() == 0 {
        assert(b.len() == 0);
        assert(a =~= b);
    } else {
        assert(b.len() == a.len());
        assert(a.to_multiset().count(b[0]) > 0);
        assert(b.to_multiset().count(a[0]) > 0);
        assert(a.contains(b[0]));
        assert(b.contains(a[0]));
        if a[0] != b[0] {
            let k = choose|k: int| 0 <= k < a.len() && a[k] == b[0];
            let m = choose|m: int| 0 <= m < b.len() && b[m] == a[0];
            assert(a.contains(a[0]));
            if after(a[0], b[0]) {
                assert(k > 0);
                assert(!after(a[0], a[k]));
            } else {
                assert(after(b[0], a[0]));
                assert(m > 0);
                assert(!after(b[0], b[m]));
            }
        }
        assert(a.remove(0) =~= a.drop_first());
        assert(b.remove(0) =~= b.drop_first());
        assert(a.drop_first().to_multiset() == b.drop_first().to_multiset());
        assert forall|x: T, y: T|
            a.drop_first().contains(x) && a.drop_first().contains(y) && x != y implies #[trigger] after(x, y)
                || #[trigger] after(y, x) by {
            let i = choose|i: int| 0 <= i < a.drop_first().len() && a.drop_first()[i] == x;
            let j = choose|j: int| 0 <= j < a.drop_first().len() && a.drop_first()[j] == y;
            assert(a[i + 1] == x && a[j + 1] == y);
            assert(a.contains(x) && a.contains(y));
        }
        assert(sorted_by(a.drop_first(), after)) by {
            assert forall|i: int, j: int| 0 <= i < j < a.drop_first().len() implies !after(
                #[trigger] a.drop_first()[i],
                #[trigger] a.drop_first()[j],
            ) by {
                assert(a[i + 1] == a.drop_first()[i] && a[j + 1] == a.drop_first()[j]);
            }
        }
        assert(sorted_by(b.drop_first(), after)) by {
            assert forall|i: int, j: int| 0 <= i < j < b.drop_first().len() implies !after(
                #[trigger] b.drop_first()[i],
                #[trigger] b.drop_first()[j],
            ) by {
                assert(b[i + 1] == b.drop_first()[i] && b[j + 1] == b.drop_first()[j]);
            }
        }
        lemma_sorted_unique(a.drop_first(), b.drop_first(), after);
        assert(a =~= b) by {
            assert forall|i: int| 0 <= i < a.len() implies a[i] == b[i] by {
                if i > 0 {
                    assert(a[i] == a.drop_first()[i - 1]);
                    assert(b[i] == b.drop_first()[i - 1]);
                }
            }
        }
    }
}

/// Byte order is a strict order: no sequence sorts before itself, and it is
/// transitive.
pub proof fn lemma_bytes_lt_strict(a: Seq<u8>, b: Seq<u8>, c: Seq<u8>)
    ensures
        !bytes_lt(a, a),
        bytes_lt(a, b) && bytes_lt(b, c) ==> bytes_lt(a, c),
    decreases a.len(),
{
    if a.len() > 0 {
        if b.len() > 0 && c.len() > 0 {
            lemma_bytes_lt_strict(a.drop_first(), b.drop_first(), c.drop_first());
        }
        lemma_bytes_lt_strict(a.drop_first(), a.drop_first(), a.drop_first());
    }
}

/// Byte order is total: of two different sequences, one sorts first.
pub proof fn lemma_bytes_lt_total(a: Seq<u8>, b: Seq<u8>)
    requires
        a != b,
    ensures
        bytes_lt(a, b) || bytes_lt(b, a),
    decreases a.len(),
{
    if a.len() == 0 {
        assert(b.len() > 0) by {
            if b.len() == 0 {
                assert(a =~= b);
            }
        }
    } else if b.len() > 0 && a[0] == b[0] {
        if a.drop_first() == b.drop_first() {
            assert(a.drop_first().len() == a.len() - 1);
            assert(b.drop_first().len() == b.len() - 1);
            assert(a.len() == b.len());
            assert(a =~= b) by {
                assert forall|i: int| 0 <= i < a.len() implies a[i] == b[i] by {
                    if i > 0 {
                        assert(a[i] == a.drop_first()[i - 1]);
                        assert(b[i] == b.drop_first()[i - 1]);
                    }
                }
            }
        }
        lemma_bytes_lt_total(a.drop_first(), b.drop_first());
    }
}

/// Texts sort by a strict order, total on texts that differ.
pub proof fn lemma_text_lt_order()
    ensures
        strict_order(|e: Seq<char>, x: Seq<char>| text_lt(x, e)),
        forall|a: Seq<char>, b: Seq<char>| a != b ==> #[trigger] text_lt(a, b) || #[trigger] text_lt(b, a),
{
    broadcast use vstd::utf8::encode_utf8_decode_utf8;

    let after = |e: Seq<char>, x: Seq<char>| text_lt(x, e);
    assert forall|a: Seq<char>| !#[trigger] after(a, a) by {
        lemma_bytes_lt_strict(encode_utf8(a), encode_utf8(a), encode_utf8(a));
    }
    assert forall|a: Seq<char>, b: Seq<char>, c: Seq<char>| #[trigger] after(a, b) && #[trigger] after(b, c) implies after(
        a,
        c,
    ) by {
        lemma_bytes_lt_strict(encode_utf8(c), encode_utf8(b), encode_utf8(a));
    }
    assert forall|a: Seq<char>, b: Seq<char>| a != b implies #[trigger] text_lt(a, b) || #[trigger] text_lt(b, a) by {
        assert(decode_utf8(encode_utf8(a)) == a);
        assert(decode_utf8(encode_utf8(b)) == b);
        lemma_bytes_lt_total(encode_utf8(a), encode_utf8(b));
    }
}


/// Sorting keeps exactly the elements of `s`, and repeats none that `s`
/// did not repeat.
pub proof fn lemma_sort_by_members<T>(s: Seq<T>, after: spec_fn(T, T) -> bool)
    requires
        strict_order(after),
    ensures
        forall|x: T| #[trigger] sort_by(s, after).contains(x) <==> s.contains(x),
        s.no_duplicates() ==> sort_by(s, after).no_duplicates(),
    decreases s.len(),
{
    broadcast use vstd::seq_lib::group_to_multiset_ensures;

    lemma_sort_by_order(s, after);
    assert forall|x: T| #[trigger] sort_by(s, after).contains(x) <==> s.contains(x) by {
        assert(sort_by(s, after).to_multiset().count(x) == s.to_multiset().count(x));
    }
    if s.len() > 0 && s.no_duplicates() {
        let init = s.drop_last();
        let x = s.last();
        lemma_sort_by_members(init, after);
        assert(init.no_duplicates()) by {
            assert forall|i: int, j: int| 0 <= i < init.len() && 0 <= j < init.len() && i != j implies init[i]
                != init[j] by {
                assert(init[i] == s[i] && init[j] == s[j]);
            }
        }
        assert(!init.contains(x)) by {
            if init.contains(x) {
                let i = choose|i: int| 0 <= i < init.len() && init[i] == x;
                assert(s[i] == s[s.len() - 1]);
            }
        }
        let sorted = sort_by(init, after);
        assert(!sorted.contains(x));
        lemma_insert_sorted(sorted, x, after);
        let p = insert_position(sorted, x, after);
        let r = insert_sorted(sorted, x, after);
        assert(r =~= sort_by(s, after));
        assert forall|i: int, j: int| 0 <= i < r.len() && 0 <= j < r.len() && i != j implies r[i] != r[j] by {
            let si = if i < p { i } else { i - 1 };
            let sj = if j < p { j } else { j - 1 };
            if i != p && j != p {
                assert(r[i] == sorted[si] && r[j] == sorted[sj]);
            } else if i == p {
                assert(r[i] == x && r[j] == sorted[sj]);
                assert(sorted.contains(sorted[sj]));
            } else {
                assert(r[j] == x && r[i] == sorted[si]);
                assert(sorted.contains(sorted[si]));
            }
        }
    }
}

/// Two sorted sequences without repeats, with the same elements, on which
/// the order is total, are the same sequence.
pub proof fn lemma_sorted_set_unique<T>(a: Seq<T>, b: Seq<T>, after: spec_fn(T, T) -> bool)
    requires
        strict_order(after),
        total_on(a, after),
        sorted_by(a, after),
        sorted_by(b, after),
        a.no_duplicates(),
        b.no_duplicates(),
        forall|x: T| a.contains(x) <==> b.contains(x),
    ensures
        a == b,
    decreases a.len(),
{
    if a.len() == 0 {
        if b.len() > 0 {
            assert(b.contains(b[0]));
        }
        assert(a =~= b);
    } else {
        assert(a.contains(a[0]));
        assert(b.len() > 0);
        assert(b.contains(b[0]));
        if a[0] != b[0] {
            let k = choose|k: int| 0 <= k < a.len() && a[k] == b[0];
            let m = choose|m: int| 0 <= m < b.len() && b[m] == a[0];
            if after(a[0], b[0]) {
                assert(!after(a[0], a[k]));
            } else {
                assert(after(b[0], a[0]));
                assert(!after(b[0], b[m]));
            }
        }
        let ra = a.drop_first();
        let rb = b.drop_first();
        assert forall|x: T| ra.contains(x) <==> a.contains(x) && x != a[0] by {
            if ra.contains(x) {
                let i = choose|i: int| 0 <= i < ra.len() && ra[i] == x;
                assert(a[i + 1] == x);
            }
            if a.contains(x) && x != a[0] {
                let i = choose|i: int| 0 <= i < a.len() && a[i] == x;
                assert(ra[i - 1] == x);
            }
        }
        assert forall|x: T| rb.contains(x) <==> b.contains(x) && x != b[0] by {
            if rb.contains(x) {
                let i = choose|i: int| 0 <= i < rb.len() && rb[i] == x;
                assert(b[i + 1] == x);
            }
            if b.contains(x) && x != b[0] {
                let i = choose|i: int| 0 <= i < b.len() && b[i] == x;
                assert(rb[i - 1] == x);
            }
        }
        assert(!ra.contains(a[0])) by {
            if ra.contains(a[0]) {
                let i = choose|i: int| 0 <= i < ra.len() && ra[i] == a[0];
                assert(a[i + 1] == a[0]);
            }
        }
        assert(!rb.contains(b[0])) by {
            if rb.contains(b[0]) {
                let i = choose|i: int| 0 <= i < rb.len() && rb[i] == b[0];
                assert(b[i + 1] == b[0]);
            }
        }
        assert forall|x: T, y: T| ra.contains(x) && ra.contains(y) && x != y implies #[trigger] after(x, y)
            || #[trigger] after(y, x) by {
            assert(a.contains(x) && a.contains(y));
        }
        assert(sorted_by(ra, after)) by {
            assert forall|i: int, j: int| 0 <= i < j < ra.len() implies !after(#[trigger] ra[i], #[trigger] ra[j]) by {
                assert(a[i + 1] == ra[i] && a[j + 1] == ra[j]);
            }
        }
        assert(sorted_by(rb, after)) by {
            assert forall|i: int, j: int| 0 <= i < j < rb.len() implies !after(#[trigger] rb[i], #[trigger] rb[j]) by {
                assert(b[i + 1] == rb[i] && b[j + 1] == rb[j]);
            }
        }
        assert(ra.no_duplicates()) by {
            assert forall|i: int, j: int| 0 <= i < ra.len() && 0 <= j < ra.len() && i != j implies ra[i] != ra[j] by {
                assert(a[i + 1] == ra[i] && a[j + 1] == ra[j]);
            }
        }
        assert(rb.no_duplicates()) by {
            assert forall|i: int, j: int| 0 <= i < rb.len() && 0 <= j < rb.len() && i != j implies rb[i] != rb[j] by {
                assert(b[i + 1] == rb[i] && b[j + 1] == rb[j]);
            }
        }
        lemma_sorted_set_unique(ra, rb, after);
        assert(a =~= b) by {
            assert(a.len() == ra.len() + 1 && b.len() == rb.len() + 1);
            assert forall|i: int| 0 <= i < a.len() implies a[i] == b[i] by {
                if i > 0 {
                    assert(a[i] == ra[i - 1]);
                    assert(b[i] == rb[i - 1]);
                }
            }
        }
    }
}

} // verus!
