//! The ordered view of a bucket: byte-lexicographic key order, and the entry
//! sequences that cursors walk.

use vstd::prelude::*;

verus! {

/// Strict lexicographic order over byte sequences: `a` comes before `b`.
/// This is the key order of the storage engine's default comparator.
pub open spec fn lex_lt(a: Seq<u8>, b: Seq<u8>) -> bool
    decreases a.len(),
{
    if b.len() == 0 {
        false
    } else if a.len() == 0 {
        true
    } else if a[0] < b[0] {
        true
    } else if a[0] > b[0] {
        false
    } else {
        lex_lt(a.skip(1), b.skip(1))
    }
}

/// The keys of an entry sequence are strictly ascending in `lex_lt`.
pub open spec fn entries_sorted(s: Seq<(Seq<u8>, Seq<u8>)>) -> bool {
    forall|i: int, j: int|
        0 <= i < j < s.len() ==> lex_lt((#[trigger] s[i]).0, (#[trigger] s[j]).0)
}

/// The index of the entry holding key `k`, or `-1` if no entry does.
pub open spec fn index_of_key(s: Seq<(Seq<u8>, Seq<u8>)>, k: Seq<u8>) -> int
    decreases s.len(),
{
    if s.len() == 0 {
        -1
    } else if s[0].0 == k {
        0
    } else if index_of_key(s.skip(1), k) < 0 {
        -1
    } else {
        index_of_key(s.skip(1), k) + 1
    }
}

/// `s` is exactly the content of bucket `d` in store `m`, as a sequence of
/// key/value entries in ascending key order.
pub open spec fn entries_of_bucket(
    s: Seq<(Seq<u8>, Seq<u8>)>,
    m: Map<(int, Seq<u8>), Seq<u8>>,
    d: int,
) -> bool {
    &&& entries_sorted(s)
    &&& forall|i: int| 0 <= i < s.len() ==> m.contains_pair((d, (#[trigger] s[i]).0), s[i].1)
    &&& forall|k: Seq<u8>|
        m.contains_key((d, k)) ==> exists|i: int| 0 <= i < s.len() && (#[trigger] s[i]).0 == k
}

/// `s` with `(k, v)` entered at its place in key order: an existing entry
/// for `k` is replaced, otherwise the new entry is inserted before the first
/// larger key.
pub open spec fn entry_insert(
    s: Seq<(Seq<u8>, Seq<u8>)>,
    k: Seq<u8>,
    v: Seq<u8>,
) -> Seq<(Seq<u8>, Seq<u8>)>
    decreases s.len(),
{
    if s.len() == 0 {
        seq![(k, v)]
    } else if lex_lt(k, s[0].0) {
        seq![(k, v)] + s
    } else if k == s[0].0 {
        seq![(k, v)] + s.skip(1)
    } else {
        seq![s[0]] + entry_insert(s.skip(1), k, v)
    }
}

/// The meaning of `index_of_key`: a non-negative result is the position of
/// the entry with key `k`, and `-1` means no entry has that key.
pub proof fn lemma_index_of_key(s: Seq<(Seq<u8>, Seq<u8>)>, k: Seq<u8>)
    ensures
        index_of_key(s, k) >= 0 ==> 0 <= index_of_key(s, k) < s.len() && s[index_of_key(s, k)].0
            == k,
        index_of_key(s, k) == -1 ==> forall|q: int| 0 <= q < s.len() ==> (#[trigger] s[q]).0 != k,
    decreases s.len(),
{
    if s.len() > 0 && s[0].0 != k {
        lemma_index_of_key(s.skip(1), k);
        assert forall|q: int|
            index_of_key(s, k) == -1 && 0 <= q < s.len() implies (#[trigger] s[q]).0 != k by {
            if q > 0 {
                assert(s.skip(1)[q - 1] == s[q]);
            }
        }
    }
}

/// `lex_lt` is irreflexive: no key comes before itself.
pub proof fn lemma_lex_lt_irrefl(a: Seq<u8>)
    ensures
        !lex_lt(a, a),
    decreases a.len(),
{
    if a.len() > 0 {
        lemma_lex_lt_irrefl(a.skip(1));
    }
}

/// `lex_lt` separates: a key that comes before another is not that key.
pub proof fn lemma_lex_lt_neq(a: Seq<u8>, b: Seq<u8>)
    requires
        lex_lt(a, b),
    ensures
        a != b,
{
    if a == b {
        lemma_lex_lt_irrefl(a);
    }
}

/// `lex_lt` is transitive.
pub proof fn lemma_lex_lt_trans(a: Seq<u8>, b: Seq<u8>, c: Seq<u8>)
    requires
        lex_lt(a, b),
        lex_lt(b, c),
    ensures
        lex_lt(a, c),
    decreases a.len(),
{
    if a.len() > 0 && b.len() > 0 && c.len() > 0 && a[0] == b[0] && b[0] == c[0] {
        lemma_lex_lt_trans(a.skip(1), b.skip(1), c.skip(1));
    }
}

/// `lex_lt` is total: two keys are ordered one way or the other, or equal.
pub proof fn lemma_lex_lt_total(a: Seq<u8>, b: Seq<u8>)
    ensures
        lex_lt(a, b) || lex_lt(b, a) || a == b,
    decreases a.len(),
{
    if a.len() == 0 && b.len() == 0 {
        assert(a =~= b);
    } else if a.len() > 0 && b.len() > 0 && a[0] == b[0] {
        lemma_lex_lt_total(a.skip(1), b.skip(1));
        if !lex_lt(a, b) && !lex_lt(b, a) {
            assert(a.skip(1) == b.skip(1));
            assert forall|i: int| 0 <= i < a.len() implies a[i] == b[i] by {
                if i > 0 {
                    assert(a.skip(1)[i - 1] == a[i]);
                    assert(b.skip(1)[i - 1] == b[i]);
                }
            }
            assert(a =~= b);
        }
    }
}

/// Law: cursor iteration yields keys in strictly ascending byte order; read
/// backwards, the same sequence is strictly descending. Any two positions of
/// a well-formed entry sequence are ordered by `lex_lt`.
pub proof fn lemma_iteration_ascending(s: Seq<(Seq<u8>, Seq<u8>)>, i: int, j: int)
    requires
        entries_sorted(s),
        0 <= i < j < s.len(),
    ensures
        lex_lt(s[i].0, s[j].0),
{
}

/// Law: deleting the entry at position `p` removes exactly that entry. Every
/// entry before `p` keeps its place, every entry after `p` moves down by one,
/// and no entry with the deleted key remains.
pub proof fn lemma_delete_at_removes_exactly(s: Seq<(Seq<u8>, Seq<u8>)>, p: int)
    requires
        entries_sorted(s),
        0 <= p < s.len(),
    ensures
        s.remove(p).len() == s.len() - 1,
        forall|q: int| 0 <= q < p ==> s.remove(p)[q] == s[q],
        forall|q: int| p <= q < s.len() - 1 ==> s.remove(p)[q] == s[q + 1],
        forall|q: int| 0 <= q < s.len() - 1 ==> (#[trigger] s.remove(p)[q]).0 != s[p].0,
{
    assert forall|q: int| 0 <= q < s.len() - 1 implies (#[trigger] s.remove(p)[q]).0 != s[p].0 by {
        if q < p {
            if s[q].0 == s[p].0 {
                lemma_lex_lt_irrefl(s[p].0);
            }
        } else {
            if s[q + 1].0 == s[p].0 {
                lemma_lex_lt_irrefl(s[p].0);
            }
        }
    }
}

/// Law: entering a pair acts on a well-formed entry sequence as a map
/// insert: the result is still in ascending key order, and holds exactly the
/// entered pair together with every entry whose key differs from it.
pub proof fn lemma_entry_insert(s: Seq<(Seq<u8>, Seq<u8>)>, k: Seq<u8>, v: Seq<u8>)
    requires
        entries_sorted(s),
    ensures
        entries_sorted(entry_insert(s, k, v)),
        forall|e: (Seq<u8>, Seq<u8>)|
            #[trigger] entry_insert(s, k, v).contains(e) <==> (e == (k, v) || (s.contains(e)
                && e.0 != k)),
    decreases s.len(),
{
    let r = entry_insert(s, k, v);
    if s.len() == 0 {
        assert(r[0] == (k, v));
        assert forall|e: (Seq<u8>, Seq<u8>)|
            #[trigger] r.contains(e) <==> (e == (k, v) || (s.contains(e) && e.0 != k)) by {
            if r.contains(e) {
                let i = choose|i: int| 0 <= i < r.len() && r[i] == e;
                assert(e == (k, v));
            }
            if e == (k, v) {
                assert(r[0] == e);
            }
        }
    } else if lex_lt(k, s[0].0) {
        // r == seq![(k, v)] + s
        assert forall|i: int, j: int|
            0 <= i < j < r.len() implies lex_lt((#[trigger] r[i]).0, (#[trigger] r[j]).0) by {
            if i == 0 {
                assert(r[j] == s[j - 1]);
                if j > 1 {
                    lemma_lex_lt_trans(k, s[0].0, s[j - 1].0);
                }
            } else {
                assert(r[i] == s[i - 1]);
                assert(r[j] == s[j - 1]);
            }
        }
        assert forall|e: (Seq<u8>, Seq<u8>)|
            #[trigger] r.contains(e) <==> (e == (k, v) || (s.contains(e) && e.0 != k)) by {
            if r.contains(e) {
                let i = choose|i: int| 0 <= i < r.len() && r[i] == e;
                if i > 0 {
                    assert(s[i - 1] == e);
                    if i == 1 {
                        lemma_lex_lt_neq(k, e.0);
                    } else {
                        lemma_lex_lt_trans(k, s[0].0, e.0);
                        lemma_lex_lt_neq(k, e.0);
                    }
                }
            }
            if e == (k, v) {
                assert(r[0] == e);
            }
            if s.contains(e) && e.0 != k {
                let i = choose|i: int| 0 <= i < s.len() && s[i] == e;
                assert(r[i + 1] == e);
            }
        }
    } else if k == s[0].0 {
        // r == seq![(k, v)] + s.skip(1)
        assert forall|i: int, j: int|
            0 <= i < j < r.len() implies lex_lt((#[trigger] r[i]).0, (#[trigger] r[j]).0) by {
            if i == 0 {
                assert(r[j] == s[j]);
            } else {
                assert(r[i] == s[i]);
                assert(r[j] == s[j]);
            }
        }
        assert forall|e: (Seq<u8>, Seq<u8>)|
            #[trigger] r.contains(e) <==> (e == (k, v) || (s.contains(e) && e.0 != k)) by {
            if r.contains(e) {
                let i = choose|i: int| 0 <= i < r.len() && r[i] == e;
                if i > 0 {
                    assert(s[i] == e);
                    lemma_lex_lt_neq(k, e.0);
                }
            }
            if e == (k, v) {
                assert(r[0] == e);
            }
            if s.contains(e) && e.0 != k {
                let i = choose|i: int| 0 <= i < s.len() && s[i] == e;
                assert(i > 0);
                assert(r[i] == e);
            }
        }
    } else {
        // The head's key comes first: r == seq![s[0]] + entry_insert(s.skip(1), k, v)
        lemma_lex_lt_total(k, s[0].0);
        assert(lex_lt(s[0].0, k));
        assert(entries_sorted(s.skip(1))) by {
            assert forall|i: int, j: int|
                0 <= i < j < s.skip(1).len() implies lex_lt(
                (#[trigger] s.skip(1)[i]).0,
                (#[trigger] s.skip(1)[j]).0,
            ) by {
                assert(s.skip(1)[i] == s[i + 1]);
                assert(s.skip(1)[j] == s[j + 1]);
            }
        }
        lemma_entry_insert(s.skip(1), k, v);
        let t = entry_insert(s.skip(1), k, v);
        assert forall|i: int, j: int|
            0 <= i < j < r.len() implies lex_lt((#[trigger] r[i]).0, (#[trigger] r[j]).0) by {
            if i == 0 {
                assert(r[j] == t[j - 1]);
                assert(t.contains(t[j - 1]));
                if t[j - 1] == (k, v) {
                } else {
                    let q = choose|q: int| 0 <= q < s.skip(1).len() && s.skip(1)[q] == t[j - 1];
                    assert(s[q + 1] == t[j - 1]);
                }
            } else {
                assert(r[i] == t[i - 1]);
                assert(r[j] == t[j - 1]);
            }
        }
        assert forall|e: (Seq<u8>, Seq<u8>)|
            #[trigger] r.contains(e) <==> (e == (k, v) || (s.contains(e) && e.0 != k)) by {
            if r.contains(e) {
                let i = choose|i: int| 0 <= i < r.len() && r[i] == e;
                if i == 0 {
                    assert(e == s[0]);
                    lemma_lex_lt_neq(s[0].0, k);
                } else {
                    assert(t[i - 1] == e);
                    assert(t.contains(e));
                    if e != (k, v) {
                        let q = choose|q: int|
                            0 <= q < s.skip(1).len() && s.skip(1)[q] == e;
                        assert(s[q + 1] == e);
                    }
                }
            }
            if e == (k, v) {
                assert(t.contains(e));
                let q = choose|q: int| 0 <= q < t.len() && t[q] == e;
                assert(r[q + 1] == e);
            }
            if s.contains(e) && e.0 != k {
                let i = choose|i: int| 0 <= i < s.len() && s[i] == e;
                if i == 0 {
                    assert(r[0] == e);
                } else {
                    assert(s.skip(1)[i - 1] == e);
                    assert(s.skip(1).contains(e));
                    assert(t.contains(e));
                    let q = choose|q: int| 0 <= q < t.len() && t[q] == e;
                    assert(r[q + 1] == e);
                }
            }
        }
    }
}

} // verus!
