//! The canonical check-string of a set of `key=value` fields: entries sorted by
//! key (byte-wise, on the UTF-8 encoding) and joined with single newlines.
use vstd::prelude::*;
use vstd::string::*;
use vstd::utf8::*;

verus! {

/// A field of the check-string, as the pair of its key and its value.
pub type Entry = (Seq<char>, Seq<char>);

/// Byte-wise lexicographic order: `a` sorts strictly before `b`.
pub open spec fn bytes_lt(a: Seq<u8>, b: Seq<u8>) -> bool
    decreases a.len(),
{
    if a.len() == 0 {
        b.len() > 0
    } else if b.len() == 0 {
        false
    } else if a[0] != b[0] {
        a[0] < b[0]
    } else {
        bytes_lt(a.drop_first(), b.drop_first())
    }
}

/// Key order: the byte-wise order of the keys' UTF-8 encodings.
pub open spec fn key_lt(a: Seq<char>, b: Seq<char>) -> bool {
    bytes_lt(encode_utf8(a), encode_utf8(b))
}

pub open spec fn strictly_sorted(s: Seq<Entry>) -> bool {
    forall|i: int, j: int| 0 <= i < j < s.len() ==> key_lt(#[trigger] s[i].0, #[trigger] s[j].0)
}

pub open spec fn keys_distinct(s: Seq<Entry>) -> bool {
    forall|i: int, j: int| 0 <= i < j < s.len() ==> #[trigger] s[i].0 != #[trigger] s[j].0
}

/// `s` and `t` hold the same entries, in whatever order.
pub open spec fn same_entries(s: Seq<Entry>, t: Seq<Entry>) -> bool {
    forall|e: Entry| s.contains(e) <==> t.contains(e)
}

/// The entries of the set `x`, sorted by key.
pub open spec fn sorted_entries(x: Set<Entry>) -> Seq<Entry> {
    choose|s: Seq<Entry>| strictly_sorted(s) && s.to_set() == x
}

pub open spec fn entry_text(e: Entry) -> Seq<char> {
    e.0 + seq!['='] + e.1
}

/// The entries' `key=value` texts, separated by single newlines, none trailing.
pub open spec fn join_entries(s: Seq<Entry>) -> Seq<char>
    decreases s.len(),
{
    if s.len() == 0 {
        Seq::empty()
    } else if s.len() == 1 {
        entry_text(s[0])
    } else {
        join_entries(s.drop_last()) + seq!['\n'] + entry_text(s.last())
    }
}

/// The canonical check-string of the fields `f`.
pub open spec fn canonical(f: Seq<Entry>) -> Seq<char> {
    join_entries(sorted_entries(f.to_set()))
}

pub open spec fn fields_view(v: Seq<(String, String)>) -> Seq<Entry> {
    v.map_values(|p: (String, String)| (p.0@, p.1@))
}

pub proof fn lemma_bytes_lt_irreflexive(a: Seq<u8>)
    ensures
        !bytes_lt(a, a),
    decreases a.len(),
{
    if a.len() > 0 {
        lemma_bytes_lt_irreflexive(a.drop_first());
    }
}

pub proof fn lemma_bytes_lt_transitive(a: Seq<u8>, b: Seq<u8>, c: Seq<u8>)
    requires
        bytes_lt(a, b),
        bytes_lt(b, c),
    ensures
        bytes_lt(a, c),
    decreases a.len(),
{
    if a.len() > 0 && b.len() > 0 && c.len() > 0 && a[0] == b[0] && b[0] == c[0] {
        lemma_bytes_lt_transitive(a.drop_first(), b.drop_first(), c.drop_first());
    }
}

pub proof fn lemma_bytes_lt_total(a: Seq<u8>, b: Seq<u8>)
    requires
        a != b,
    ensures
        bytes_lt(a, b) || bytes_lt(b, a),
    decreases a.len(),
{
    if a.len() > 0 && b.len() > 0 && a[0] == b[0] {
        if a.drop_first() == b.drop_first() {
            assert(a.drop_first().len() == b.drop_first().len());
            assert forall|i: int| 0 <= i < a.len() implies a[i] == b[i] by {
                if i > 0 {
                    assert(a[i] == a.drop_first()[i - 1]);
                    assert(b[i] == b.drop_first()[i - 1]);
                }
            }
            assert(a =~= b);
        }
        lemma_bytes_lt_total(a.drop_first(), b.drop_first());
        assert(bytes_lt(a, b) == bytes_lt(a.drop_first(), b.drop_first()));
        assert(bytes_lt(b, a) == bytes_lt(b.drop_first(), a.drop_first()));
    } else if a.len() == 0 {
        assert(b.len() > 0) by {
            if b.len() == 0 {
                assert(a =~= b);
            }
        }
    }
}

pub proof fn lemma_key_lt_total(a: Seq<char>, b: Seq<char>)
    requires
        a != b,
    ensures
        key_lt(a, b) || key_lt(b, a),
{
    encode_utf8_decode_utf8(a);
    encode_utf8_decode_utf8(b);
    lemma_bytes_lt_total(encode_utf8(a), encode_utf8(b));
}

/// Two key-sorted sequences with the same entries are the same sequence.
pub proof fn lemma_sorted_unique(s: Seq<Entry>, t: Seq<Entry>)
    requires
        strictly_sorted(s),
        strictly_sorted(t),
        same_entries(s, t),
    ensures
        s == t,
    decreases s.len(),
{
    if s.len() == 0 {
        if t.len() > 0 {
            assert(t.contains(t[0]));
        }
        assert(s =~= t);
    } else if t.len() == 0 {
        assert(s.contains(s[0]));
    } else {
        let x = s[0];
        let y = t[0];
        assert(s.contains(x));
        assert(t.contains(y));
        let j = choose|j: int| 0 <= j < t.len() && t[j] == x;
        let i = choose|i: int| 0 <= i < s.len() && s[i] == y;
        if j > 0 && i > 0 {
            assert(key_lt(y.0, x.0));
            assert(key_lt(x.0, y.0));
            lemma_bytes_lt_transitive(encode_utf8(x.0), encode_utf8(y.0), encode_utf8(x.0));
            lemma_bytes_lt_irreflexive(encode_utf8(x.0));
        }
        assert(x == y);
        let s1 = s.drop_first();
        let t1 = t.drop_first();
        assert forall|e: Entry| s1.contains(e) implies t1.contains(e) by {
            let k = choose|k: int| 0 <= k < s1.len() && s1[k] == e;
            assert(s[k + 1] == e);
            assert(key_lt(s[0].0, s[k + 1].0));
            lemma_bytes_lt_irreflexive(encode_utf8(e.0));
            assert(s.contains(e));
            let m = choose|m: int| 0 <= m < t.len() && t[m] == e;
            assert(m != 0);
            assert(t1[m - 1] == e);
        }
        assert forall|e: Entry| t1.contains(e) implies s1.contains(e) by {
            let k = choose|k: int| 0 <= k < t1.len() && t1[k] == e;
            assert(t[k + 1] == e);
            assert(key_lt(t[0].0, t[k + 1].0));
            lemma_bytes_lt_irreflexive(encode_utf8(e.0));
            assert(t.contains(e));
            let m = choose|m: int| 0 <= m < s.len() && s[m] == e;
            assert(m != 0);
            assert(s1[m - 1] == e);
        }
        assert(strictly_sorted(s1)) by {
            assert forall|a: int, b: int| 0 <= a < b < s1.len() implies key_lt(
                #[trigger] s1[a].0,
                #[trigger] s1[b].0,
            ) by {
                assert(s1[a] == s[a + 1]);
                assert(s1[b] == s[b + 1]);
            }
        }
        assert(strictly_sorted(t1)) by {
            assert forall|a: int, b: int| 0 <= a < b < t1.len() implies key_lt(
                #[trigger] t1[a].0,
                #[trigger] t1[b].0,
            ) by {
                assert(t1[a] == t[a + 1]);
                assert(t1[b] == t[b + 1]);
            }
        }
        lemma_sorted_unique(s1, t1);
        assert(s =~= t) by {
            assert forall|k: int| 0 <= k < s.len() implies s[k] == t[k] by {
                if k > 0 {
                    assert(s[k] == s1[k - 1]);
                    assert(t[k] == t1[k - 1]);
                }
            }
        }
    }
}

/// Any key-sorted arrangement of `f`'s entries is the one the check-string is made of.
pub proof fn lemma_sorted_entries_is(f: Seq<Entry>, s: Seq<Entry>)
    requires
        strictly_sorted(s),
        same_entries(s, f),
    ensures
        sorted_entries(f.to_set()) == s,
{
    assert(s.to_set() =~= f.to_set());
    let c = sorted_entries(f.to_set());
    assert(strictly_sorted(c) && c.to_set() == f.to_set());
    assert(same_entries(c, s)) by {
        assert forall|e: Entry| c.contains(e) <==> s.contains(e) by {
            assert(c.to_set().contains(e) == c.contains(e));
            assert(s.to_set().contains(e) == s.contains(e));
        }
    }
    lemma_sorted_unique(c, s);
}

/// The check-string does not depend on the order in which the fields are supplied:
/// any permutation of the fields gives the same canonical text.
pub proof fn lemma_canonical_order_independent(f: Seq<Entry>, g: Seq<Entry>)
    requires
        f.to_multiset() == g.to_multiset(),
    ensures
        canonical(f) == canonical(g),
{
    assert forall|e: Entry| f.contains(e) <==> g.contains(e) by {
        vstd::seq_lib::to_multiset_contains(f, e);
        vstd::seq_lib::to_multiset_contains(g, e);
    }
    assert(f.to_set() =~= g.to_set());
}

/// Whether key `a` sorts strictly before key `b`.
pub fn key_less(a: &String, b: &String) -> (r: bool)
    ensures
        r == key_lt(a@, b@),
{
    let x = a.as_str().as_bytes();
    let y = b.as_str().as_bytes();
    let mut i: usize = 0;
    assert(x@.skip(0) =~= x@);
    assert(y@.skip(0) =~= y@);
    while i < x.len() && i < y.len()
        invariant
            i <= x@.len(),
            i <= y@.len(),
            x@ == encode_utf8(a@),
            y@ == encode_utf8(b@),
            bytes_lt(x@, y@) == bytes_lt(x@.skip(i as int), y@.skip(i as int)),
        decreases x@.len() - i,
    {
        if x[i] != y[i] {
            assert(x@.skip(i as int)[0] == x@[i as int]);
            assert(y@.skip(i as int)[0] == y@[i as int]);
            return x[i] < y[i];
        }
        assert(x@.skip(i as int).drop_first() =~= x@.skip(i + 1));
        assert(y@.skip(i as int).drop_first() =~= y@.skip(i + 1));
        i += 1;
    }
    i == x.len() && i < y.len()
}

/// Position `j` occurs in `order`.
pub open spec fn placed(order: Seq<usize>, j: int) -> bool {
    exists|k: int| 0 <= k < order.len() && order[k] == j
}

/// The positions of `fields`, ordered so that their keys ascend.
fn key_order(fields: &Vec<(String, String)>) -> (order: Vec<usize>)
    requires
        keys_distinct(fields_view(fields@)),
    ensures
        order@.len() == fields@.len(),
        forall|k: int| 0 <= k < order@.len() ==> #[trigger] order@[k] < fields@.len(),
        forall|j: int| 0 <= j < fields@.len() ==> #[trigger] placed(order@, j),
        forall|a: int, b: int|
            0 <= a < b < order@.len() ==> key_lt(
                #[trigger] fields@[order@[a] as int].0@,
                #[trigger] fields@[order@[b] as int].0@,
            ),
{
    let ghost fv = fields_view(fields@);
    let mut order: Vec<usize> = Vec::new();
    let mut i: usize = 0;
    while i < fields.len()
        invariant
            fv == fields_view(fields@),
            keys_distinct(fv),
            i <= fields@.len(),
            order@.len() == i,
            forall|k: int| 0 <= k < order@.len() ==> #[trigger] order@[k] < i,
            forall|j: int| 0 <= j < i ==> #[trigger] placed(order@, j),
            forall|a: int, b: int|
                0 <= a < b < order@.len() ==> key_lt(
                    #[trigger] fields@[order@[a] as int].0@,
                    #[trigger] fields@[order@[b] as int].0@,
                ),
        decreases fields@.len() - i,
    {
        let mut p: usize = 0;
        while p < order.len() && !key_less(&fields[i].0, &fields[order[p]].0)
            invariant
                fv == fields_view(fields@),
                keys_distinct(fv),
                i < fields@.len(),
                p <= order@.len(),
                order@.len() == i,
                forall|k: int| 0 <= k < order@.len() ==> #[trigger] order@[k] < i,
                forall|q: int| 0 <= q < p ==> key_lt(#[trigger] fields@[order@[q] as int].0@, fields@[i as int].0@),
            decreases order@.len() - p,
        {
            proof {
                let o = order@[p as int] as int;
                assert(fv[o].0 == fields@[o].0@);
                assert(fv[i as int].0 == fields@[i as int].0@);
                assert(fv[o].0 != fv[i as int].0);
                lemma_key_lt_total(fields@[o].0@, fields@[i as int].0@);
            }
            p += 1;
        }
        let ghost old_order = order@;
        order.insert(p, i);
        proof {
            assert forall|k: int| 0 <= k < order@.len() implies #[trigger] order@[k] < i + 1 by {
                if k < p { assert(order@[k] == old_order[k]); }
                else if k > p { assert(order@[k] == old_order[k - 1]); }
            }
            assert forall|j: int| 0 <= j < i + 1 implies #[trigger] placed(order@, j) by {
                if j == i {
                    assert(order@[p as int] == j);
                } else {
                    assert(placed(old_order, j));
                    let k = choose|k: int| 0 <= k < old_order.len() && old_order[k] == j;
                    if k < p {
                        assert(order@[k] == j);
                    } else {
                        assert(order@[k + 1] == j);
                    }
                }
            }
            assert forall|a: int, b: int| 0 <= a < b < order@.len() implies key_lt(
                #[trigger] fields@[order@[a] as int].0@,
                #[trigger] fields@[order@[b] as int].0@,
            ) by {
                let ka = fields@[order@[a] as int].0@;
                let kb = fields@[order@[b] as int].0@;
                let ki = fields@[i as int].0@;
                if b < p {
                    assert(order@[a] == old_order[a] && order@[b] == old_order[b]);
                } else if b == p {
                    assert(order@[a] == old_order[a]);
                } else if a > p {
                    assert(order@[a] == old_order[a - 1] && order@[b] == old_order[b - 1]);
                } else {
                    // b > p >= a: the new key sorts before the one that followed it
                    assert(order@[b] == old_order[b - 1]);
                    let kp = fields@[old_order[p as int] as int].0@;
                    assert(key_lt(ki, kp));
                    if b - 1 > p {
                        assert(key_lt(kp, kb));
                        lemma_bytes_lt_transitive(encode_utf8(ki), encode_utf8(kp), encode_utf8(kb));
                    }
                    assert(key_lt(ki, kb));
                    if a < p {
                        assert(order@[a] == old_order[a]);
                        assert(key_lt(ka, ki));
                        lemma_bytes_lt_transitive(encode_utf8(ka), encode_utf8(ki), encode_utf8(kb));
                    }
                }
            }
        }
        i += 1;
    }
    order
}

/// The canonical check-string of `fields`: the `key=value` texts in ascending
/// key order, joined with single newlines.
pub fn check_string(fields: &Vec<(String, String)>) -> (r: String)
    requires
        keys_distinct(fields_view(fields@)),
    ensures
        r@ == canonical(fields_view(fields@)),
{
    let order = key_order(fields);
    let ghost fv = fields_view(fields@);
    let ghost s = order@.map_values(|j: usize| fv[j as int]);
    let mut out = String::new();
    let mut k: usize = 0;
    proof {
        reveal_strlit("\n");
        reveal_strlit("=");
        assert(s.take(0) =~= Seq::<Entry>::empty());
    }
    while k < order.len()
        invariant
            fv == fields_view(fields@),
            s == order@.map_values(|j: usize| fv[j as int]),
            order@.len() == fields@.len(),
            forall|m: int| 0 <= m < order@.len() ==> #[trigger] order@[m] < fields@.len(),
            k <= order@.len(),
            out@ == join_entries(s.take(k as int)),
            "\n"@ == seq!['\n'],
            "="@ == seq!['='],
        decreases order@.len() - k,
    {
        let ghost before = out@;
        if k > 0 {
            out.append("\n");
        }
        let idx = order[k];
        out.append(fields[idx].0.as_str());
        out.append("=");
        out.append(fields[idx].1.as_str());
        proof {
            let t = s.take(k + 1);
            assert(t.drop_last() =~= s.take(k as int));
            assert(t.last() == fv[idx as int]);
            assert(fv[idx as int] == (fields@[idx as int].0@, fields@[idx as int].1@));
            if k == 0 {
                assert(before =~= Seq::<char>::empty());
                assert(out@ =~= entry_text(t[0]));
            } else {
                assert(out@ =~= before + seq!['\n'] + entry_text(t.last()));
            }
        }
        k += 1;
    }
    proof {
        assert(s.take(s.len() as int) =~= s);
        assert(strictly_sorted(s)) by {
            assert forall|a: int, b: int| 0 <= a < b < s.len() implies key_lt(#[trigger] s[a].0, #[trigger] s[b].0) by {
                assert(key_lt(fields@[order@[a] as int].0@, fields@[order@[b] as int].0@));
            }
        }
        assert(same_entries(s, fv)) by {
            assert forall|e: Entry| s.contains(e) <==> fv.contains(e) by {
                if s.contains(e) {
                    let m = choose|m: int| 0 <= m < s.len() && s[m] == e;
                    assert(fv[order@[m] as int] == e);
                }
                if fv.contains(e) {
                    let j = choose|j: int| 0 <= j < fv.len() && fv[j] == e;
                    assert(placed(order@, j));
                    let m = choose|m: int| 0 <= m < order@.len() && order@[m] == j;
                    assert(s[m] == e);
                }
            }
        }
        lemma_sorted_entries_is(fv, s);
    }
    out
}

} // verus!
