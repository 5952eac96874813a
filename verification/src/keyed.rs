//! Maps keyed by text, held as lists of `(key, value)` entries whose keys
//! are in strictly increasing text order: the order in which a sorted map
//! of strings walks its keys.
//!
//! These lists stand in for a `BTreeMap<String, _>`: Verus accepts that map,
//! but with `String` keys nothing about its contents could be proved, not
//! even its length after one insert.

use vstd::prelude::*;
use vstd::string::*;

verus! {

/// Text order: lexicographic by character code (the order of UTF-8 bytes).
pub open spec fn spec_text_lt(a: Seq<char>, b: Seq<char>) -> bool
    decreases a.len(),
{
    if a.len() == 0 {
        b.len() > 0
    } else if b.len() == 0 {
        false
    } else if a[0] != b[0] {
        (a[0] as int) < (b[0] as int)
    } else {
        spec_text_lt(a.drop_first(), b.drop_first())
    }
}

/// Whether `a` comes before `b` in text order.
pub fn text_lt(a: &str, b: &str) -> (r: bool)
    ensures
        r == spec_text_lt(a@, b@),
{
    let na = a.unicode_len();
    let nb = b.unicode_len();
    let mut i: usize = 0;
    assert(a@.subrange(0, na as int) =~= a@);
    assert(b@.subrange(0, nb as int) =~= b@);
    loop
        invariant
            i <= na,
            i <= nb,
            na == a@.len(),
            nb == b@.len(),
            spec_text_lt(a@, b@) == spec_text_lt(
                a@.subrange(i as int, na as int),
                b@.subrange(i as int, nb as int),
            ),
        decreases na - i,
    {
        let ghost ra = a@.subrange(i as int, na as int);
        let ghost rb = b@.subrange(i as int, nb as int);
        if i == na {
            return i < nb;
        }
        if i == nb {
            return false;
        }
        let ca = a.get_char(i);
        let cb = b.get_char(i);
        assert(ra[0] == ca && rb[0] == cb);
        if ca != cb {
            return ca < cb;
        }
        assert(ra.drop_first() =~= a@.subrange(i + 1, na as int));
        assert(rb.drop_first() =~= b@.subrange(i + 1, nb as int));
        i = i + 1;
    }
}

/// Where `key` goes in `s`: before the first entry whose key does not come
/// before it.
pub open spec fn spec_insert_pos<V>(s: Seq<(Seq<char>, V)>, key: Seq<char>) -> nat
    decreases s.len(),
{
    if s.len() == 0 {
        0
    } else if spec_text_lt(s[0].0, key) {
        1 + spec_insert_pos(s.drop_first(), key)
    } else {
        0
    }
}

/// `s` with `key` bound to `v`: an entry with that key at the insertion
/// point is replaced, otherwise the binding is inserted there.
pub open spec fn spec_keyed_insert<V>(
    s: Seq<(Seq<char>, V)>,
    key: Seq<char>,
    v: V,
) -> Seq<(Seq<char>, V)> {
    let p = spec_insert_pos(s, key);
    if p < s.len() && s[p as int].0 == key {
        s.update(p as int, (key, v))
    } else {
        s.insert(p as int, (key, v))
    }
}

/// Whether the keys of `s` are in strictly increasing text order (so no key
/// occurs twice).
pub open spec fn spec_keys_sorted<V>(s: Seq<(Seq<char>, V)>) -> bool {
    forall|i: int, j: int|
        0 <= i < j < s.len() ==> spec_text_lt(#[trigger] s[i].0, #[trigger] s[j].0)
}

/// Text order is irreflexive.
pub proof fn lemma_text_lt_irreflexive(a: Seq<char>)
    ensures
        !spec_text_lt(a, a),
    decreases a.len(),
{
    if a.len() > 0 {
        lemma_text_lt_irreflexive(a.drop_first());
    }
}

/// Text order is transitive.
pub proof fn lemma_text_lt_transitive(a: Seq<char>, b: Seq<char>, c: Seq<char>)
    requires
        spec_text_lt(a, b),
        spec_text_lt(b, c),
    ensures
        spec_text_lt(a, c),
    decreases a.len(),
{
    if a.len() > 0 && b.len() > 0 && c.len() > 0 && a[0] == b[0] && b[0] == c[0] {
        lemma_text_lt_transitive(a.drop_first(), b.drop_first(), c.drop_first());
    }
}

/// Text order is total on distinct texts.
pub proof fn lemma_text_lt_total(a: Seq<char>, b: Seq<char>)
    requires
        a != b,
    ensures
        spec_text_lt(a, b) || spec_text_lt(b, a),
    decreases a.len(),
{
    if a.len() > 0 && b.len() > 0 && a[0] == b[0] {
        assert(a.drop_first() != b.drop_first()) by {
            if a.drop_first() == b.drop_first() {
                assert(a =~= seq![a[0]] + a.drop_first());
                assert(b =~= seq![b[0]] + b.drop_first());
            }
        }
        lemma_text_lt_total(a.drop_first(), b.drop_first());
    } else if a.len() > 0 && b.len() > 0 {
        assert((a[0] as int) != (b[0] as int));
    } else if a.len() == 0 && b.len() == 0 {
        assert(a =~= b);
    }
}

/// The insertion point lies after exactly the keys that come before `key`
/// in a sorted list.
pub proof fn lemma_insert_pos<V>(s: Seq<(Seq<char>, V)>, key: Seq<char>)
    ensures
        spec_insert_pos(s, key) <= s.len(),
        forall|i: int| 0 <= i < spec_insert_pos(s, key) ==> spec_text_lt(#[trigger] s[i].0, key),
        spec_insert_pos(s, key) < s.len() ==> !spec_text_lt(s[spec_insert_pos(s, key) as int].0, key),
    decreases s.len(),
{
    if s.len() > 0 && spec_text_lt(s[0].0, key) {
        let t = s.drop_first();
        lemma_insert_pos(t, key);
        assert forall|i: int| 0 <= i < spec_insert_pos(s, key) implies spec_text_lt(
            #[trigger] s[i].0,
            key,
        ) by {
            if i > 0 {
                assert(s[i] == t[i - 1]);
            }
        }
        if spec_insert_pos(s, key) < s.len() {
            assert(s[spec_insert_pos(s, key) as int] == t[spec_insert_pos(t, key) as int]);
        }
    }
}

/// Binding `key` keeps the entries in strictly increasing key order, binds
/// `key` to `v`, and leaves every other binding as it was: the list behaves
/// as a map ordered by key.
pub proof fn law_keyed_insert<V>(s: Seq<(Seq<char>, V)>, key: Seq<char>, v: V)
    requires
        spec_keys_sorted(s),
    ensures
        spec_keys_sorted(spec_keyed_insert(s, key, v)),
        exists|i: int|
            0 <= i < spec_keyed_insert(s, key, v).len() && #[trigger] spec_keyed_insert(
                s,
                key,
                v,
            )[i] == (key, v),
        forall|i: int|
            0 <= i < s.len() && s[i].0 != key ==> spec_keyed_insert(s, key, v).contains(
                #[trigger] s[i],
            ),
        forall|i: int|
            0 <= i < spec_keyed_insert(s, key, v).len() && spec_keyed_insert(s, key, v)[i].0
                != key ==> s.contains(#[trigger] spec_keyed_insert(s, key, v)[i]),
{
    let p = spec_insert_pos(s, key) as int;
    let r = spec_keyed_insert(s, key, v);
    lemma_insert_pos(s, key);
    // Every key from `p` on is `key` itself (only at `p`) or comes after it.
    assert forall|j: int| p <= j < s.len() && s[j].0 != key implies spec_text_lt(
        key,
        #[trigger] s[j].0,
    ) by {
        if j == p {
            lemma_text_lt_total(s[j].0, key);
        } else {
            if s[p].0 == key {
                assert(spec_text_lt(s[p].0, s[j].0));
            } else {
                lemma_text_lt_total(s[p].0, key);
                assert(spec_text_lt(s[p].0, s[j].0));
                lemma_text_lt_transitive(key, s[p].0, s[j].0);
            }
        }
    }
    assert forall|j: int| p < j < s.len() implies s[j].0 != key by {
        assert(spec_text_lt(s[p].0, s[j].0));
        if s[j].0 == key {
            if s[p].0 == key {
                lemma_text_lt_irreflexive(key);
            } else {
                lemma_text_lt_total(s[p].0, key);
                lemma_text_lt_transitive(key, s[p].0, key);
                lemma_text_lt_irreflexive(key);
            }
        }
    }
    if p < s.len() && s[p].0 == key {
        assert(r == s.update(p, (key, v)));
        assert(r[p] == (key, v));
        assert forall|i: int, j: int| 0 <= i < j < r.len() implies spec_text_lt(
            #[trigger] r[i].0,
            #[trigger] r[j].0,
        ) by {
            assert(r[i].0 == s[i].0);
            assert(r[j].0 == s[j].0);
        }
        assert forall|i: int| 0 <= i < s.len() && s[i].0 != key implies r.contains(
            #[trigger] s[i],
        ) by {
            assert(r[i] == s[i]);
        }
        assert forall|i: int| 0 <= i < r.len() && r[i].0 != key implies s.contains(
            #[trigger] r[i],
        ) by {
            assert(r[i] == s[i]);
        }
    } else {
        assert(r == s.insert(p, (key, v)));
        assert(r[p] == (key, v));
        assert forall|j: int| 0 <= j < s.len() implies s[j].0 != key by {
            if j < p {
                lemma_text_lt_irreflexive(key);
            }
        }
        assert forall|i: int, j: int| 0 <= i < j < r.len() implies spec_text_lt(
            #[trigger] r[i].0,
            #[trigger] r[j].0,
        ) by {
            if j < p {
                assert(r[i] == s[i] && r[j] == s[j]);
            } else if j == p {
                assert(r[i] == s[i]);
            } else if i < p {
                assert(r[i] == s[i] && r[j] == s[j - 1]);
                assert(spec_text_lt(key, s[j - 1].0));
                lemma_text_lt_transitive(s[i].0, key, s[j - 1].0);
            } else if i == p {
                assert(r[j] == s[j - 1]);
            } else {
                assert(r[i] == s[i - 1] && r[j] == s[j - 1]);
            }
        }
        assert forall|i: int| 0 <= i < s.len() && s[i].0 != key implies r.contains(
            #[trigger] s[i],
        ) by {
            if i < p {
                assert(r[i] == s[i]);
            } else {
                assert(r[i + 1] == s[i]);
            }
        }
        assert forall|i: int| 0 <= i < r.len() && r[i].0 != key implies s.contains(
            #[trigger] r[i],
        ) by {
            if i < p {
                assert(r[i] == s[i]);
            } else {
                assert(i != p);
                assert(r[i] == s[i - 1]);
            }
        }
    }
}

/// The insertion point is the one position with only smaller keys before it
/// and no smaller key at it.
pub proof fn lemma_insert_pos_unique<V>(s: Seq<(Seq<char>, V)>, key: Seq<char>, q: int)
    requires
        0 <= q <= s.len(),
        forall|i: int| 0 <= i < q ==> spec_text_lt(#[trigger] s[i].0, key),
        q < s.len() ==> !spec_text_lt(s[q].0, key),
    ensures
        spec_insert_pos(s, key) == q,
    decreases s.len(),
{
    if s.len() > 0 && q > 0 {
        let t = s.drop_first();
        assert(spec_text_lt(s[0].0, key));
        assert forall|i: int| 0 <= i < q - 1 implies spec_text_lt(#[trigger] t[i].0, key) by {
            assert(t[i] == s[i + 1]);
        }
        if q < s.len() {
            assert(t[q - 1] == s[q]);
        }
        lemma_insert_pos_unique(t, key, q - 1);
    }
}

/// Binding the same key twice leaves the second value: the list is the same
/// as after the second binding alone.
pub proof fn law_keyed_rebind<V>(
    s: Seq<(Seq<char>, V)>,
    key: Seq<char>,
    a: V,
    b: V,
)
    ensures
        spec_keyed_insert(spec_keyed_insert(s, key, a), key, b) == spec_keyed_insert(
            s,
            key,
            b,
        ),
{
    let p = spec_insert_pos(s, key) as int;
    let r1 = spec_keyed_insert(s, key, a);
    lemma_insert_pos(s, key);
    assert(r1[p] == (key, a));
    assert forall|i: int| 0 <= i < p implies spec_text_lt(#[trigger] r1[i].0, key) by {
        assert(r1[i] == s[i]);
    }
    lemma_text_lt_irreflexive(key);
    lemma_insert_pos_unique(r1, key, p);
    if p < s.len() && s[p].0 == key {
        assert(r1.update(p, (key, b)) =~= s.update(p, (key, b)));
    } else {
        assert(r1.update(p, (key, b)) =~= s.insert(p, (key, b)));
    }
}

/// The abstract entries of a keyed list.
pub open spec fn view_keyed<T: View>(s: Seq<(String, T)>) -> Seq<(Seq<char>, T::V)> {
    s.map_values(|p: (String, T)| (p.0@, p.1@))
}

/// Binds `key` to `v` in a keyed list: the entry for `key` at its place in
/// text order is replaced, or a new entry is inserted there.
pub fn keyed_insert<T: View>(s: &mut Vec<(String, T)>, key: String, v: T)
    ensures
        view_keyed(final(s)@) == spec_keyed_insert(view_keyed(old(s)@), key@, v@),
{
    let ghost w = view_keyed(s@);
    let n = s.len();
    let mut i: usize = 0;
    assert(w.subrange(0, n as int) =~= w);
    while i < n && text_lt(s[i].0.as_str(), key.as_str())
        invariant
            i <= n,
            n == s.len(),
            w == view_keyed(s@),
            spec_insert_pos(w, key@) == i + spec_insert_pos(w.subrange(i as int, n as int), key@),
        decreases n - i,
    {
        let ghost rest = w.subrange(i as int, n as int);
        assert(rest[0].0 == s@[i as int].0@);
        assert(rest.drop_first() =~= w.subrange(i + 1, n as int));
        i = i + 1;
    }
    proof {
        if i < n {
            let rest = w.subrange(i as int, n as int);
            assert(rest[0].0 == s@[i as int].0@);
        }
    }
    assert(spec_insert_pos(w, key@) == i);
    let ghost kv = key@;
    let ghost vv = v@;
    if i < n && crate::text::str_eq(s[i].0.as_str(), key.as_str()) {
        s.set(i, (key, v));
        assert(view_keyed(s@) =~= w.update(i as int, (kv, vv)));
    } else {
        s.insert(i, (key, v));
        assert(view_keyed(s@) =~= w.insert(i as int, (kv, vv)));
    }
}

} // verus!
