use vstd::prelude::*;

use crate::text::{chars_of, decimal, push_char, push_decimal, same_chars, string_of, string_views};

verus! {

/// Lexicographic order of character sequences by code point: the order of
/// Rust strings, whose byte order is code point order in UTF-8.
pub open spec fn lex_lt(a: Seq<char>, b: Seq<char>) -> bool
    decreases a.len(),
{
    if a.len() == 0 {
        b.len() > 0
    } else if b.len() == 0 {
        false
    } else if a[0] != b[0] {
        a[0] < b[0]
    } else {
        lex_lt(a.drop_first(), b.drop_first())
    }
}

pub proof fn lemma_lex_irreflexive(a: Seq<char>)
    ensures
        !lex_lt(a, a),
    decreases a.len(),
{
    if a.len() > 0 {
        lemma_lex_irreflexive(a.drop_first());
    }
}

pub proof fn lemma_lex_transitive(a: Seq<char>, b: Seq<char>, c: Seq<char>)
    requires
        lex_lt(a, b),
        lex_lt(b, c),
    ensures
        lex_lt(a, c),
    decreases a.len(),
{
    if a.len() > 0 && b.len() > 0 && c.len() > 0 && a[0] == b[0] && b[0] == c[0] {
        lemma_lex_transitive(a.drop_first(), b.drop_first(), c.drop_first());
    }
}

pub proof fn lemma_lex_total(a: Seq<char>, b: Seq<char>)
    requires
        a != b,
    ensures
        lex_lt(a, b) || lex_lt(b, a),
    decreases a.len(),
{
    if a.len() > 0 && b.len() > 0 && a[0] == b[0] {
        if a.drop_first() == b.drop_first() {
            assert(a =~= seq![a[0]] + a.drop_first());
            assert(b =~= seq![b[0]] + b.drop_first());
        }
        lemma_lex_total(a.drop_first(), b.drop_first());
    } else if a.len() == 0 && b.len() == 0 {
        assert(a =~= b);
    }
}

/// Whether `a` sorts before `b`.
pub fn lex_less(a: &Vec<char>, b: &Vec<char>) -> (r: bool)
    ensures
        r == lex_lt(a@, b@),
{
    let mut i: usize = 0;
    proof {
        assert(a@.skip(0) =~= a@);
        assert(b@.skip(0) =~= b@);
    }
    while i < a.len() && i < b.len() && a[i] == b[i]
        invariant
            i <= a.len(),
            i <= b.len(),
            lex_lt(a@, b@) == lex_lt(a@.skip(i as int), b@.skip(i as int)),
        decreases a.len() - i,
    {
        assert(a@.skip(i as int).drop_first() =~= a@.skip(i + 1));
        assert(b@.skip(i as int).drop_first() =~= b@.skip(i + 1));
        i = i + 1;
    }
    if i == a.len() {
        i < b.len()
    } else if i == b.len() {
        false
    } else {
        assert(a@.skip(i as int)[0] == a@[i as int]);
        assert(b@.skip(i as int)[0] == b@[i as int]);
        a[i] < b[i]
    }
}

/// Number of times `e` occurs in `s`.
pub open spec fn occurrences(s: Seq<Seq<char>>, e: Seq<char>) -> nat
    decreases s.len(),
{
    if s.len() == 0 {
        0
    } else if s.last() == e {
        occurrences(s.drop_last(), e) + 1
    } else {
        occurrences(s.drop_last(), e)
    }
}

proof fn lemma_occurrences_absent(s: Seq<Seq<char>>, e: Seq<char>)
    requires
        !s.contains(e),
    ensures
        occurrences(s, e) == 0,
    decreases s.len(),
{
    if s.len() > 0 {
        assert(!s.drop_last().contains(e)) by {
            if s.drop_last().contains(e) {
                let k = choose|k: int| 0 <= k < s.drop_last().len() && s.drop_last()[k] == e;
                assert(s[k] == e);
            }
        }
        lemma_occurrences_absent(s.drop_last(), e);
    }
}

proof fn lemma_occurrences_bound(s: Seq<Seq<char>>, e: Seq<char>)
    ensures
        occurrences(s, e) <= s.len(),
    decreases s.len(),
{
    if s.len() > 0 {
        lemma_occurrences_bound(s.drop_last(), e);
    }
}

/// Every element sorts strictly before the next: sorted, without repeats.
pub open spec fn sorted_strict(s: Seq<Seq<char>>) -> bool {
    forall|i: int, j: int| 0 <= i < j < s.len() ==> lex_lt(#[trigger] s[i], #[trigger] s[j])
}

pub open spec fn same_members(s: Seq<Seq<char>>, t: Seq<Seq<char>>) -> bool {
    forall|x: Seq<char>| #![trigger s.contains(x)] #![trigger t.contains(x)] s.contains(x) <==> t.contains(x)
}

proof fn lemma_sorted_unique(s: Seq<Seq<char>>, t: Seq<Seq<char>>)
    requires
        sorted_strict(s),
        sorted_strict(t),
        same_members(s, t),
    ensures
        s == t,
    decreases s.len() + t.len(),
{
    if s.len() == 0 {
        if t.len() > 0 {
            assert(t.contains(t[0]));
        }
        assert(s =~= t);
    } else if t.len() == 0 {
        assert(s.contains(s[0]));
    } else {
        assert(s.contains(s[0]));
        let j = choose|j: int| 0 <= j < t.len() && t[j] == s[0];
        assert(t.contains(t[0]));
        let k = choose|k: int| 0 <= k < s.len() && s[k] == t[0];
        if j > 0 && k > 0 {
            assert(lex_lt(t[0], t[j]));
            assert(lex_lt(s[0], s[k]));
            lemma_lex_transitive(s[0], t[0], s[0]);
            lemma_lex_irreflexive(s[0]);
        } else if j > 0 {
            assert(lex_lt(t[0], t[j]));
            lemma_lex_irreflexive(t[0]);
        } else if k > 0 {
            assert(lex_lt(s[0], s[k]));
            lemma_lex_irreflexive(s[0]);
        }
        assert(s[0] == t[0]);
        let s1 = s.drop_first();
        let t1 = t.drop_first();
        assert forall|x: Seq<char>| #[trigger] s1.contains(x) <==> t1.contains(x) by {
            if s1.contains(x) {
                let a = choose|a: int| 0 <= a < s1.len() && s1[a] == x;
                assert(s.contains(x)) by {
                    assert(s[a + 1] == x);
                }
                assert(lex_lt(s[0], s[a + 1]));
                let b = choose|b: int| 0 <= b < t.len() && t[b] == x;
                if b == 0 {
                    lemma_lex_irreflexive(x);
                }
                assert(t1[b - 1] == x);
            }
            if t1.contains(x) {
                let a = choose|a: int| 0 <= a < t1.len() && t1[a] == x;
                assert(t.contains(x)) by {
                    assert(t[a + 1] == x);
                }
                assert(lex_lt(t[0], t[a + 1]));
                let b = choose|b: int| 0 <= b < s.len() && s[b] == x;
                if b == 0 {
                    lemma_lex_irreflexive(x);
                }
                assert(s1[b - 1] == x);
            }
        }
        assert(sorted_strict(s1)) by {
            assert forall|i: int, j: int| 0 <= i < j < s1.len() implies lex_lt(#[trigger] s1[i], #[trigger] s1[j]) by {
                assert(s1[i] == s[i + 1] && s1[j] == s[j + 1]);
            }
        }
        assert(sorted_strict(t1)) by {
            assert forall|i: int, j: int| 0 <= i < j < t1.len() implies lex_lt(#[trigger] t1[i], #[trigger] t1[j]) by {
                assert(t1[i] == t[i + 1] && t1[j] == t[j + 1]);
            }
        }
        lemma_sorted_unique(s1, t1);
        assert(s =~= seq![s[0]] + s1);
        assert(t =~= seq![t[0]] + t1);
    }
}

/// The distinct elements of `els`, sorted.
pub open spec fn distinct_sorted(els: Seq<Seq<char>>) -> Seq<Seq<char>> {
    choose|s: Seq<Seq<char>>| sorted_strict(s) && same_members(s, els)
}

/// The formula text of the elements `keys`, each followed by its number of
/// occurrences in `els` when that is more than one.
pub open spec fn render(keys: Seq<Seq<char>>, els: Seq<Seq<char>>) -> Seq<char>
    decreases keys.len(),
{
    if keys.len() == 0 {
        seq![]
    } else {
        let e = keys.last();
        let n = occurrences(els, e);
        render(keys.drop_last(), els) + e + (if n > 1 { decimal(n) } else { seq![] })
    }
}

/// Chemical formula of a list of element names: each distinct element once,
/// in alphabetical order, followed by its count when above one ("Cl6Cs2Mo").
pub open spec fn formula(els: Seq<Seq<char>>) -> Seq<char> {
    render(distinct_sorted(els), els)
}

pub open spec fn views(v: Seq<Vec<char>>) -> Seq<Seq<char>> {
    v.map_values(|w: Vec<char>| w@)
}

/// The distinct element names of `elements` in sorted order, each with its
/// number of occurrences.
fn sorted_counts(elements: &Vec<String>) -> (r: (Vec<Vec<char>>, Vec<usize>))
    ensures
        views(r.0@) == distinct_sorted(string_views(elements@)),
        r.1@.len() == r.0@.len(),
        forall|k: int| 0 <= k < r.1@.len() ==> #[trigger] r.1@[k] == occurrences(string_views(elements@), views(r.0@)[k]),
{
    let ghost els = string_views(elements@);
    let mut keys: Vec<Vec<char>> = Vec::new();
    let mut counts: Vec<usize> = Vec::new();
    let mut i: usize = 0;
    while i < elements.len()
        invariant
            i <= elements.len(),
            els == string_views(elements@),
            keys.len() == counts.len(),
            sorted_strict(views(keys@)),
            same_members(views(keys@), els.take(i as int)),
            forall|k: int| 0 <= k < counts.len() ==> #[trigger] counts@[k] == occurrences(els.take(i as int), views(keys@)[k]),
            forall|k: int| 0 <= k < counts.len() ==> #[trigger] counts@[k] <= i,
        decreases elements.len() - i,
    {
        let e = chars_of(elements[i].as_str());
        let ghost old_keys = views(keys@);
        let ghost old_counts = counts@;
        let ghost prefix = els.take(i as int);
        let ghost next = els.take(i + 1);
        assert(next.drop_last() =~= prefix);
        assert(next.last() == e@);
        let mut pos: usize = 0;
        while pos < keys.len() && lex_less(&keys[pos], &e)
            invariant
                pos <= keys.len(),
                views(keys@) == old_keys,
                forall|k: int| 0 <= k < pos ==> lex_lt(#[trigger] old_keys[k], e@),
            decreases keys.len() - pos,
        {
            pos = pos + 1;
        }
        if pos < keys.len() && same_chars(&keys[pos], &e) {
            let c = counts[pos];
            proof {
                lemma_occurrences_bound(prefix, e@);
            }
            counts.set(pos, c + 1);
            proof {
                assert forall|x: Seq<char>| #[trigger] old_keys.contains(x) <==> next.contains(x) by {
                    if next.contains(x) {
                        let k = choose|k: int| 0 <= k < next.len() && next[k] == x;
                        if k < i {
                            assert(prefix[k] == x);
                            assert(prefix.contains(x));
                        } else {
                            assert(old_keys[pos as int] == x);
                        }
                    }
                    if old_keys.contains(x) {
                        assert(prefix.contains(x));
                        let k = choose|k: int| 0 <= k < prefix.len() && prefix[k] == x;
                        assert(next[k] == x);
                    }
                }
            }
        } else {
            proof {
                assert(!prefix.contains(e@)) by {
                    if prefix.contains(e@) {
                        assert(old_keys.contains(e@));
                        let k = choose|k: int| 0 <= k < old_keys.len() && old_keys[k] == e@;
                        if k < pos {
                            lemma_lex_irreflexive(e@);
                        } else if k == pos {
                        } else {
                            assert(!lex_lt(old_keys[pos as int], e@));
                            assert(lex_lt(old_keys[pos as int], old_keys[k]));
                        }
                    }
                }
                lemma_occurrences_absent(prefix, e@);
                if pos < keys.len() {
                    lemma_lex_total(old_keys[pos as int], e@);
                }
            }
            keys.insert(pos, e);
            counts.insert(pos, 1);
            proof {
                let nk = views(keys@);
                assert(nk =~= old_keys.insert(pos as int, e@));
                assert forall|a: int, b: int| 0 <= a < b < nk.len() implies lex_lt(#[trigger] nk[a], #[trigger] nk[b]) by {
                    if b < pos {
                        assert(nk[a] == old_keys[a] && nk[b] == old_keys[b]);
                    } else if b == pos {
                        assert(nk[a] == old_keys[a]);
                    } else if a < pos {
                        assert(nk[a] == old_keys[a] && nk[b] == old_keys[b - 1]);
                        assert(lex_lt(old_keys[a], e@));
                        if b - 1 == pos {
                        } else {
                            assert(lex_lt(old_keys[pos as int], old_keys[b - 1]));
                            lemma_lex_transitive(e@, old_keys[pos as int], old_keys[b - 1]);
                        }
                        lemma_lex_transitive(old_keys[a], e@, old_keys[b - 1]);
                    } else if a == pos {
                        assert(nk[b] == old_keys[b - 1]);
                        if b - 1 > pos {
                            assert(lex_lt(old_keys[pos as int], old_keys[b - 1]));
                            lemma_lex_transitive(e@, old_keys[pos as int], old_keys[b - 1]);
                        }
                    } else {
                        assert(nk[a] == old_keys[a - 1] && nk[b] == old_keys[b - 1]);
                    }
                }
                assert forall|x: Seq<char>| #[trigger] nk.contains(x) <==> next.contains(x) by {
                    if next.contains(x) {
                        let k = choose|k: int| 0 <= k < next.len() && next[k] == x;
                        if k < i {
                            assert(prefix[k] == x);
                            assert(prefix.contains(x));
                            assert(old_keys.contains(x));
                            let m = choose|m: int| 0 <= m < old_keys.len() && old_keys[m] == x;
                            if m < pos {
                                assert(nk[m] == x);
                            } else {
                                assert(nk[m + 1] == x);
                            }
                        } else {
                            assert(nk[pos as int] == x);
                        }
                    }
                    if nk.contains(x) {
                        let m = choose|m: int| 0 <= m < nk.len() && nk[m] == x;
                        if m == pos {
                            assert(next[i as int] == x);
                        } else {
                            let m2 = if m < pos { m } else { m - 1 };
                            assert(old_keys[m2] == x);
                            assert(old_keys.contains(x));
                            assert(prefix.contains(x));
                            let k = choose|k: int| 0 <= k < prefix.len() && prefix[k] == x;
                            assert(next[k] == x);
                        }
                    }
                }
            }
        }
        proof {
            let nk = views(keys@);
            assert(nk.contains(e@));
            let pe = choose|m: int| 0 <= m < nk.len() && nk[m] == e@;
            assert forall|k: int| 0 <= k < counts.len() implies #[trigger] counts@[k] == occurrences(next, nk[k]) by {
                assert(occurrences(next, nk[k]) == occurrences(prefix, nk[k]) + (if nk[k] == e@ { 1nat } else { 0nat }));
                if k != pe {
                    if k < pe {
                        assert(lex_lt(nk[k], nk[pe]));
                    } else {
                        assert(lex_lt(nk[pe], nk[k]));
                    }
                    lemma_lex_irreflexive(e@);
                    assert(nk[k] != e@);
                }
                if nk.len() == old_keys.len() {
                    assert(nk[k] == old_keys[k]);
                    assert(pe == pos);
                } else {
                    if k < pos {
                        assert(nk[k] == old_keys[k]);
                        assert(counts@[k] == old_counts[k]);
                    } else if k > pos {
                        assert(nk[k] == old_keys[k - 1]);
                        assert(counts@[k] == old_counts[k - 1]);
                    } else {
                        assert(nk[k] == e@);
                    }
                    if k == pe {
                        assert(pe == pos) by {
                            if pe != pos {
                                if pe < pos {
                                    assert(lex_lt(nk[pe], nk[pos as int]));
                                } else {
                                    assert(lex_lt(nk[pos as int], nk[pe]));
                                }
                                lemma_lex_irreflexive(e@);
                            }
                        }
                    }
                }
            }
        }
        i = i + 1;
    }
    let ghost ks = views(keys@);
    proof {
        assert(els.take(i as int) =~= els);
        lemma_sorted_unique(ks, distinct_sorted(els));
    }
    (keys, counts)
}

/// The distinct element names of `elements`, sorted, with the number of atoms
/// of each: the species blocks of a POSCAR file.
pub fn element_counts(elements: &Vec<String>) -> (r: (Vec<String>, Vec<usize>))
    ensures
        string_views(r.0@) == distinct_sorted(string_views(elements@)),
        r.1@.len() == r.0@.len(),
        forall|k: int| 0 <= k < r.1@.len() ==> #[trigger] r.1@[k] == occurrences(string_views(elements@), string_views(r.0@)[k]),
{
    let (keys, counts) = sorted_counts(elements);
    let mut names: Vec<String> = Vec::new();
    let mut k: usize = 0;
    while k < keys.len()
        invariant
            k <= keys.len(),
            names@.len() == k,
            forall|j: int| 0 <= j < k ==> #[trigger] names@[j]@ == keys@[j]@,
        decreases keys.len() - k,
    {
        let n = string_of(&keys[k], 0, keys[k].len());
        assert(keys@[k as int]@.subrange(0, keys@[k as int]@.len() as int) =~= keys@[k as int]@);
        names.push(n);
        k = k + 1;
    }
    assert(string_views(names@) =~= views(keys@));
    (names, counts)
}

/// The chemical formula of the atoms whose element names are `elements`.
pub fn generate_formula(elements: &Vec<String>) -> (r: String)
    ensures
        r@ == formula(string_views(elements@)),
{
    let ghost els = string_views(elements@);
    let (keys, counts) = sorted_counts(elements);
    let ghost ks = views(keys@);
    let mut r = String::new();
    let mut k: usize = 0;
    while k < keys.len()
        invariant
            k <= keys.len() == counts.len(),
            ks == views(keys@),
            forall|j: int| 0 <= j < counts.len() ==> #[trigger] counts@[j] == occurrences(els, ks[j]),
            r@ == render(ks.take(k as int), els),
        decreases keys.len() - k,
    {
        let ghost before = r@;
        let key = &keys[k];
        let mut c: usize = 0;
        while c < key.len()
            invariant
                c <= key.len(),
                key@ == ks[k as int],
                r@ == before + key@.take(c as int),
            decreases key.len() - c,
        {
            push_char(&mut r, key[c]);
            assert(key@.take(c + 1) =~= key@.take(c as int).push(key@[c as int]));
            c = c + 1;
        }
        assert(key@.take(c as int) =~= key@);
        let n = counts[k];
        if n > 1 {
            push_decimal(&mut r, n as u64);
        }
        proof {
            assert(ks.take(k + 1).drop_last() =~= ks.take(k as int));
            assert(ks.take(k + 1).last() == ks[k as int]);
            if n <= 1 {
                assert(r@ =~= before + ks[k as int] + Seq::<char>::empty());
            }
        }
        k = k + 1;
    }
    assert(ks.take(k as int) =~= ks);
    r
}


proof fn lemma_occurrences_count(s: Seq<Seq<char>>, e: Seq<char>)
    ensures
        occurrences(s, e) == s.to_multiset().count(e),
    decreases s.len(),
{
    broadcast use vstd::multiset::group_multiset_axioms;
    if s.len() > 0 {
        lemma_occurrences_count(s.drop_last(), e);
        assert(s =~= s.drop_last().push(s.last()));
        vstd::seq_lib::to_multiset_build(s.drop_last(), s.last());
    } else {
        vstd::seq_lib::to_multiset_contains(s, e);
    }
}

proof fn lemma_render_same_counts(keys: Seq<Seq<char>>, a: Seq<Seq<char>>, b: Seq<Seq<char>>)
    requires
        forall|e: Seq<char>| #[trigger] occurrences(a, e) == occurrences(b, e),
    ensures
        render(keys, a) == render(keys, b),
    decreases keys.len(),
{
    if keys.len() > 0 {
        lemma_render_same_counts(keys.drop_last(), a, b);
        assert(occurrences(a, keys.last()) == occurrences(b, keys.last()));
    }
}

/// `s` with `e` added in its place, unless it is already there.
spec fn insert_sorted(s: Seq<Seq<char>>, e: Seq<char>) -> Seq<Seq<char>>
    decreases s.len(),
{
    if s.len() == 0 {
        seq![e]
    } else if s[0] == e {
        s
    } else if lex_lt(e, s[0]) {
        seq![e] + s
    } else {
        seq![s[0]] + insert_sorted(s.drop_first(), e)
    }
}

proof fn lemma_insert_sorted(s: Seq<Seq<char>>, e: Seq<char>)
    requires
        sorted_strict(s),
    ensures
        sorted_strict(insert_sorted(s, e)),
        forall|x: Seq<char>| #[trigger] insert_sorted(s, e).contains(x) <==> (s.contains(x) || x == e),
    decreases s.len(),
{
    let r = insert_sorted(s, e);
    if s.len() == 0 {
        assert forall|x: Seq<char>| #[trigger] r.contains(x) <==> (s.contains(x) || x == e) by {
            if r.contains(x) {
                assert(r[0] == e);
            }
            if x == e {
                assert(r[0] == x);
            }
        }
    } else if s[0] == e {
        assert(s.contains(e));
    } else if lex_lt(e, s[0]) {
        assert forall|i: int, j: int| 0 <= i < j < r.len() implies lex_lt(#[trigger] r[i], #[trigger] r[j]) by {
            if i == 0 {
                assert(r[j] == s[j - 1]);
                if j - 1 > 0 {
                    assert(lex_lt(s[0], s[j - 1]));
                    lemma_lex_transitive(e, s[0], s[j - 1]);
                }
            } else {
                assert(r[i] == s[i - 1] && r[j] == s[j - 1]);
            }
        }
        assert forall|x: Seq<char>| #[trigger] r.contains(x) <==> (s.contains(x) || x == e) by {
            if r.contains(x) {
                let k = choose|k: int| 0 <= k < r.len() && r[k] == x;
                if k > 0 {
                    assert(s[k - 1] == x);
                }
            }
            if s.contains(x) {
                let k = choose|k: int| 0 <= k < s.len() && s[k] == x;
                assert(r[k + 1] == x);
            }
            if x == e {
                assert(r[0] == x);
            }
        }
    } else {
        let t = s.drop_first();
        assert(sorted_strict(t)) by {
            assert forall|i: int, j: int| 0 <= i < j < t.len() implies lex_lt(#[trigger] t[i], #[trigger] t[j]) by {
                assert(t[i] == s[i + 1] && t[j] == s[j + 1]);
            }
        }
        lemma_insert_sorted(t, e);
        let rt = insert_sorted(t, e);
        lemma_lex_total(e, s[0]);
        assert forall|i: int, j: int| 0 <= i < j < r.len() implies lex_lt(#[trigger] r[i], #[trigger] r[j]) by {
            if i == 0 {
                assert(r[j] == rt[j - 1]);
                assert(rt.contains(rt[j - 1]));
                if rt[j - 1] != e {
                    let k = choose|k: int| 0 <= k < t.len() && t[k] == rt[j - 1];
                    assert(s[k + 1] == rt[j - 1]);
                }
            } else {
                assert(r[i] == rt[i - 1] && r[j] == rt[j - 1]);
            }
        }
        assert forall|x: Seq<char>| #[trigger] r.contains(x) <==> (s.contains(x) || x == e) by {
            if r.contains(x) {
                let k = choose|k: int| 0 <= k < r.len() && r[k] == x;
                if k == 0 {
                    assert(s[0] == x);
                } else {
                    assert(rt[k - 1] == x);
                    assert(rt.contains(x));
                    if t.contains(x) {
                        let m = choose|m: int| 0 <= m < t.len() && t[m] == x;
                        assert(s[m + 1] == x);
                    }
                }
            }
            if s.contains(x) {
                let k = choose|k: int| 0 <= k < s.len() && s[k] == x;
                if k == 0 {
                    assert(r[0] == x);
                } else {
                    assert(t[k - 1] == x);
                    assert(t.contains(x));
                    assert(rt.contains(x));
                    let m = choose|m: int| 0 <= m < rt.len() && rt[m] == x;
                    assert(r[m + 1] == x);
                }
            }
            if x == e {
                assert(rt.contains(x));
                let m = choose|m: int| 0 <= m < rt.len() && rt[m] == x;
                assert(r[m + 1] == x);
            }
        }
    }
}

/// A sorted list of the distinct elements of `els`.
spec fn sorted_members(els: Seq<Seq<char>>) -> Seq<Seq<char>>
    decreases els.len(),
{
    if els.len() == 0 {
        seq![]
    } else {
        insert_sorted(sorted_members(els.drop_last()), els.last())
    }
}

proof fn lemma_sorted_members(els: Seq<Seq<char>>)
    ensures
        sorted_strict(sorted_members(els)),
        same_members(sorted_members(els), els),
    decreases els.len(),
{
    if els.len() > 0 {
        let p = els.drop_last();
        lemma_sorted_members(p);
        lemma_insert_sorted(sorted_members(p), els.last());
        let r = sorted_members(els);
        assert forall|x: Seq<char>| #[trigger] r.contains(x) <==> els.contains(x) by {
            assert(r.contains(x) <==> (sorted_members(p).contains(x) || x == els.last()));
            assert(sorted_members(p).contains(x) <==> p.contains(x));
            if p.contains(x) {
                let k = choose|k: int| 0 <= k < p.len() && p[k] == x;
                assert(els[k] == x);
            }
            if els.contains(x) {
                let k = choose|k: int| 0 <= k < els.len() && els[k] == x;
                if k < els.len() - 1 {
                    assert(p[k] == x);
                }
            }
            if x == els.last() {
                assert(els[els.len() - 1] == x);
            }
        }
    }
}

/// `distinct_sorted` is what its name says: sorted, without repeats, with the
/// members of `els`.
pub proof fn lemma_distinct_sorted(els: Seq<Seq<char>>)
    ensures
        sorted_strict(distinct_sorted(els)),
        same_members(distinct_sorted(els), els),
{
    lemma_sorted_members(els);
}

proof fn lemma_distinct_sorted_same_members(a: Seq<Seq<char>>, b: Seq<Seq<char>>)
    requires
        same_members(a, b),
    ensures
        distinct_sorted(a) == distinct_sorted(b),
{
    lemma_distinct_sorted(a);
    lemma_distinct_sorted(b);
    let da = distinct_sorted(a);
    let db = distinct_sorted(b);
    assert forall|x: Seq<char>| #[trigger] da.contains(x) <==> db.contains(x) by {
        assert(da.contains(x) <==> a.contains(x));
        assert(db.contains(x) <==> b.contains(x));
        assert(a.contains(x) <==> b.contains(x));
    }
    lemma_sorted_unique(da, db);
}

/// The formula depends only on how many atoms of each element there are, not
/// on their order: lists with the same elements, each the same number of
/// times, have the same formula.
pub proof fn lemma_formula_order_free(a: Seq<Seq<char>>, b: Seq<Seq<char>>)
    requires
        a.to_multiset() == b.to_multiset(),
    ensures
        formula(a) == formula(b),
{
    assert forall|e: Seq<char>| #[trigger] occurrences(a, e) == occurrences(b, e) by {
        lemma_occurrences_count(a, e);
        lemma_occurrences_count(b, e);
    }
    assert forall|x: Seq<char>| #[trigger] a.contains(x) <==> b.contains(x) by {
        vstd::seq_lib::to_multiset_contains(a, x);
        vstd::seq_lib::to_multiset_contains(b, x);
    }
    lemma_distinct_sorted_same_members(a, b);
    lemma_render_same_counts(distinct_sorted(a), a, b);
}

} // verus!
