use vstd::prelude::*;

use crate::cif::lemma_trim_first;
use crate::chgcar::{parse_usize, parse_usize_word};
use crate::formula::{distinct_sorted, element_counts, lemma_distinct_sorted, lemma_lex_irreflexive, occurrences};
use crate::text::{
    alphabetic, chars_of, decimal, is_alphabetic, push_decimal, push_str, same_text, split_ws, string_of,
    string_views, trim, trim_bounds, views, words, is_ws, ascii_lower,
};

verus! {

/// The first character of the first word, or a space when there is none.
pub open spec fn first_char_of(ws: Seq<Seq<char>>) -> char {
    if ws.len() > 0 && ws[0].len() > 0 {
        ws[0][0]
    } else {
        ' '
    }
}

/// Every word is an unsigned integer.
pub open spec fn all_counts(ws: Seq<Seq<char>>) -> bool {
    forall|i: int| 0 <= i < ws.len() ==> #[trigger] parse_usize(ws[i]) is Some
}

/// The name given to the `i`-th species of a file that lists no symbols:
/// `prefix` followed by `i + 1`.
pub open spec fn placeholder(prefix: Seq<char>, i: int) -> Seq<char> {
    prefix + decimal((i + 1) as nat)
}

/// The species of a POSCAR file, as its species line(s) give them.
pub struct PoscarSpecies {
    pub elements: Vec<String>,
    pub counts: Vec<usize>,
    /// The counts were on the line after the symbols (VASP 5), which is then
    /// consumed.
    pub used_next_line: bool,
}

/// The counts of `ws`, each parsed.
fn counts_of_words(ws: &Vec<Vec<char>>) -> (r: Option<Vec<usize>>)
    ensures
        r is Some <==> all_counts(views(ws@)),
        r matches Some(c) ==> c@.len() == ws@.len() && forall|i: int|
            0 <= i < c@.len() ==> parse_usize(views(ws@)[i]) == Some(#[trigger] c@[i] as nat),
{
    let mut out: Vec<usize> = Vec::new();
    let mut i: usize = 0;
    while i < ws.len()
        invariant
            i <= ws.len(),
            out@.len() == i,
            forall|k: int| 0 <= k < i ==> parse_usize(views(ws@)[k]) == Some(#[trigger] out@[k] as nat),
        decreases ws.len() - i,
    {
        match parse_usize_word(&ws[i]) {
            Some(v) => out.push(v),
            None => {
                assert(parse_usize(views(ws@)[i as int]) is None);
                return None;
            },
        }
        i = i + 1;
    }
    assert forall|i: int| 0 <= i < ws@.len() implies #[trigger] parse_usize(views(ws@)[i]) is Some by {
        assert(parse_usize(views(ws@)[i]) == Some(out@[i] as nat));
    }
    Some(out)
}

/// What reading a species header gives (see `species_header`).
pub open spec fn species_result(
    line: Seq<char>,
    next: Option<Seq<char>>,
    prefix: Seq<char>,
    missing: Seq<char>,
    r: Result<PoscarSpecies, String>,
) -> bool {
    let wa = words(line);
    if alphabetic(first_char_of(wa)) {
        match next {
            None => r matches Err(m) && m@ == missing,
            Some(b) => if all_counts(words(b)) {
                r matches Ok(p) && string_views(p.elements@) == wa && p.used_next_line
                    && p.counts@.len() == words(b).len() && forall|i: int| 0 <= i < p.counts@.len()
                    ==> parse_usize(words(b)[i]) == Some(#[trigger] p.counts@[i] as nat)
            } else {
                r matches Err(m) && m@ == "Invalid atom count"@
            },
        }
    } else if all_counts(wa) {
        r matches Ok(p) && !p.used_next_line && p.counts@.len() == wa.len() && p.elements@.len() == wa.len()
            && forall|i: int| 0 <= i < wa.len() ==> parse_usize(wa[i]) == Some(#[trigger] p.counts@[i] as nat)
            && #[trigger] p.elements@[i]@ == placeholder(prefix, i)
    } else {
        r matches Err(m) && m@ == "Invalid atom count"@
    }
}

pub open spec fn opt_view(next: Option<&str>) -> Option<Seq<char>> {
    match next {
        Some(b) => Some(b@),
        None => None,
    }
}

/// The species header of a VASP structure file: `line` and, when it lists
/// symbols, the counts line after it (`next`, `None` at the end of the file).
/// A line whose first character is alphabetic lists symbols; otherwise it
/// lists counts and the species are named `prefix` followed by 1, 2, ...
/// `missing` is the error for symbols without a counts line.
fn species_header(line: &str, next: Option<&str>, prefix: &str, missing: &str) -> (r: Result<PoscarSpecies, String>)
    ensures
        species_result(line@, opt_view(next), prefix@, missing@, r),
{
    let a = chars_of(line);
    let wa = split_ws(&a);
    let first = if wa.len() > 0 && wa[0].len() > 0 { wa[0][0] } else { ' ' };
    if is_alphabetic(first) {
        match next {
            None => {
                let mut m = String::new();
                push_str(&mut m, missing);
                Err(m)
            },
            Some(b) => {
                let bc = chars_of(b);
                let wb = split_ws(&bc);
                match counts_of_words(&wb) {
                    None => {
                        let mut m = String::new();
                        push_str(&mut m, "Invalid atom count");
                        Err(m)
                    },
                    Some(counts) => {
                        let mut elements: Vec<String> = Vec::new();
                        let mut i: usize = 0;
                        while i < wa.len()
                            invariant
                                i <= wa.len(),
                                elements@.len() == i,
                                forall|k: int| 0 <= k < i ==> #[trigger] elements@[k]@ == views(wa@)[k],
                            decreases wa.len() - i,
                        {
                            let w = string_of(&wa[i], 0, wa[i].len());
                            assert(wa@[i as int]@.subrange(0, wa@[i as int]@.len() as int) =~= wa@[i as int]@);
                            elements.push(w);
                            i = i + 1;
                        }
                        assert(string_views(elements@) =~= views(wa@));
                        Ok(PoscarSpecies { elements, counts, used_next_line: true })
                    },
                }
            },
        }
    } else {
        match counts_of_words(&wa) {
            None => {
                let mut m = String::new();
                push_str(&mut m, "Invalid atom count");
                Err(m)
            },
            Some(counts) => {
                let mut elements: Vec<String> = Vec::new();
                let mut i: usize = 0;
                while i < counts.len()
                    invariant
                        i <= counts.len(),
                        counts@.len() == wa@.len(),
                        elements@.len() == i,
                        forall|k: int| 0 <= k < i ==> #[trigger] elements@[k]@ == placeholder(prefix@, k),
                    decreases counts.len() - i,
                {
                    let mut name = String::new();
                    push_str(&mut name, prefix);
                    push_decimal(&mut name, (i as u64) + 1);
                    elements.push(name);
                    i = i + 1;
                }
                Ok(PoscarSpecies { elements, counts, used_next_line: false })
            },
        }
    }
}

/// Reads the species line of a POSCAR file (`line`) and, when it lists
/// symbols, the counts line after it (`next`, `None` at the end of the file).
/// A line whose first character is alphabetic lists symbols; otherwise it
/// lists counts (VASP 4) and the species are named `El1`, `El2`, ...
pub fn poscar_species(line: &str, next: Option<&str>) -> (r: Result<PoscarSpecies, String>)
    ensures
        species_result(line@, opt_view(next), "El"@, "Missing atom counts"@, r),
{
    let r = species_header(line, next, "El", "Missing atom counts");
    proof {
        reveal_strlit("El");
    }
    r
}

/// Reads the species header of a CHGCAR file, as `poscar_species` does; the
/// species of a file without symbols are named `X1`, `X2`, ...
pub fn chgcar_species(line: &str, next: Option<&str>) -> (r: Result<PoscarSpecies, String>)
    ensures
        species_result(line@, opt_view(next), "X"@, "Unexpected EOF: atom counts"@, r),
{
    species_header(line, next, "X", "Unexpected EOF: atom counts")
}

/// The species name for index `s`: the listed symbol, or `X` followed by
/// `s + 1` past the end of the list.
pub open spec fn name_or_x(names: Seq<Seq<char>>, s: int) -> Seq<char> {
    if 0 <= s < names.len() {
        names[s]
    } else {
        placeholder("X"@, s)
    }
}

/// The species of atom `k` counted from the start of species block `s`:
/// blocks are taken in order, each holding `counts[s]` atoms; past the last
/// block the name is that of the next index.
pub open spec fn element_at(names: Seq<Seq<char>>, counts: Seq<usize>, s: int, k: int) -> Seq<char>
    decreases counts.len() - s,
{
    if s < 0 || s >= counts.len() {
        name_or_x(names, s)
    } else if k < counts[s] {
        name_or_x(names, s)
    } else {
        element_at(names, counts, s + 1, k - counts[s])
    }
}

/// The element of atom `k` (0-based) of a CHGCAR file whose species blocks
/// have the names `names` and sizes `counts`.
pub fn atom_element(names: &Vec<String>, counts: &Vec<usize>, k: usize) -> (r: String)
    requires
        counts@.len() < usize::MAX,
    ensures
        r@ == element_at(string_views(names@), counts@, 0, k as int),
{
    let ghost ns = string_views(names@);
    let mut s: usize = 0;
    let mut left = k;
    while s < counts.len() && left >= counts[s]
        invariant
            s <= counts.len(),
            counts@.len() < usize::MAX,
            ns == string_views(names@),
            element_at(ns, counts@, s as int, left as int) == element_at(ns, counts@, 0, k as int),
        decreases counts.len() - s,
    {
        left = left - counts[s];
        s = s + 1;
    }
    if s < names.len() {
        names[s].clone()
    } else {
        let mut x = String::new();
        push_str(&mut x, "X");
        push_decimal(&mut x, (s as u64) + 1);
        proof {
            reveal_strlit("X");
        }
        x
    }
}

/// The first character of the trimmed line, if any.
pub open spec fn lead_char(line: Seq<char>) -> Option<char> {
    if trim(line).len() > 0 {
        Some(trim(line)[0])
    } else {
        None
    }
}

/// A `Selective dynamics` line: its trimmed text starts, in lower case, with `s`.
pub open spec fn selective_line(line: Seq<char>) -> bool {
    lead_char(line) == Some('s') || lead_char(line) == Some('S')
}

/// The coordinate mode a POSCAR mode line names, by the first letter of its
/// trimmed, lower-cased text: `d` for direct (fractional) coordinates, `c` or
/// `k` for Cartesian ones (the Kelvin sign lower-cases to `k`).
pub open spec fn mode_of(line: Seq<char>) -> Option<bool> {
    match lead_char(line) {
        Some(c) => if c == 'd' || c == 'D' {
            Some(true)
        } else if c == 'c' || c == 'C' || c == 'k' || c == 'K' || c == '\u{212a}' {
            Some(false)
        } else {
            None
        },
        None => None,
    }
}

/// How a POSCAR line is read by its first character that is not white
/// space, in either case: `d` names direct coordinates, `c` and `k`
/// Cartesian ones, any other letter no known mode; `s` marks selective
/// dynamics.
pub proof fn lemma_mode_by_first_letter(pre: Seq<char>, c: char, rest: Seq<char>)
    requires
        forall|k: int| 0 <= k < pre.len() ==> is_ws(#[trigger] pre[k]),
        !is_ws(c),
        'A' <= c <= 'Z' || 'a' <= c <= 'z',
    ensures
        mode_of(pre + seq![c] + rest) == (if ascii_lower(c) == 'd' {
            Some(true)
        } else if ascii_lower(c) == 'c' || ascii_lower(c) == 'k' {
            Some(false)
        } else {
            None::<bool>
        }),
        selective_line(pre + seq![c] + rest) == (ascii_lower(c) == 's'),
{
    lemma_trim_first(pre, c, rest);
}

fn lead_char_exec(line: &str) -> (r: Option<char>)
    ensures
        r == lead_char(line@),
{
    let v = chars_of(line);
    let (i, j) = trim_bounds(&v);
    if i < j {
        Some(v[i])
    } else {
        None
    }
}

/// Whether a line announces selective dynamics.
pub fn is_selective_line(line: &str) -> (r: bool)
    ensures
        r == selective_line(line@),
{
    match lead_char_exec(line) {
        Some(c) => c == 's' || c == 'S',
        None => false,
    }
}

/// The coordinate mode of a mode line: `Some(true)` for direct coordinates,
/// `Some(false)` for Cartesian ones, `None` for an unknown mode.
pub fn coordinate_mode(line: &str) -> (r: Option<bool>)
    ensures
        r == mode_of(line@),
{
    match lead_char_exec(line) {
        Some(c) => if c == 'd' || c == 'D' {
            Some(true)
        } else if c == 'c' || c == 'C' || c == 'k' || c == 'K' || c == '\u{212a}' {
            Some(false)
        } else {
            None
        },
        None => None,
    }
}

/// The first `n` species, each followed by its count.
pub open spec fn label_upto(els: Seq<Seq<char>>, counts: Seq<usize>, n: int) -> Seq<char>
    decreases n,
{
    if n <= 0 {
        seq![]
    } else {
        label_upto(els, counts, n - 1) + els[n - 1] + decimal(counts[n - 1] as nat)
    }
}

/// The formula a POSCAR file is labelled with: each species followed by its
/// count, for as many species as both lists have.
pub open spec fn poscar_label(els: Seq<Seq<char>>, counts: Seq<usize>) -> Seq<char> {
    label_upto(els, counts, if els.len() < counts.len() { els.len() as int } else { counts.len() as int })
}

/// The formula label of a POSCAR file.
pub fn poscar_formula(elements: &Vec<String>, counts: &Vec<usize>) -> (r: String)
    ensures
        r@ == poscar_label(string_views(elements@), counts@),
{
    let ghost els = string_views(elements@);
    let mut r = String::new();
    let mut i: usize = 0;
    let n = if elements.len() < counts.len() { elements.len() } else { counts.len() };
    while i < n
        invariant
            i <= n,
            n <= elements.len(),
            n <= counts.len(),
            els == string_views(elements@),
            r@ == label_upto(els, counts@, i as int),
        decreases n - i,
    {
        push_str(&mut r, elements[i].as_str());
        push_decimal(&mut r, counts[i] as u64);
        assert(els[i as int] == elements@[i as int]@);
        i = i + 1;
    }
    r
}

/// The positions `i < n` with `els[i] == e`, in increasing order.
pub open spec fn positions_of(els: Seq<Seq<char>>, e: Seq<char>, n: int) -> Seq<int>
    decreases n,
{
    if n <= 0 {
        seq![]
    } else if els[n - 1] == e {
        positions_of(els, e, n - 1).push(n - 1)
    } else {
        positions_of(els, e, n - 1)
    }
}

/// The atoms grouped by species: for each species in `keys` in turn, the
/// positions of its atoms in file order.
pub open spec fn grouped(els: Seq<Seq<char>>, keys: Seq<Seq<char>>) -> Seq<int>
    decreases keys.len(),
{
    if keys.len() == 0 {
        seq![]
    } else {
        grouped(els, keys.drop_last()) + positions_of(els, keys.last(), els.len() as int)
    }
}

/// The species blocks of a POSCAR file written for atoms with the element
/// names `elements`: the species in sorted order, the number of atoms of
/// each, and the order in which the atoms are written (a stable sort by
/// element name).
pub fn poscar_blocks(elements: &Vec<String>) -> (r: (Vec<String>, Vec<usize>, Vec<usize>))
    ensures
        string_views(r.0@) == distinct_sorted(string_views(elements@)),
        r.1@.len() == r.0@.len(),
        forall|k: int| 0 <= k < r.1@.len() ==> #[trigger] r.1@[k] == occurrences(string_views(elements@), string_views(r.0@)[k]),
        r.2@.map_values(|i: usize| i as int) == grouped(string_views(elements@), string_views(r.0@)),
{
    let ghost els = string_views(elements@);
    let (names, counts) = element_counts(elements);
    let ghost ks = string_views(names@);
    let mut order: Vec<usize> = Vec::new();
    let mut k: usize = 0;
    while k < names.len()
        invariant
            k <= names.len(),
            els == string_views(elements@),
            ks == string_views(names@),
            order@.map_values(|i: usize| i as int) == grouped(els, ks.take(k as int)),
        decreases names.len() - k,
    {
        let ghost before = order@.map_values(|i: usize| i as int);
        let mut i: usize = 0;
        while i < elements.len()
            invariant
                i <= elements.len(),
                k < names.len(),
                els == string_views(elements@),
                ks == string_views(names@),
                order@.map_values(|x: usize| x as int) == before + positions_of(els, ks[k as int], i as int),
            decreases elements.len() - i,
        {
            if same_text(elements[i].as_str(), names[k].as_str()) {
                let ghost mid = order@.map_values(|x: usize| x as int);
                order.push(i);
                assert(order@.map_values(|x: usize| x as int) =~= mid.push(i as int));
                assert(els[i as int] == ks[k as int]);
            } else {
                assert(els[i as int] != ks[k as int]);
            }
            i = i + 1;
        }
        proof {
            assert(ks.take(k + 1).drop_last() =~= ks.take(k as int));
            assert(ks.take(k + 1).last() == ks[k as int]);
        }
        k = k + 1;
    }
    assert(ks.take(k as int) =~= ks);
    (names, counts, order)
}


proof fn lemma_positions_of(els: Seq<Seq<char>>, e: Seq<char>, n: int)
    requires
        0 <= n <= els.len(),
    ensures
        positions_of(els, e, n).len() == occurrences(els.take(n), e),
        forall|j: int| 0 <= j < positions_of(els, e, n).len() ==> {
            let p = #[trigger] positions_of(els, e, n)[j];
            0 <= p < n && els[p] == e
        },
        forall|a: int, b: int| 0 <= a < b < positions_of(els, e, n).len() ==> #[trigger] positions_of(els, e, n)[a]
            < #[trigger] positions_of(els, e, n)[b],
        forall|i: int| 0 <= i < n && els[i] == e ==> #[trigger] positions_of(els, e, n).contains(i),
    decreases n,
{
    if n > 0 {
        lemma_positions_of(els, e, n - 1);
        assert(els.take(n).drop_last() =~= els.take(n - 1));
        assert(els.take(n).last() == els[n - 1]);
        let prev = positions_of(els, e, n - 1);
        let cur = positions_of(els, e, n);
        assert forall|i: int| 0 <= i < n && els[i] == e implies #[trigger] cur.contains(i) by {
            if i < n - 1 {
                assert(prev.contains(i));
                let k = choose|k: int| 0 <= k < prev.len() && prev[k] == i;
                assert(cur[k] == i);
            } else {
                assert(cur[cur.len() - 1] == i);
            }
        }
    } else {
        assert(els.take(0) =~= Seq::<Seq<char>>::empty());
    }
}

proof fn lemma_grouped(els: Seq<Seq<char>>, keys: Seq<Seq<char>>)
    requires
        keys.no_duplicates(),
    ensures
        forall|j: int| 0 <= j < grouped(els, keys).len() ==> {
            let p = #[trigger] grouped(els, keys)[j];
            0 <= p < els.len() && keys.contains(els[p])
        },
        grouped(els, keys).no_duplicates(),
        forall|i: int| 0 <= i < els.len() && keys.contains(els[i]) ==> #[trigger] grouped(els, keys).contains(i),
    decreases keys.len(),
{
    if keys.len() > 0 {
        let ks = keys.drop_last();
        let e = keys.last();
        assert(ks.no_duplicates());
        lemma_grouped(els, ks);
        lemma_positions_of(els, e, els.len() as int);
        let g0 = grouped(els, ks);
        let p = positions_of(els, e, els.len() as int);
        let g = grouped(els, keys);
        assert(g == g0 + p);
        assert(!ks.contains(e)) by {
            if ks.contains(e) {
                let k = choose|k: int| 0 <= k < ks.len() && ks[k] == e;
                assert(keys[k] == keys[keys.len() - 1]);
            }
        }
        assert forall|j: int| 0 <= j < g.len() implies {
            let q = #[trigger] g[j];
            0 <= q < els.len() && keys.contains(els[q])
        } by {
            if j < g0.len() {
                assert(g[j] == g0[j]);
                let q = g0[j];
                assert(ks.contains(els[q]));
                let k = choose|k: int| 0 <= k < ks.len() && ks[k] == els[q];
                assert(keys[k] == els[q]);
            } else {
                assert(g[j] == p[j - g0.len()]);
                assert(keys[keys.len() - 1] == e);
            }
        }
        assert forall|a: int, b: int| 0 <= a < g.len() && 0 <= b < g.len() && a != b implies g[a] != g[b] by {
            if a < g0.len() && b < g0.len() {
                assert(g[a] == g0[a] && g[b] == g0[b]);
            } else if a >= g0.len() && b >= g0.len() {
                assert(g[a] == p[a - g0.len()] && g[b] == p[b - g0.len()]);
                if a < b {
                    assert(p[a - g0.len()] < p[b - g0.len()]);
                } else {
                    assert(p[b - g0.len()] < p[a - g0.len()]);
                }
            } else {
                let (x, y) = if a < g0.len() { (a, b) } else { (b, a) };
                assert(g[x] == g0[x]);
                assert(g[y] == p[y - g0.len()]);
                assert(ks.contains(els[g0[x]]));
                assert(els[p[y - g0.len()]] == e);
            }
        }
        assert forall|i: int| 0 <= i < els.len() && keys.contains(els[i]) implies #[trigger] g.contains(i) by {
            if els[i] == e {
                assert(p.contains(i));
                let k = choose|k: int| 0 <= k < p.len() && p[k] == i;
                assert(g[g0.len() + k] == i);
            } else {
                let k = choose|k: int| 0 <= k < keys.len() && keys[k] == els[i];
                assert(k < keys.len() - 1);
                assert(ks[k] == els[i]);
                assert(g0.contains(i));
                let m = choose|m: int| 0 <= m < g0.len() && g0[m] == i;
                assert(g[m] == i);
            }
        }
    }
}

/// A POSCAR file written by `poscar_blocks` lists every atom exactly once,
/// under the header of its own species: the atom order is a permutation of
/// the atoms, and the block of species `k` holds `counts[k]` atoms, all of
/// that species, in their original order.
pub proof fn lemma_blocks_list_every_atom(els: Seq<Seq<char>>)
    ensures
        grouped(els, distinct_sorted(els)).len() == els.len(),
        grouped(els, distinct_sorted(els)).no_duplicates(),
        forall|i: int| 0 <= i < els.len() ==> #[trigger] grouped(els, distinct_sorted(els)).contains(i),
        forall|k: int, j: int| 0 <= k < distinct_sorted(els).len() && 0 <= j < positions_of(els, distinct_sorted(els)[k], els.len() as int).len() ==> {
            let p = #[trigger] positions_of(els, distinct_sorted(els)[k], els.len() as int)[j];
            0 <= p < els.len() && els[p] == distinct_sorted(els)[k]
        },
        forall|k: int| 0 <= k < distinct_sorted(els).len() ==> #[trigger] positions_of(els, distinct_sorted(els)[k], els.len() as int).len()
            == occurrences(els, distinct_sorted(els)[k]),
{
    let keys = distinct_sorted(els);
    let n = els.len() as int;
    lemma_distinct_sorted(els);
    assert(keys.no_duplicates()) by {
        assert forall|a: int, b: int| 0 <= a < keys.len() && 0 <= b < keys.len() && a != b implies keys[a] != keys[b] by {
            lemma_lex_irreflexive(keys[a]);
        }
    }
    lemma_grouped(els, keys);
    let g = grouped(els, keys);
    assert forall|i: int| 0 <= i < n implies #[trigger] g.contains(i) by {
        assert(els.contains(els[i]));
        assert(keys.contains(els[i]));
    }
    assert forall|k: int| 0 <= k < keys.len() implies #[trigger] positions_of(els, keys[k], n).len() == occurrences(els, keys[k]) by {
        lemma_positions_of(els, keys[k], n);
        assert(els.take(n) =~= els);
    }
    assert forall|k: int, j: int| 0 <= k < keys.len() && 0 <= j < positions_of(els, keys[k], n).len() implies {
        let p = #[trigger] positions_of(els, keys[k], n)[j];
        0 <= p < n && els[p] == keys[k]
    } by {
        lemma_positions_of(els, keys[k], n);
    }
    // Every position in 0..n occurs once: the order is as long as the atoms.
    g.unique_seq_to_set();
    vstd::set_lib::lemma_int_range(0, n);
    assert(g.to_set() =~= vstd::set_lib::set_int_range(0, n));
}

} // verus!
