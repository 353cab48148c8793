use vstd::prelude::*;

use crate::chgcar::{parse_usize, parse_usize_word};
use crate::text::{
    alphabetic, ascii_upper, ascii_upper_exec, chars_of, find_exec, find_from, has_prefix, is_alphabetic,
    is_numeric, lemma_find_from, numeric, push_char, push_str, same_chars, split_ws, starts_with_str, string_of,
    trim, trim_bounds, vec_slice, views, words,
};

verus! {

/// The section of an SPR-KKR potential or system file being read.
#[derive(Debug, Clone, Copy, PartialEq, Eq, Structural)]
pub enum SprSection {
    Outside,
    Header,
    Lattice,
    Sites,
    Occupation,
    Types,
    Potential,
}

/// What one line of an SPR-KKR file contributes. Numbers with a fractional
/// part are left for the caller to read from the line.
pub enum SprLine {
    Skip,
    /// The quoted text of a `HEADER` line.
    HeaderText(String),
    /// The words after `SYSTEM`.
    SystemName(String),
    Sysdim(String),
    Systype(String),
    /// The words after `BRAVAIS` that are not plain numbers.
    Bravais(String),
    /// An `ALAT` line: the lattice constant is its first number.
    Alat,
    /// A lattice vector line `A(1)`, `A(2)`, `A(3)` (or `A1` ...), by index.
    LatticeVector(usize),
    /// Whether the positions are Cartesian.
    Cartesian(bool),
    /// A `BASSCALE` line with three scale factors.
    Basscale,
    /// A site row with the given site number; its words 1 to 3 hold the
    /// position.
    Site(usize),
    /// An occupation row: the site, and for each listed type its number and
    /// the index of the word holding its concentration.
    Occupation(usize, Vec<(usize, usize)>),
    /// A type row: type number, element symbol, atomic number.
    Type(usize, String, usize),
}

pub enum SprLineView {
    Skip,
    HeaderText(Seq<char>),
    SystemName(Seq<char>),
    Sysdim(Seq<char>),
    Systype(Seq<char>),
    Bravais(Seq<char>),
    Alat,
    LatticeVector(int),
    Cartesian(bool),
    Basscale,
    Site(int),
    Occupation(int, Seq<(usize, usize)>),
    Type(int, Seq<char>, int),
}

impl SprLine {
    pub open spec fn view(&self) -> SprLineView {
        match self {
            SprLine::Skip => SprLineView::Skip,
            SprLine::HeaderText(s) => SprLineView::HeaderText(s@),
            SprLine::SystemName(s) => SprLineView::SystemName(s@),
            SprLine::Sysdim(s) => SprLineView::Sysdim(s@),
            SprLine::Systype(s) => SprLineView::Systype(s@),
            SprLine::Bravais(s) => SprLineView::Bravais(s@),
            SprLine::Alat => SprLineView::Alat,
            SprLine::LatticeVector(i) => SprLineView::LatticeVector(*i as int),
            SprLine::Cartesian(b) => SprLineView::Cartesian(*b),
            SprLine::Basscale => SprLineView::Basscale,
            SprLine::Site(i) => SprLineView::Site(*i as int),
            SprLine::Occupation(i, v) => SprLineView::Occupation(*i as int, v@),
            SprLine::Type(i, s, z) => SprLineView::Type(*i as int, s@, *z as int),
        }
    }
}

/// The words joined by single spaces.
pub open spec fn join_words(ws: Seq<Seq<char>>) -> Seq<char>
    decreases ws.len(),
{
    if ws.len() == 0 {
        seq![]
    } else if ws.len() == 1 {
        ws[0]
    } else {
        join_words(ws.drop_last()) + " "@ + ws.last()
    }
}

/// Every character of `w` is numeric.
pub open spec fn all_numeric(w: Seq<char>) -> bool {
    forall|i: int| 0 <= i < w.len() ==> numeric(#[trigger] w[i])
}

/// The words that are not made of numeric characters only.
pub open spec fn non_numeric(ws: Seq<Seq<char>>) -> Seq<Seq<char>> {
    ws.filter(|w: Seq<char>| !all_numeric(w))
}

/// The alphabetic characters of `w`.
pub open spec fn letters(w: Seq<char>) -> Seq<char> {
    w.filter(|c: char| alphabetic(c))
}

/// A word that upper-cases to `TRUE`.
pub open spec fn true_word(w: Seq<char>) -> bool {
    w.len() == 4 && ascii_upper(w[0]) == 'T' && ascii_upper(w[1]) == 'R' && ascii_upper(w[2]) == 'U'
        && ascii_upper(w[3]) == 'E'
}

/// The quoted text of a `HEADER` line: between its first `'` and the next.
pub open spec fn header_quote(t: Seq<char>) -> SprLineView {
    match find_from(t, "'"@, 0) {
        None => SprLineView::Skip,
        Some(s) => match find_from(t.skip(s + 1), "'"@, 0) {
            None => SprLineView::Skip,
            Some(e) => SprLineView::HeaderText(t.subrange(s + 1, s + 1 + e)),
        },
    }
}

/// The occupation pairs of a row, from word `cursor` on, for `left` more
/// types: each pair whose type number is an integer is kept, with the index
/// of the word after it; reading stops where no full pair remains.
pub open spec fn occupation_pairs(ws: Seq<Seq<char>>, cursor: int, left: nat) -> Seq<(usize, usize)>
    decreases left,
{
    if left == 0 || cursor < 0 || cursor + 1 >= ws.len() {
        seq![]
    } else {
        (match parse_usize(ws[cursor]) {
            Some(t) => seq![(t as usize, (cursor + 1) as usize)],
            None => seq![],
        }) + occupation_pairs(ws, cursor + 2, (left - 1) as nat)
    }
}

/// The vector index a lattice line names, if any.
pub open spec fn vector_index(t: Seq<char>) -> SprLineView {
    if has_prefix(t, "A(1)"@) || has_prefix(t, "A1"@) {
        SprLineView::LatticeVector(0)
    } else if has_prefix(t, "A(2)"@) || has_prefix(t, "A2"@) {
        SprLineView::LatticeVector(1)
    } else if has_prefix(t, "A(3)"@) || has_prefix(t, "A3"@) {
        SprLineView::LatticeVector(2)
    } else {
        SprLineView::Skip
    }
}

/// A line of the `LATTICE` section.
pub open spec fn lattice_line(t: Seq<char>) -> SprLineView {
    let ws = words(t);
    if has_prefix(t, "SYSDIM"@) {
        if ws.len() >= 2 { SprLineView::Sysdim(ws[1]) } else { SprLineView::Skip }
    } else if has_prefix(t, "SYSTYPE"@) {
        if ws.len() >= 2 { SprLineView::Systype(ws[1]) } else { SprLineView::Skip }
    } else if has_prefix(t, "BRAVAIS"@) {
        SprLineView::Bravais(join_words(non_numeric(ws.skip(1))))
    } else if has_prefix(t, "ALAT"@) {
        SprLineView::Alat
    } else if has_prefix(t, "A("@) || (has_prefix(t, "A"@) && t.len() > 1 && numeric(t[1])) {
        vector_index(t)
    } else {
        SprLineView::Skip
    }
}

/// A line of the `SITES` section.
pub open spec fn sites_line(t: Seq<char>) -> SprLineView {
    let ws = words(t);
    if has_prefix(t, "CARTESIAN"@) {
        if ws.len() >= 2 {
            SprLineView::Cartesian(ws[1] == "T"@ || true_word(ws[1]))
        } else {
            SprLineView::Skip
        }
    } else if has_prefix(t, "BASSCALE"@) {
        SprLineView::Basscale
    } else if has_prefix(t, "IQ"@) || has_prefix(t, "CART"@) {
        SprLineView::Skip
    } else if ws.len() >= 4 && parse_usize(ws[0]) is Some {
        SprLineView::Site(parse_usize(ws[0])->Some_0 as int)
    } else {
        SprLineView::Skip
    }
}

/// A line of the `OCCUPATION` section.
pub open spec fn occupation_line(t: Seq<char>) -> SprLineView {
    let ws = words(t);
    if has_prefix(t, "IQ"@) {
        SprLineView::Skip
    } else if ws.len() >= 4 && parse_usize(ws[0]) is Some && parse_usize(ws[3]) is Some {
        SprLineView::Occupation(
            parse_usize(ws[0])->Some_0 as int,
            occupation_pairs(ws, 4, parse_usize(ws[3])->Some_0),
        )
    } else {
        SprLineView::Skip
    }
}

/// A line of the `TYPES` section.
pub open spec fn types_line(t: Seq<char>) -> SprLineView {
    let ws = words(t);
    if has_prefix(t, "IT"@) {
        SprLineView::Skip
    } else if ws.len() >= 3 && parse_usize(ws[0]) is Some && parse_usize(ws[2]) is Some && letters(ws[1]).len() > 0 {
        SprLineView::Type(parse_usize(ws[0])->Some_0 as int, letters(ws[1]), parse_usize(ws[2])->Some_0 as int)
    } else {
        SprLineView::Skip
    }
}

/// The section after line `line`, read in section `sec`, and what the line
/// contributes. Blank lines and `#` comments are skipped, a line of
/// asterisks closes the section, and section names open one.
pub open spec fn spr_step(sec: SprSection, line: Seq<char>) -> (SprSection, SprLineView) {
    let t = trim(line);
    if t.len() == 0 || has_prefix(t, "#"@) {
        (sec, SprLineView::Skip)
    } else if has_prefix(t, "*****"@) {
        (SprSection::Outside, SprLineView::Skip)
    } else if has_prefix(t, "HEADER"@) {
        (SprSection::Header, header_quote(t))
    } else if t == "LATTICE"@ {
        (SprSection::Lattice, SprLineView::Skip)
    } else if t == "SITES"@ {
        (SprSection::Sites, SprLineView::Skip)
    } else if t == "OCCUPATION"@ {
        (SprSection::Occupation, SprLineView::Skip)
    } else if t == "TYPES"@ {
        (SprSection::Types, SprLineView::Skip)
    } else if t == "POTENTIAL"@ {
        (SprSection::Potential, SprLineView::Skip)
    } else {
        (sec, match sec {
            SprSection::Header => if has_prefix(t, "SYSTEM"@) {
                SprLineView::SystemName(join_words(words(t).skip(1)))
            } else {
                SprLineView::Skip
            },
            SprSection::Lattice => lattice_line(t),
            SprSection::Sites => sites_line(t),
            SprSection::Occupation => occupation_line(t),
            SprSection::Types => types_line(t),
            _ => SprLineView::Skip,
        })
    }
}

fn text_of(v: &Vec<char>) -> (r: String)
    ensures
        r@ == v@,
{
    let s = string_of(v, 0, v.len());
    assert(v@.subrange(0, v@.len() as int) =~= v@);
    s
}

fn is_literal(t: &Vec<char>, lit: &str) -> (r: bool)
    ensures
        r == (t@ == lit@),
{
    let l = chars_of(lit);
    same_chars(t, &l)
}

/// The words `ws[from..]` joined by single spaces; `skip` keeps only words
/// that are not all numeric.
fn join_from(ws: &Vec<Vec<char>>, from: usize, skip_numbers: bool) -> (r: String)
    requires
        from <= ws.len(),
    ensures
        r@ == join_words(if skip_numbers { non_numeric(views(ws@).skip(from as int)) } else { views(ws@).skip(from as int) }),
{
    let ghost all = views(ws@).skip(from as int);
    let ghost kept_of = |s: Seq<Seq<char>>| if skip_numbers { non_numeric(s) } else { s };
    let mut r = String::new();
    let mut kept: usize = 0;
    let mut i = from;
    while i < ws.len()
        invariant
            from <= i <= ws.len(),
            all == views(ws@).skip(from as int),
            kept_of == (|s: Seq<Seq<char>>| if skip_numbers { non_numeric(s) } else { s }),
            kept as int == kept_of(all.take(i - from)).len(),
            r@ == join_words(kept_of(all.take(i - from))),
        decreases ws.len() - i,
    {
        let w = &ws[i];
        let ghost prefix = all.take(i - from);
        let ghost next = all.take(i + 1 - from);
        assert(next =~= prefix.push(w@));
        let mut numeric_only = true;
        let mut k: usize = 0;
        while k < w.len()
            invariant
                k <= w.len(),
                numeric_only == (forall|m: int| 0 <= m < k ==> numeric(#[trigger] w@[m])),
            decreases w.len() - k,
        {
            if !is_numeric(w[k]) {
                numeric_only = false;
            }
            k = k + 1;
        }
        assert(numeric_only == all_numeric(w@));
        proof {
            if skip_numbers {
                reveal(Seq::filter);
                assert(next.drop_last() =~= prefix);
                assert(next.last() == w@);
            }
        }
        if !skip_numbers || !numeric_only {
            let ghost before = r@;
            if kept > 0 {
                push_char(&mut r, ' ');
            }
            let wt = text_of(w);
            push_str(&mut r, wt.as_str());
            proof {
                let kn = kept_of(next);
                let kp = kept_of(prefix);
                assert(kn =~= kp.push(w@));
                assert(kn.drop_last() =~= kp);
                if kept == 0 {
                    assert(r@ =~= w@);
                } else {
                    reveal_strlit(" ");
                    assert(r@ =~= join_words(kp) + " "@ + w@);
                }
            }
            kept = kept + 1;
        } else {
            proof {
                assert(kept_of(next) =~= kept_of(prefix));
            }
        }
        i = i + 1;
    }
    assert(all.take(i - from) =~= all);
    r
}


fn header_quote_exec(t: &Vec<char>) -> (r: SprLine)
    ensures
        r@ == header_quote(t@),
{
    let quote = chars_of("'");
    match find_exec(t, &quote) {
        None => SprLine::Skip,
        Some(s) => {
            proof {
                lemma_find_from(t@, quote@, 0);
                reveal_strlit("'");
                assert(quote@.len() == 1);
                assert(t@.len() == t.len());
            }
            let rest = vec_slice(t, s + 1, t.len());
            assert(rest@ =~= t@.skip(s + 1));
            match find_exec(&rest, &quote) {
                None => SprLine::Skip,
                Some(e) => {
                    proof {
                        lemma_find_from(rest@, quote@, 0);
                    }
                    let h = string_of(t, s + 1, s + 1 + e);
                    SprLine::HeaderText(h)
                },
            }
        },
    }
}

fn letters_exec(w: &Vec<char>) -> (r: String)
    ensures
        r@ == letters(w@),
{
    let mut r = String::new();
    let mut k: usize = 0;
    while k < w.len()
        invariant
            k <= w.len(),
            r@ == letters(w@.take(k as int)),
        decreases w.len() - k,
    {
        proof {
            reveal(Seq::filter);
            assert(w@.take(k + 1).drop_last() =~= w@.take(k as int));
            assert(w@.take(k + 1).last() == w@[k as int]);
        }
        if is_alphabetic(w[k]) {
            push_char(&mut r, w[k]);
        }
        k = k + 1;
    }
    assert(w@.take(k as int) =~= w@);
    r
}

fn occupation_pairs_exec(ws: &Vec<Vec<char>>, noq: usize) -> (r: Vec<(usize, usize)>)
    requires
        ws.len() >= 4,
    ensures
        r@ == occupation_pairs(views(ws@), 4, noq as nat),
{
    let ghost all = views(ws@);
    let mut r: Vec<(usize, usize)> = Vec::new();
    let mut cursor: usize = 4;
    let mut left = noq;
    while left > 0 && cursor < ws.len() && cursor + 1 < ws.len()
        invariant
            4 <= cursor <= ws.len() + 1,
            all == views(ws@),
            r@ + occupation_pairs(all, cursor as int, left as nat) == occupation_pairs(all, 4, noq as nat),
        decreases left,
    {
        let ghost before = r@;
        match parse_usize_word(&ws[cursor]) {
            Some(t) => {
                r.push((t, cursor + 1));
                assert(r@ + occupation_pairs(all, cursor + 2, (left - 1) as nat) =~= before + occupation_pairs(all, cursor as int, left as nat));
            },
            None => {
                assert(before + occupation_pairs(all, cursor + 2, (left - 1) as nat) =~= before + occupation_pairs(all, cursor as int, left as nat));
            },
        }
        cursor = cursor + 2;
        left = left - 1;
    }
    assert(occupation_pairs(all, cursor as int, left as nat) =~= Seq::<(usize, usize)>::empty());
    assert(r@ + Seq::<(usize, usize)>::empty() =~= r@);
    r
}

fn lattice_line_exec(t: &Vec<char>) -> (r: SprLine)
    ensures
        r@ == lattice_line(t@),
{
    let ws = split_ws(t);
    if starts_with_str(t, "SYSDIM") {
        if ws.len() >= 2 { SprLine::Sysdim(text_of(&ws[1])) } else { SprLine::Skip }
    } else if starts_with_str(t, "SYSTYPE") {
        if ws.len() >= 2 { SprLine::Systype(text_of(&ws[1])) } else { SprLine::Skip }
    } else if starts_with_str(t, "BRAVAIS") {
        proof {
            reveal_strlit("BRAVAIS");
            assert(t@[0] == t@.take(7)[0]);
        }
        SprLine::Bravais(join_from(&ws, 1, true))
    } else if starts_with_str(t, "ALAT") {
        SprLine::Alat
    } else if starts_with_str(t, "A(") || (starts_with_str(t, "A") && t.len() > 1 && is_numeric(t[1])) {
        if starts_with_str(t, "A(1)") || starts_with_str(t, "A1") {
            SprLine::LatticeVector(0)
        } else if starts_with_str(t, "A(2)") || starts_with_str(t, "A2") {
            SprLine::LatticeVector(1)
        } else if starts_with_str(t, "A(3)") || starts_with_str(t, "A3") {
            SprLine::LatticeVector(2)
        } else {
            SprLine::Skip
        }
    } else {
        SprLine::Skip
    }
}

fn sites_line_exec(t: &Vec<char>) -> (r: SprLine)
    ensures
        r@ == sites_line(t@),
{
    let ws = split_ws(t);
    if starts_with_str(t, "CARTESIAN") {
        if ws.len() >= 2 {
            let w = &ws[1];
            let cart = is_literal(w, "T") || (w.len() == 4 && ascii_upper_exec(w[0]) == 'T' && ascii_upper_exec(w[1])
                == 'R' && ascii_upper_exec(w[2]) == 'U' && ascii_upper_exec(w[3]) == 'E');
            SprLine::Cartesian(cart)
        } else {
            SprLine::Skip
        }
    } else if starts_with_str(t, "BASSCALE") {
        SprLine::Basscale
    } else if starts_with_str(t, "IQ") || starts_with_str(t, "CART") {
        SprLine::Skip
    } else if ws.len() >= 4 {
        match parse_usize_word(&ws[0]) {
            Some(id) => SprLine::Site(id),
            None => SprLine::Skip,
        }
    } else {
        SprLine::Skip
    }
}

fn occupation_line_exec(t: &Vec<char>) -> (r: SprLine)
    ensures
        r@ == occupation_line(t@),
{
    let ws = split_ws(t);
    if starts_with_str(t, "IQ") {
        SprLine::Skip
    } else if ws.len() >= 4 {
        match (parse_usize_word(&ws[0]), parse_usize_word(&ws[3])) {
            (Some(id), Some(noq)) => SprLine::Occupation(id, occupation_pairs_exec(&ws, noq)),
            _ => SprLine::Skip,
        }
    } else {
        SprLine::Skip
    }
}

fn types_line_exec(t: &Vec<char>) -> (r: SprLine)
    ensures
        r@ == types_line(t@),
{
    let ws = split_ws(t);
    if starts_with_str(t, "IT") {
        SprLine::Skip
    } else if ws.len() >= 3 {
        match (parse_usize_word(&ws[0]), parse_usize_word(&ws[2])) {
            (Some(id), Some(z)) => {
                let el = letters_exec(&ws[1]);
                if el.as_str().unicode_len() > 0 {
                    SprLine::Type(id, el, z)
                } else {
                    SprLine::Skip
                }
            },
            _ => SprLine::Skip,
        }
    } else {
        SprLine::Skip
    }
}

/// Reads one line of an SPR-KKR file in section `sec`: the section after it
/// and what the line contributes.
pub fn sprkkr_line(sec: SprSection, line: &str) -> (r: (SprSection, SprLine))
    ensures
        (r.0, r.1@) == spr_step(sec, line@),
{
    let v = chars_of(line);
    let (i, j) = trim_bounds(&v);
    let t = vec_slice(&v, i, j);
    if t.len() == 0 || starts_with_str(&t, "#") {
        (sec, SprLine::Skip)
    } else if starts_with_str(&t, "*****") {
        (SprSection::Outside, SprLine::Skip)
    } else if starts_with_str(&t, "HEADER") {
        (SprSection::Header, header_quote_exec(&t))
    } else if is_literal(&t, "LATTICE") {
        (SprSection::Lattice, SprLine::Skip)
    } else if is_literal(&t, "SITES") {
        (SprSection::Sites, SprLine::Skip)
    } else if is_literal(&t, "OCCUPATION") {
        (SprSection::Occupation, SprLine::Skip)
    } else if is_literal(&t, "TYPES") {
        (SprSection::Types, SprLine::Skip)
    } else if is_literal(&t, "POTENTIAL") {
        (SprSection::Potential, SprLine::Skip)
    } else {
        let l = match sec {
            SprSection::Header => if starts_with_str(&t, "SYSTEM") {
                let ws = split_ws(&t);
                proof {
                    reveal_strlit("SYSTEM");
                    assert(t@[0] == t@.take(6)[0]);
                }
                SprLine::SystemName(join_from(&ws, 1, false))
            } else {
                SprLine::Skip
            },
            SprSection::Lattice => lattice_line_exec(&t),
            SprSection::Sites => sites_line_exec(&t),
            SprSection::Occupation => occupation_line_exec(&t),
            SprSection::Types => types_line_exec(&t),
            _ => SprLine::Skip,
        };
        (sec, l)
    }
}

/// The formula label of an SPR-KKR import: the system name with the Bravais
/// type in brackets when there is one, or `SPR-KKR Import` without a name.
pub open spec fn sprkkr_label_of(name: Seq<char>, bravais: Seq<char>) -> Seq<char> {
    if name.len() > 0 {
        if bravais.len() > 0 {
            name + " ("@ + bravais + ")"@
        } else {
            name
        }
    } else {
        "SPR-KKR Import"@
    }
}

pub fn sprkkr_label(name: &str, bravais: &str) -> (r: String)
    ensures
        r@ == sprkkr_label_of(name@, bravais@),
{
    let mut r = String::new();
    if name.unicode_len() > 0 {
        push_str(&mut r, name);
        if bravais.unicode_len() > 0 {
            push_str(&mut r, " (");
            push_str(&mut r, bravais);
            push_str(&mut r, ")");
        }
    } else {
        push_str(&mut r, "SPR-KKR Import");
    }
    r
}

/// `true` or `false`, as `{:?}` writes a `bool`.
pub open spec fn bool_text(b: bool) -> Seq<char> {
    if b { "true"@ } else { "false"@ }
}

/// The error for a file that lacks some of the three lattice vectors, which
/// lists which were found.
pub fn missing_vectors_message(found: [bool; 3]) -> (r: String)
    ensures
        r@ == "Missing lattice vectors: ["@ + bool_text(found[0]) + ", "@ + bool_text(found[1]) + ", "@
            + bool_text(found[2]) + "]"@,
{
    let mut r = String::new();
    push_str(&mut r, "Missing lattice vectors: [");
    push_str(&mut r, if found[0] { "true" } else { "false" });
    push_str(&mut r, ", ");
    push_str(&mut r, if found[1] { "true" } else { "false" });
    push_str(&mut r, ", ");
    push_str(&mut r, if found[2] { "true" } else { "false" });
    push_str(&mut r, "]");
    r
}

} // verus!
