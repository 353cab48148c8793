use vstd::prelude::*;

use crate::text::{
    ascii_lower, ascii_lower_exec, ascii_upper, ascii_upper_exec, chars_of, find_ws, first_ws, is_ascii_alpha,
    is_ascii_digit, lemma_run_len, lemma_run_len_bound, push_char, run_len, string_of, trim, trim_bounds,
    vec_slice, push_str, has_infix, has_prefix, contains_str, starts_with_str, split_ws, words, views, string_views, is_ws, trim_start, trim_end,
};

verus! {

/// `s` without any single or double quote characters.
pub open spec fn without_quotes(s: Seq<char>) -> Seq<char>
    decreases s.len(),
{
    if s.len() == 0 {
        s
    } else if s.last() == '\'' || s.last() == '"' {
        without_quotes(s.drop_last())
    } else {
        without_quotes(s.drop_last()).push(s.last())
    }
}

/// Number of commas in `s`.
pub open spec fn comma_count(s: Seq<char>) -> nat
    decreases s.len(),
{
    if s.len() == 0 {
        0
    } else if s.last() == ',' {
        comma_count(s.drop_last()) + 1
    } else {
        comma_count(s.drop_last())
    }
}

pub open spec fn all_digits(s: Seq<char>) -> bool {
    forall|i: int| 0 <= i < s.len() ==> is_ascii_digit(#[trigger] s[i])
}

/// The symmetry operation written on a row of a symmetry-operation loop:
/// quotes are dropped, a leading integer id is skipped, and rows with fewer
/// than two commas hold no operation.
pub open spec fn symop_text(line: Seq<char>) -> Option<Seq<char>> {
    let s = trim(without_quotes(line));
    if comma_count(s) < 2 {
        None
    } else {
        match first_ws(s) {
            Some(e) => if e > 0 && all_digits(s.take(e)) {
                Some(trim(s.skip(e)))
            } else {
                Some(s)
            },
            None => Some(s),
        }
    }
}

fn drop_quotes(v: &Vec<char>) -> (r: Vec<char>)
    ensures
        r@ == without_quotes(v@),
{
    let mut r: Vec<char> = Vec::new();
    let mut i: usize = 0;
    while i < v.len()
        invariant
            i <= v.len(),
            r@ == without_quotes(v@.take(i as int)),
        decreases v.len() - i,
    {
        assert(v@.take(i + 1).drop_last() =~= v@.take(i as int));
        if v[i] != '\'' && v[i] != '"' {
            r.push(v[i]);
        }
        i = i + 1;
    }
    assert(v@.take(i as int) =~= v@);
    r
}

pub(crate) fn count_commas(v: &Vec<char>) -> (r: usize)
    ensures
        r == comma_count(v@),
{
    let mut r: usize = 0;
    let mut i: usize = 0;
    while i < v.len()
        invariant
            i <= v.len(),
            r == comma_count(v@.take(i as int)),
            r <= i,
        decreases v.len() - i,
    {
        assert(v@.take(i + 1).drop_last() =~= v@.take(i as int));
        if v[i] == ',' {
            r = r + 1;
        }
        i = i + 1;
    }
    assert(v@.take(i as int) =~= v@);
    r
}

fn all_digits_in(v: &Vec<char>, from: usize, to: usize) -> (r: bool)
    requires
        from <= to <= v.len(),
    ensures
        r == all_digits(v@.subrange(from as int, to as int)),
{
    let mut k = from;
    while k < to
        invariant
            from <= k <= to <= v.len(),
            forall|j: int| from <= j < k ==> is_ascii_digit(#[trigger] v@[j]),
        decreases to - k,
    {
        if !('0' <= v[k] && v[k] <= '9') {
            assert(!is_ascii_digit(v@.subrange(from as int, to as int)[k - from]));
            return false;
        }
        k = k + 1;
    }
    assert forall|i: int| 0 <= i < to - from implies is_ascii_digit(#[trigger] v@.subrange(from as int, to as int)[i]) by {
        assert(v@.subrange(from as int, to as int)[i] == v@[from + i]);
    }
    true
}

/// The symmetry operation of a data row in a symmetry-operation loop, e.g.
/// `"1 'x, y, z'"` gives `x, y, z`; `None` when the row has fewer than two
/// commas.
pub fn extract_symop_string(line: &str) -> (r: Option<String>)
    ensures
        match r {
            Some(t) => symop_text(line@) == Some(t@),
            None => symop_text(line@) is None,
        },
{
    let raw = chars_of(line);
    let unq = drop_quotes(&raw);
    let (i, j) = trim_bounds(&unq);
    let s = vec_slice(&unq, i, j);
    let ghost sv = trim(without_quotes(line@));
    assert(s@ == sv);
    if count_commas(&s) < 2 {
        return None;
    }
    match find_ws(&s) {
        Some(e) => {
            if e > 0 && all_digits_in(&s, 0, e) {
                let rest = vec_slice(&s, e, s.len());
                let (a, b) = trim_bounds(&rest);
                proof {
                    assert(s@.subrange(0, e as int) =~= s@.take(e as int));
                    assert(rest@ =~= s@.skip(e as int));
                }
                Some(string_of(&rest, a, b))
            } else {
                proof {
                    assert(s@.subrange(0, e as int) =~= s@.take(e as int));
                }
                Some(string_of(&s, 0, s.len()))
            }
        },
        None => {
            assert(s@.subrange(0, s@.len() as int) =~= s@);
            Some(string_of(&s, 0, s.len()))
        },
    }
}

/// The element symbol a CIF names: its leading ASCII letters, at most two of
/// them, in title case ("SI1A" gives "Si", "fe3+" gives "Fe"); "X" when it
/// starts with no letter.
pub open spec fn normalized_element(s: Seq<char>) -> Seq<char> {
    let n = run_len(s, |c: char| is_ascii_alpha(c));
    if n == 0 {
        seq!['X']
    } else if n == 1 {
        seq![ascii_upper(s[0])]
    } else {
        seq![ascii_upper(s[0]), ascii_lower(s[1])]
    }
}

/// What an element symbol is made of: the leading letters of the text, at
/// most two, the first in upper case and the second in lower case, whatever
/// case they were written in; `X` when the text does not start with a
/// letter. Normalizing a normalized symbol changes nothing.
pub proof fn lemma_normalized_element_shape(s: Seq<char>)
    ensures
        ({
            let r = normalized_element(s);
            &&& 1 <= r.len() <= 2
            &&& (s.len() == 0 || !is_ascii_alpha(s[0])) ==> r == seq!['X']
            &&& (s.len() > 0 && is_ascii_alpha(s[0])) ==> {
                &&& 'A' <= r[0] <= 'Z'
                &&& ascii_lower(r[0]) == ascii_lower(s[0])
                &&& (r.len() == 2 <==> (s.len() > 1 && is_ascii_alpha(s[1])))
                &&& r.len() == 2 ==> 'a' <= r[1] <= 'z' && ascii_lower(r[1]) == ascii_lower(s[1])
            }
            &&& normalized_element(r) == r
        }),
{
    let p = |c: char| is_ascii_alpha(c);
    lemma_run_len_bound(s, p);
    let r = normalized_element(s);
    if s.len() > 0 && p(s[0]) {
        assert(run_len(s, p) >= 1);
    }
    if s.len() > 1 && p(s[0]) && p(s[1]) {
        assert(run_len(s, p) >= 2);
    }
    lemma_run_len_bound(r, p);
    if r.len() == 1 {
        assert(p(r[0]));
        lemma_run_len(r, p, 1);
    } else {
        assert(p(r[0]) && p(r[1]));
        lemma_run_len(r, p, 2);
    }
}

fn alpha_run(v: &Vec<char>) -> (n: usize)
    ensures
        n <= v.len(),
        n == run_len(v@, |c: char| is_ascii_alpha(c)),
{
    let mut n: usize = 0;
    while n < v.len() && (('a' <= v[n] && v[n] <= 'z') || ('A' <= v[n] && v[n] <= 'Z'))
        invariant
            n <= v.len(),
            forall|k: int| 0 <= k < n ==> is_ascii_alpha(#[trigger] v@[k]),
        decreases v.len() - n,
    {
        n = n + 1;
    }
    proof {
        let p = |c: char| is_ascii_alpha(c);
        assert forall|k: int| 0 <= k < n implies p(#[trigger] v@[k]) by {}
        lemma_run_len(v@, p, n as int);
    }
    n
}

fn normalized_of(v: &Vec<char>) -> (r: String)
    ensures
        r@ == normalized_element(v@),
{
    let n = alpha_run(v);
    let mut r = String::new();
    if n == 0 {
        push_char(&mut r, 'X');
    } else {
        push_char(&mut r, ascii_upper_exec(v[0]));
        if n > 1 {
            push_char(&mut r, ascii_lower_exec(v[1]));
        }
    }
    proof {
        if n == 0 {
            assert(r@ =~= seq!['X']);
        } else if n == 1 {
            assert(r@ =~= seq![ascii_upper(v@[0])]);
        } else {
            assert(r@ =~= seq![ascii_upper(v@[0]), ascii_lower(v@[1])]);
        }
    }
    r
}

/// Normalize an element string: strip charge or oxidation annotations, keep at
/// most two letters, and write it in title case.
pub fn normalize_element(s: &str) -> (r: String)
    ensures
        r@ == normalized_element(s@),
{
    let v = chars_of(s);
    normalized_of(&v)
}

/// The element of an `_atom_site_label` (its alphabetic prefix, per the IUCr
/// component_0 rule), normalized: "SI1A" gives "Si", "O1B" gives "O".
pub fn element_from_label(label: &str) -> (r: String)
    ensures
        r@ == normalized_element(label@),
{
    let v = chars_of(label);
    let n = alpha_run(&v);
    let prefix = vec_slice(&v, 0, n);
    let r = normalized_of(&prefix);
    proof {
        let p = |c: char| is_ascii_alpha(c);
        lemma_run_len_bound(v@, p);
        assert forall|k: int| 0 <= k < n implies p(#[trigger] prefix@[k]) by {
            assert(prefix@[k] == v@[k]);
        }
        lemma_run_len(prefix@, p, n as int);
    }
    r
}

/// A value given after a tag on the same line, without surrounding quotes:
/// `_space_group_name_H-M_alt 'A 1 2/n 1'` gives `A 1 2/n 1`; `None` when the
/// line has no white space or nothing follows the tag.
pub open spec fn quoted_or_tail(line: Seq<char>) -> Option<Seq<char>> {
    match first_ws(line) {
        None => None,
        Some(w) => {
            let tail = trim(line.skip(w));
            if tail.len() == 0 {
                None
            } else if tail.len() >= 2 && ((tail[0] == '\'' && tail.last() == '\'') || (tail[0] == '"'
                && tail.last() == '"')) {
                Some(tail.subrange(1, tail.len() - 1))
            } else {
                Some(tail)
            }
        },
    }
}

/// The value after the tag on a scalar CIF line, without surrounding quotes.
pub fn extract_quoted_or_tail(line: &str) -> (r: Option<String>)
    ensures
        match r {
            Some(t) => quoted_or_tail(line@) == Some(t@),
            None => quoted_or_tail(line@) is None,
        },
{
    let v = chars_of(line);
    let w = match find_ws(&v) {
        Some(w) => w,
        None => {
            return None;
        },
    };
    let rest = vec_slice(&v, w, v.len());
    assert(rest@ =~= v@.skip(w as int));
    let (a, b) = trim_bounds(&rest);
    let tail = vec_slice(&rest, a, b);
    let n = tail.len();
    if n == 0 {
        return None;
    }
    if n >= 2 && ((tail[0] == '\'' && tail[n - 1] == '\'') || (tail[0] == '"' && tail[n - 1] == '"')) {
        Some(string_of(&tail, 1, n - 1))
    } else {
        Some(string_of(&tail, 0, n))
    }
}

/// The characters of `s` before its first `(`: a CIF number without its
/// standard uncertainty, as in `5.4307(2)`.
pub open spec fn before_paren(s: Seq<char>) -> Seq<char> {
    s.take(run_len(s, |c: char| c != '(') as int)
}

fn paren_run(v: &Vec<char>) -> (n: usize)
    ensures
        n == run_len(v@, |c: char| c != '('),
        n <= v.len(),
{
    let mut n: usize = 0;
    while n < v.len() && v[n] != '('
        invariant
            n <= v.len(),
            forall|k: int| 0 <= k < n ==> #[trigger] v@[k] != '(',
        decreases v.len() - n,
    {
        n = n + 1;
    }
    proof {
        let p = |c: char| c != '(';
        assert forall|k: int| 0 <= k < n implies p(#[trigger] v@[k]) by {}
        lemma_run_len(v@, p, n as int);
    }
    n
}

/// The numeric text of a CIF value: everything before `(`.
pub fn cif_number_text(s: &str) -> (r: String)
    ensures
        r@ == before_paren(s@),
{
    let v = chars_of(s);
    let n = paren_run(&v);
    assert(v@.subrange(0, n as int) =~= v@.take(n as int));
    string_of(&v, 0, n)
}

/// The numeric text on a scalar line such as `_cell_length_a 5.4307(2)`:
/// what follows the first white space, trimmed, before any `(`; `None` when
/// the line has no white space (the value then counts as 0).
pub open spec fn cif_value(line: Seq<char>) -> Option<Seq<char>> {
    match first_ws(line) {
        None => None,
        Some(w) => Some(before_paren(trim(line.skip(w)))),
    }
}

pub fn cif_value_text(line: &Vec<char>) -> (r: Option<String>)
    ensures
        match r {
            Some(t) => cif_value(line@) == Some(t@),
            None => cif_value(line@) is None,
        },
{
    let w = match find_ws(line) {
        Some(w) => w,
        None => {
            return None;
        },
    };
    let rest = vec_slice(line, w, line.len());
    assert(rest@ =~= line@.skip(w as int));
    let (a, b) = trim_bounds(&rest);
    let tail = vec_slice(&rest, a, b);
    let n = paren_run(&tail);
    assert(tail@.subrange(0, n as int) =~= tail@.take(n as int));
    Some(string_of(&tail, 0, n))
}


/// A data row of an atom-site loop: the element and the texts of the three
/// fractional coordinates (without standard uncertainties).
pub struct AtomRow {
    pub element: String,
    pub x: String,
    pub y: String,
    pub z: String,
}

#[verifier::ext_equal]
pub struct AtomRowView {
    pub element: Seq<char>,
    pub x: Seq<char>,
    pub y: Seq<char>,
    pub z: Seq<char>,
}

impl AtomRow {
    pub open spec fn view(&self) -> AtomRowView {
        AtomRowView { element: self.element@, x: self.x@, y: self.y@, z: self.z@ }
    }
}

/// What an atom row has gathered from the columns seen so far: the type
/// symbol, the label and the coordinate texts.
pub struct RowFields {
    pub type_symbol: Option<Seq<char>>,
    pub label: Option<Seq<char>>,
    pub fx: Option<Seq<char>>,
    pub fy: Option<Seq<char>>,
    pub fz: Option<Seq<char>>,
}

pub open spec fn no_fields() -> RowFields {
    RowFields { type_symbol: None, label: None, fx: None, fy: None, fz: None }
}

/// The effect of one column (header `h`, value `v`) on the gathered fields.
/// The type symbol is tested before the label: `_atom_site_label` is a
/// substring of other label-like tags, `_atom_site_type_symbol` is not.
pub open spec fn field_step(f: RowFields, h: Seq<char>, v: Seq<char>) -> RowFields {
    if has_infix(h, "_atom_site_type_symbol"@) {
        RowFields { type_symbol: Some(v), ..f }
    } else if has_infix(h, "_atom_site_label"@) {
        RowFields { label: Some(v), ..f }
    } else if has_infix(h, "_atom_site_fract_x"@) {
        RowFields { fx: Some(before_paren(v)), ..f }
    } else if has_infix(h, "_atom_site_fract_y"@) {
        RowFields { fy: Some(before_paren(v)), ..f }
    } else if has_infix(h, "_atom_site_fract_z"@) {
        RowFields { fz: Some(before_paren(v)), ..f }
    } else {
        f
    }
}

/// Fields gathered from the first `n` columns.
pub open spec fn gathered(hs: Seq<Seq<char>>, ps: Seq<Seq<char>>, n: int) -> RowFields
    decreases n,
{
    if n <= 0 {
        no_fields()
    } else {
        field_step(gathered(hs, ps, n - 1), hs[n - 1], ps[n - 1])
    }
}

/// The atom on a data row of an atom-site loop with headers `hs`: rows with
/// fewer than four words, or without all three fractional coordinates, give
/// none. The element comes from the type symbol when there is one (IUCr
/// precedence), else from the label, else it is "X".
pub open spec fn atom_row(line: Seq<char>, hs: Seq<Seq<char>>) -> Option<AtomRowView> {
    let ps = words(line);
    if ps.len() < 4 {
        None
    } else {
        let n = if hs.len() < ps.len() { hs.len() } else { ps.len() };
        let f = gathered(hs, ps, n as int);
        if f.fx is Some && f.fy is Some && f.fz is Some {
            Some(AtomRowView {
                element: match f.type_symbol {
                    Some(t) => normalized_element(t),
                    None => match f.label {
                        Some(l) => normalized_element(l),
                        None => seq!['X'],
                    },
                },
                x: f.fx->0,
                y: f.fy->0,
                z: f.fz->0,
            })
        } else {
            None
        }
    }
}

/// Parse one data row of an atom-site loop.
pub fn parse_atom_row(line: &str, headers: &Vec<String>) -> (r: Option<AtomRow>)
    ensures
        match r {
            Some(a) => atom_row(line@, headers@.map_values(|h: String| h@)) == Some(a.view()),
            None => atom_row(line@, headers@.map_values(|h: String| h@)) is None,
        },
{
    let ghost hs = headers@.map_values(|h: String| h@);
    let v = chars_of(line);
    let parts = split_ws(&v);
    let ghost ps = words(line@);
    assert(views(parts@) == ps);
    if parts.len() < 4 {
        return None;
    }
    let n = if headers.len() < parts.len() { headers.len() } else { parts.len() };
    let mut type_symbol: Option<usize> = None;
    let mut label: Option<usize> = None;
    let mut fx: Option<usize> = None;
    let mut fy: Option<usize> = None;
    let mut fz: Option<usize> = None;
    let mut i: usize = 0;
    while i < n
        invariant
            i <= n <= headers.len(),
            n <= parts.len(),
            hs == headers@.map_values(|h: String| h@),
            ps == views(parts@),
            ({
                let f = gathered(hs, ps, i as int);
                &&& f.type_symbol == (match type_symbol { Some(k) => Some(ps[k as int]), None => None::<Seq<char>> })
                &&& f.label == (match label { Some(k) => Some(ps[k as int]), None => None::<Seq<char>> })
                &&& f.fx == (match fx { Some(k) => Some(before_paren(ps[k as int])), None => None::<Seq<char>> })
                &&& f.fy == (match fy { Some(k) => Some(before_paren(ps[k as int])), None => None::<Seq<char>> })
                &&& f.fz == (match fz { Some(k) => Some(before_paren(ps[k as int])), None => None::<Seq<char>> })
            }),
            type_symbol matches Some(k) ==> k < n,
            label matches Some(k) ==> k < n,
            fx matches Some(k) ==> k < n,
            fy matches Some(k) ==> k < n,
            fz matches Some(k) ==> k < n,
        decreases n - i,
    {
        let h = chars_of(headers[i].as_str());
        assert(h@ == hs[i as int]);
        if contains_str(&h, "_atom_site_type_symbol") {
            type_symbol = Some(i);
        } else if contains_str(&h, "_atom_site_label") {
            label = Some(i);
        } else if contains_str(&h, "_atom_site_fract_x") {
            fx = Some(i);
        } else if contains_str(&h, "_atom_site_fract_y") {
            fy = Some(i);
        } else if contains_str(&h, "_atom_site_fract_z") {
            fz = Some(i);
        }
        i = i + 1;
    }
    let (kx, ky, kz) = match (fx, fy, fz) {
        (Some(a), Some(b), Some(c)) => (a, b, c),
        _ => {
            return None;
        },
    };
    let element = match type_symbol {
        Some(k) => normalized_of(&parts[k]),
        None => match label {
            Some(k) => normalized_of(&parts[k]),
            None => {
                let mut x = String::new();
                push_char(&mut x, 'X');
                assert(x@ =~= seq!['X']);
                x
            },
        },
    };
    let x = number_text_of(&parts[kx]);
    let y = number_text_of(&parts[ky]);
    let z = number_text_of(&parts[kz]);
    Some(AtomRow { element, x, y, z })
}

fn number_text_of(v: &Vec<char>) -> (r: String)
    ensures
        r@ == before_paren(v@),
{
    let n = paren_run(v);
    assert(v@.subrange(0, n as int) =~= v@.take(n as int));
    string_of(v, 0, n)
}


/// The state of a line-by-line read of a CIF file.
#[verifier::ext_equal]
pub struct CifState {
    /// Inside a `;`-delimited multi-line text field.
    pub in_text: bool,
    /// Inside a `loop_`.
    pub in_loop: bool,
    /// Headers of the current loop.
    pub headers: Seq<Seq<char>>,
    /// Each cell parameter: `None` when its tag has not appeared, else the
    /// numeric text of its last occurrence (`None` inside: no value, read as 0).
    pub a: Option<Option<Seq<char>>>,
    pub b: Option<Option<Seq<char>>>,
    pub c: Option<Option<Seq<char>>>,
    pub alpha: Option<Option<Seq<char>>>,
    pub beta: Option<Option<Seq<char>>>,
    pub gamma: Option<Option<Seq<char>>>,
    /// The first Hermann-Mauguin symbol found.
    pub hm: Option<Seq<char>>,
    /// Symmetry operations, in file order.
    pub symops: Seq<Seq<char>>,
    /// Atom-site rows, in file order.
    pub atoms: Seq<AtomRowView>,
}

pub open spec fn initial_state() -> CifState {
    CifState {
        in_text: false,
        in_loop: false,
        headers: seq![],
        a: None,
        b: None,
        c: None,
        alpha: None,
        beta: None,
        gamma: None,
        hm: None,
        symops: seq![],
        atoms: seq![],
    }
}

/// The current loop lists symmetry operations.
pub open spec fn is_sym_loop(hs: Seq<Seq<char>>) -> bool {
    exists|i: int|
        0 <= i < hs.len() && (has_infix(#[trigger] hs[i], "_symmetry_equiv_pos_as_xyz"@) || has_infix(
            hs[i],
            "_space_group_symop_operation_xyz"@,
        ))
}

/// The current loop lists atom sites.
pub open spec fn is_atom_loop(hs: Seq<Seq<char>>) -> bool {
    exists|i: int| 0 <= i < hs.len() && has_infix(#[trigger] hs[i], "_atom_site_fract_x"@)
}

/// The effect of one line of the file. Per the CIF specification a `;` in
/// the first column opens a multi-line text field and the next such line
/// closes it; nothing in between is read as tags, loops or data.
pub open spec fn step(st: CifState, line: Seq<char>) -> CifState {
    if st.in_text {
        if has_prefix(line, ";"@) {
            CifState { in_text: false, ..st }
        } else {
            st
        }
    } else if has_prefix(line, ";"@) {
        CifState { in_text: true, ..st }
    } else {
        let t = trim(line);
        if t.len() == 0 || has_prefix(t, "#"@) {
            st
        } else if has_prefix(t, "_cell_length_a"@) {
            CifState { a: Some(cif_value(t)), ..st }
        } else if has_prefix(t, "_cell_length_b"@) {
            CifState { b: Some(cif_value(t)), ..st }
        } else if has_prefix(t, "_cell_length_c"@) {
            CifState { c: Some(cif_value(t)), ..st }
        } else if has_prefix(t, "_cell_angle_alpha"@) {
            CifState { alpha: Some(cif_value(t)), ..st }
        } else if has_prefix(t, "_cell_angle_beta"@) {
            CifState { beta: Some(cif_value(t)), ..st }
        } else if has_prefix(t, "_cell_angle_gamma"@) {
            CifState { gamma: Some(cif_value(t)), ..st }
        } else if st.hm is None && (has_prefix(t, "_space_group_name_H-M_alt"@) || has_prefix(
            t,
            "_symmetry_space_group_name_H-M"@,
        )) {
            CifState { hm: quoted_or_tail(t), ..st }
        } else if has_prefix(t, "loop_"@) {
            CifState { in_loop: true, headers: seq![], ..st }
        } else if has_prefix(t, "data_"@) {
            CifState { in_loop: false, headers: seq![], ..st }
        } else if st.in_loop && has_prefix(t, "_"@) {
            CifState { headers: st.headers.push(t), ..st }
        } else if !st.in_loop || has_prefix(t, "_"@) {
            st
        } else if is_sym_loop(st.headers) {
            match symop_text(t) {
                Some(op) => CifState { symops: st.symops.push(op), ..st },
                None => st,
            }
        } else if is_atom_loop(st.headers) {
            match atom_row(t, st.headers) {
                Some(atom) => CifState { atoms: st.atoms.push(atom), ..st },
                None => st,
            }
        } else {
            st
        }
    }
}

/// The state after reading the first `n` of `lines`, starting from `st`.
pub open spec fn run(st: CifState, lines: Seq<Seq<char>>, n: int) -> CifState
    decreases n,
{
    if n <= 0 {
        st
    } else {
        step(run(st, lines, n - 1), lines[n - 1])
    }
}

/// What reading a whole file gathers.
pub open spec fn scan(lines: Seq<Seq<char>>) -> CifState {
    run(initial_state(), lines, lines.len() as int)
}

/// The gathered contents of a CIF file, read line by line.
pub struct CifScan {
    pub in_text: bool,
    pub in_loop: bool,
    pub headers: Vec<String>,
    pub a: Option<Option<String>>,
    pub b: Option<Option<String>>,
    pub c: Option<Option<String>>,
    pub alpha: Option<Option<String>>,
    pub beta: Option<Option<String>>,
    pub gamma: Option<Option<String>>,
    pub hm: Option<String>,
    pub symops: Vec<String>,
    pub atoms: Vec<AtomRow>,
}

pub open spec fn value_view(v: Option<Option<String>>) -> Option<Option<Seq<char>>> {
    match v {
        None => None,
        Some(None) => Some(None),
        Some(Some(t)) => Some(Some(t@)),
    }
}

impl CifScan {
    pub open spec fn view(&self) -> CifState {
        CifState {
            in_text: self.in_text,
            in_loop: self.in_loop,
            headers: string_views(self.headers@),
            a: value_view(self.a),
            b: value_view(self.b),
            c: value_view(self.c),
            alpha: value_view(self.alpha),
            beta: value_view(self.beta),
            gamma: value_view(self.gamma),
            hm: match self.hm {
                Some(t) => Some(t@),
                None => None,
            },
            symops: string_views(self.symops@),
            atoms: self.atoms@.map_values(|a: AtomRow| a.view()),
        }
    }
}

fn cell_value(t: &Vec<char>) -> (r: Option<Option<String>>)
    ensures
        value_view(r) == Some(cif_value(t@)),
{
    let v = cif_value_text(t);
    match v {
        Some(s) => Some(Some(s)),
        None => Some(None),
    }
}

fn headers_contain(headers: &Vec<String>, tag1: &str, tag2: &str) -> (r: bool)
    ensures
        r == exists|i: int|
            0 <= i < headers@.len() && (has_infix(#[trigger] string_views(headers@)[i], tag1@) || has_infix(
                string_views(headers@)[i],
                tag2@,
            )),
{
    let ghost hs = string_views(headers@);
    let mut i: usize = 0;
    while i < headers.len()
        invariant
            i <= headers.len(),
            hs == string_views(headers@),
            forall|j: int| 0 <= j < i ==> !(has_infix(#[trigger] hs[j], tag1@) || has_infix(hs[j], tag2@)),
        decreases headers.len() - i,
    {
        let h = chars_of(headers[i].as_str());
        assert(h@ == hs[i as int]);
        if contains_str(&h, tag1) || contains_str(&h, tag2) {
            return true;
        }
        i = i + 1;
    }
    false
}

/// Reads one line.
fn scan_line(st: &mut CifScan, line: &String)
    ensures
        final(st).view() == step(old(st).view(), line@),
{
    let ghost old_view = st.view();
    let raw = chars_of(line.as_str());
    if st.in_text {
        if starts_with_str(&raw, ";") {
            st.in_text = false;
            assert(st.view() =~= step(old_view, line@));
        }
        return;
    }
    if starts_with_str(&raw, ";") {
        st.in_text = true;
        assert(st.view() =~= step(old_view, line@));
        return;
    }
    let (i, j) = trim_bounds(&raw);
    let t = vec_slice(&raw, i, j);
    if t.len() == 0 || starts_with_str(&t, "#") {
        return;
    }
    if starts_with_str(&t, "_cell_length_a") {
        st.a = cell_value(&t);
        assert(st.view() =~= step(old_view, line@));
        return;
    }
    if starts_with_str(&t, "_cell_length_b") {
        st.b = cell_value(&t);
        assert(st.view() =~= step(old_view, line@));
        return;
    }
    if starts_with_str(&t, "_cell_length_c") {
        st.c = cell_value(&t);
        assert(st.view() =~= step(old_view, line@));
        return;
    }
    if starts_with_str(&t, "_cell_angle_alpha") {
        st.alpha = cell_value(&t);
        assert(st.view() =~= step(old_view, line@));
        return;
    }
    if starts_with_str(&t, "_cell_angle_beta") {
        st.beta = cell_value(&t);
        assert(st.view() =~= step(old_view, line@));
        return;
    }
    if starts_with_str(&t, "_cell_angle_gamma") {
        st.gamma = cell_value(&t);
        assert(st.view() =~= step(old_view, line@));
        return;
    }
    let ts = string_of(&t, 0, t.len());
    assert(t@.subrange(0, t@.len() as int) =~= t@);
    if st.hm.is_none() && (starts_with_str(&t, "_space_group_name_H-M_alt") || starts_with_str(
        &t,
        "_symmetry_space_group_name_H-M",
    )) {
        st.hm = extract_quoted_or_tail(ts.as_str());
        assert(st.view() =~= step(old_view, line@));
        return;
    }
    if starts_with_str(&t, "loop_") {
        st.in_loop = true;
        st.headers = Vec::new();
        assert(st.view() =~= step(old_view, line@));
        return;
    }
    if starts_with_str(&t, "data_") {
        st.in_loop = false;
        st.headers = Vec::new();
        assert(st.view() =~= step(old_view, line@));
        return;
    }
    if st.in_loop && starts_with_str(&t, "_") {
        st.headers.push(ts);
        assert(st.view() =~= step(old_view, line@));
        return;
    }
    if !st.in_loop || starts_with_str(&t, "_") {
        return;
    }
    if headers_contain(&st.headers, "_symmetry_equiv_pos_as_xyz", "_space_group_symop_operation_xyz") {
        if let Some(op) = extract_symop_string(ts.as_str()) {
            st.symops.push(op);
            assert(st.view() =~= step(old_view, line@));
        }
        return;
    }
    if headers_contain(&st.headers, "_atom_site_fract_x", "_atom_site_fract_x") {
        if let Some(atom) = parse_atom_row(ts.as_str(), &st.headers) {
            st.atoms.push(atom);
            assert(st.view() =~= step(old_view, line@));
        }
        return;
    }
}

/// Reads a CIF file, given as its lines, gathering cell parameters, the
/// Hermann-Mauguin symbol, symmetry operations and atom sites.
pub fn scan_cif(lines: &Vec<String>) -> (r: CifScan)
    ensures
        r.view() == scan(string_views(lines@)),
{
    let mut st = CifScan {
        in_text: false,
        in_loop: false,
        headers: Vec::new(),
        a: None,
        b: None,
        c: None,
        alpha: None,
        beta: None,
        gamma: None,
        hm: None,
        symops: Vec::new(),
        atoms: Vec::new(),
    };
    assert(st.view() =~= initial_state());
    let mut i: usize = 0;
    while i < lines.len()
        invariant
            i <= lines.len(),
            st.view() == run(initial_state(), string_views(lines@), i as int),
        decreases lines.len() - i,
    {
        scan_line(&mut st, &lines[i]);
        i = i + 1;
    }
    st
}

/// Inside a multi-line text field, lines that do not start with `;` are
/// skipped without any effect.
pub proof fn lemma_text_field_skipped(st: CifState, lines: Seq<Seq<char>>, n: int)
    requires
        st.in_text,
        0 <= n <= lines.len(),
        forall|i: int| 0 <= i < n ==> !has_prefix(#[trigger] lines[i], ";"@),
    ensures
        run(st, lines, n) == st,
    decreases n,
{
    if n > 0 {
        lemma_text_field_skipped(st, lines, n - 1);
    }
}

/// Once a Hermann-Mauguin symbol has been found it is kept, and symmetry
/// operations and atoms gathered so far are never dropped.
pub proof fn lemma_scan_keeps(st: CifState, lines: Seq<Seq<char>>, n: int)
    requires
        0 <= n <= lines.len(),
    ensures
        st.hm is Some ==> run(st, lines, n).hm == st.hm,
        st.symops.is_prefix_of(run(st, lines, n).symops),
        st.atoms.is_prefix_of(run(st, lines, n).atoms),
    decreases n,
{
    if n > 0 {
        lemma_scan_keeps(st, lines, n - 1);
        let prev = run(st, lines, n - 1);
        assert(prev.symops.is_prefix_of(step(prev, lines[n - 1]).symops));
        assert(prev.atoms.is_prefix_of(step(prev, lines[n - 1]).atoms));
    }
}


/// Centering translations (in sixths of a cell edge) other than (0, 0, 0)
/// implied by the lattice letter that starts a Hermann-Mauguin symbol.
pub open spec fn centering_sixths(letter: char) -> Seq<(u32, u32, u32)> {
    if letter == 'A' {
        seq![(0u32, 3u32, 3u32)]
    } else if letter == 'B' {
        seq![(3u32, 0u32, 3u32)]
    } else if letter == 'C' {
        seq![(3u32, 3u32, 0u32)]
    } else if letter == 'I' {
        seq![(3u32, 3u32, 3u32)]
    } else if letter == 'F' {
        seq![(0u32, 3u32, 3u32), (3u32, 0u32, 3u32), (3u32, 3u32, 0u32)]
    } else if letter == 'R' {
        seq![(4u32, 2u32, 2u32), (2u32, 4u32, 4u32)]
    } else {
        seq![]
    }
}

/// The first character of the trimmed symbol, or a space.
pub open spec fn lattice_letter(hm: Seq<char>) -> char {
    if trim(hm).len() > 0 {
        trim(hm)[0]
    } else {
        ' '
    }
}

/// A component of a centering translation of an A, B, C, I or F lattice:
/// none or half of a cell edge (0 or 3 sixths).
pub open spec fn half_or_none(x: u32) -> bool {
    x == 0 || x == 3
}

/// The translations the lattice letters add: A, B and C one translation by
/// half of the two cell edges that span the named face, leaving the edge
/// of their own name unchanged; I the body centre; F the three face
/// centres, each leaving a different edge unchanged; R the two obverse
/// rhombohedral points (2/3, 1/3, 1/3) and its double; P and any other
/// letter none.
pub proof fn lemma_centering_geometry(letter: char)
    ensures
        (letter == 'A' || letter == 'B' || letter == 'C') ==> centering_sixths(letter).len() == 1 && {
            let t = centering_sixths(letter)[0];
            &&& half_or_none(t.0) && half_or_none(t.1) && half_or_none(t.2)
            &&& (t.0 == 0 <==> letter == 'A')
            &&& (t.1 == 0 <==> letter == 'B')
            &&& (t.2 == 0 <==> letter == 'C')
        },
        letter == 'I' ==> centering_sixths(letter) == seq![(3u32, 3u32, 3u32)],
        letter == 'F' ==> centering_sixths(letter).len() == 3 && forall|k: int|
            0 <= k < 3 ==> {
                let t = #[trigger] centering_sixths(letter)[k];
                &&& half_or_none(t.0) && half_or_none(t.1) && half_or_none(t.2)
                &&& (t.0 == 0 <==> k == 0)
                &&& (t.1 == 0 <==> k == 1)
                &&& (t.2 == 0 <==> k == 2)
            },
        letter == 'R' ==> centering_sixths(letter).len() == 2 && {
            let t = centering_sixths(letter)[0];
            let u = centering_sixths(letter)[1];
            &&& t.1 == t.2 && (t.0 + t.1) % 6 == 0 && t.0 % 2 == 0 && t.1 % 2 == 0 && t.0 != 0 && t.1 != 0
            &&& t.0 < 6 && t.1 < 6
            &&& u.0 == (2 * t.0) % 6 && u.1 == (2 * t.1) % 6 && u.2 == (2 * t.2) % 6
            &&& t.0 == 4
        },
        !(letter == 'A' || letter == 'B' || letter == 'C' || letter == 'I' || letter == 'F' || letter == 'R')
            ==> centering_sixths(letter).len() == 0,
{
}

proof fn lemma_trim_end_keeps_first(s: Seq<char>)
    requires
        s.len() > 0,
        !is_ws(s[0]),
    ensures
        trim_end(s).len() > 0,
        trim_end(s)[0] == s[0],
    decreases s.len(),
{
    if is_ws(s.last()) {
        assert(s.len() > 1);
        assert(s.drop_last()[0] == s[0]);
        lemma_trim_end_keeps_first(s.drop_last());
    }
}

proof fn lemma_trim_start_past_ws(pre: Seq<char>, rest: Seq<char>)
    requires
        forall|k: int| 0 <= k < pre.len() ==> is_ws(#[trigger] pre[k]),
    ensures
        trim_start(pre + rest) == trim_start(rest),
    decreases pre.len(),
{
    if pre.len() > 0 {
        assert((pre + rest).drop_first() =~= pre.drop_first() + rest);
        assert(is_ws(pre[0]));
        assert((pre + rest)[0] == pre[0]);
        lemma_trim_start_past_ws(pre.drop_first(), rest);
    } else {
        assert(pre + rest =~= rest);
    }
}

/// Trimming a text keeps its first character that is not white space as
/// its first character.
pub proof fn lemma_trim_first(pre: Seq<char>, c: char, rest: Seq<char>)
    requires
        forall|k: int| 0 <= k < pre.len() ==> is_ws(#[trigger] pre[k]),
        !is_ws(c),
    ensures
        trim(pre + seq![c] + rest).len() > 0,
        trim(pre + seq![c] + rest)[0] == c,
{
    let s = seq![c] + rest;
    assert(pre + seq![c] + rest =~= pre + s);
    lemma_trim_start_past_ws(pre, s);
    assert(s[0] == c);
    assert(trim_start(s) == s);
    lemma_trim_end_keeps_first(s);
}

/// The lattice letter of a symbol is its first character that is not white
/// space.
pub proof fn lemma_lattice_letter(pre: Seq<char>, c: char, rest: Seq<char>)
    requires
        forall|k: int| 0 <= k < pre.len() ==> is_ws(#[trigger] pre[k]),
        !is_ws(c),
    ensures
        lattice_letter(pre + seq![c] + rest) == c,
{
    let s = seq![c] + rest;
    assert(pre + seq![c] + rest =~= pre + s);
    lemma_trim_start_past_ws(pre, s);
    assert(s[0] == c);
    assert(trim_start(s) == s);
    lemma_trim_end_keeps_first(s);
}

/// The centering translations of the Hermann-Mauguin symbol `hm`, in sixths.
pub fn centering_translations(hm: &str) -> (r: Vec<(u32, u32, u32)>)
    ensures
        r@ == centering_sixths(lattice_letter(hm@)),
{
    let v = chars_of(hm);
    let (i, j) = trim_bounds(&v);
    let first = if i < j { v[i] } else { ' ' };
    let mut r: Vec<(u32, u32, u32)> = Vec::new();
    if first == 'A' {
        r.push((0, 3, 3));
    } else if first == 'B' {
        r.push((3, 0, 3));
    } else if first == 'C' {
        r.push((3, 3, 0));
    } else if first == 'I' {
        r.push((3, 3, 3));
    } else if first == 'F' {
        r.push((0, 3, 3));
        r.push((3, 0, 3));
        r.push((3, 3, 0));
    } else if first == 'R' {
        r.push((4, 2, 2));
        r.push((2, 4, 4));
    }
    assert(r@ =~= centering_sixths(lattice_letter(hm@)));
    r
}

/// How a translation of `n` sixths is written in a symmetry operation: as
/// one of the common fractions, and as `0.000000` for zero.
pub open spec fn sixths_text(n: u32) -> Seq<char> {
    if n == 3 {
        "1/2"@
    } else if n == 2 {
        "1/3"@
    } else if n == 4 {
        "2/3"@
    } else if n == 1 {
        "1/6"@
    } else if n == 5 {
        "5/6"@
    } else {
        "0.000000"@
    }
}

fn push_sixths(s: &mut String, n: u32)
    requires
        n < 6,
    ensures
        final(s)@ == old(s)@ + sixths_text(n),
{
    if n == 3 {
        push_str(s, "1/2");
    } else if n == 2 {
        push_str(s, "1/3");
    } else if n == 4 {
        push_str(s, "2/3");
    } else if n == 1 {
        push_str(s, "1/6");
    } else if n == 5 {
        push_str(s, "5/6");
    } else {
        push_str(s, "0.000000");
    }
}

/// Length of the text before the first comma.
pub open spec fn to_comma(s: Seq<char>) -> int {
    run_len(s, |c: char| c != ',') as int
}

/// The operation `op` followed by the translation `d` (in sixths): each of its
/// three comma-separated expressions, trimmed, gets `+` and the fraction
/// appended. An operation without exactly three expressions is kept as is.
pub open spec fn translated(op: Seq<char>, d: (u32, u32, u32)) -> Seq<char> {
    if comma_count(op) != 2 {
        op
    } else {
        let i = to_comma(op);
        let rest = op.skip(i + 1);
        let j = to_comma(rest);
        trim(op.take(i)) + "+"@ + sixths_text(d.0) + ","@ + trim(rest.take(j)) + "+"@ + sixths_text(d.1) + ","@
            + trim(rest.skip(j + 1)) + "+"@ + sixths_text(d.2)
    }
}

pub(crate) proof fn lemma_comma_count_split(s: Seq<char>, n: int)
    requires
        0 <= n <= s.len(),
    ensures
        comma_count(s) == comma_count(s.take(n)) + comma_count(s.skip(n)),
    decreases s.len(),
{
    if n == s.len() {
        assert(s.take(n) =~= s);
        assert(s.skip(n) =~= Seq::<char>::empty());
    } else {
        lemma_comma_count_split(s.drop_last(), n);
        assert(s.drop_last().take(n) =~= s.take(n));
        assert(s.skip(n).drop_last() =~= s.drop_last().skip(n));
        assert(s.skip(n).last() == s.last());
    }
}

pub(crate) proof fn lemma_no_commas(s: Seq<char>)
    requires
        forall|k: int| 0 <= k < s.len() ==> #[trigger] s[k] != ',',
    ensures
        comma_count(s) == 0,
    decreases s.len(),
{
    if s.len() > 0 {
        lemma_no_commas(s.drop_last());
    }
}

pub(crate) proof fn lemma_to_comma(s: Seq<char>)
    ensures
        0 <= to_comma(s) <= s.len(),
        comma_count(s.take(to_comma(s))) == 0,
        to_comma(s) < s.len() ==> s[to_comma(s)] == ',' && comma_count(s) == 1 + comma_count(s.skip(to_comma(s) + 1)),
        to_comma(s) == s.len() ==> comma_count(s) == 0,
{
    let p = |c: char| c != ',';
    lemma_run_len_bound(s, p);
    let i = to_comma(s);
    assert forall|k: int| 0 <= k < i implies #[trigger] s.take(i)[k] != ',' by {
        assert(p(s[k]));
    }
    lemma_no_commas(s.take(i));
    lemma_comma_count_split(s, i);
    if i < s.len() {
        let t = s.skip(i);
        lemma_comma_count_split(t, 1);
        assert(t[0] == s[i]);
        assert(t.take(1).last() == ',');
        assert(t.take(1).drop_last() =~= Seq::<char>::empty());
        assert(comma_count(Seq::<char>::empty()) == 0);
        assert(comma_count(t.take(1)) == 1);
        assert(t.skip(1) =~= s.skip(i + 1));
    } else {
        assert(s.skip(i) =~= Seq::<char>::empty());
    }
}

pub(crate) fn find_comma(v: &Vec<char>, from: usize) -> (r: usize)
    requires
        from <= v.len(),
    ensures
        r - from == to_comma(v@.skip(from as int)),
        from <= r <= v.len(),
{
    let mut k = from;
    while k < v.len() && v[k] != ','
        invariant
            from <= k <= v.len(),
            forall|j: int| from <= j < k ==> #[trigger] v@[j] != ',',
        decreases v.len() - k,
    {
        k = k + 1;
    }
    proof {
        let t = v@.skip(from as int);
        let p = |c: char| c != ',';
        assert forall|j: int| 0 <= j < k - from implies p(#[trigger] t[j]) by {
            assert(t[j] == v@[from + j]);
        }
        if k < v.len() {
            assert(t[k - from] == v@[k as int]);
        }
        lemma_run_len(t, p, k - from);
    }
    k
}

fn push_part(s: &mut String, v: &Vec<char>, from: usize, to: usize, d: u32)
    requires
        from <= to <= v.len(),
        d < 6,
    ensures
        final(s)@ == old(s)@ + (trim(v@.subrange(from as int, to as int)) + "+"@ + sixths_text(d)),
{
    let part = vec_slice(v, from, to);
    let (a, b) = trim_bounds(&part);
    let t = string_of(&part, a, b);
    let ghost s0 = s@;
    push_str(s, t.as_str());
    push_str(s, "+");
    push_sixths(s, d);
    assert(s@ =~= s0 + (trim(v@.subrange(from as int, to as int)) + "+"@ + sixths_text(d)));
}

proof fn lemma_translated_parts(op: Seq<char>, i: int, j: int, d: (u32, u32, u32))
    requires
        comma_count(op) == 2,
        i == to_comma(op),
        i < op.len(),
        j - (i + 1) == to_comma(op.skip(i + 1)),
    ensures
        i + 1 <= j < op.len(),
        translated(op, d) == trim(op.subrange(0, i)) + "+"@ + sixths_text(d.0) + ","@ + (trim(op.subrange(i + 1, j))
            + "+"@ + sixths_text(d.1)) + ","@ + (trim(op.subrange(j + 1, op.len() as int)) + "+"@ + sixths_text(d.2)),
{
    let rest = op.skip(i + 1);
    lemma_to_comma(op);
    lemma_to_comma(rest);
    assert(op.subrange(0, i) =~= op.take(i));
    assert(op.subrange(i + 1, j) =~= rest.take(j - i - 1));
    assert(op.subrange(j + 1, op.len() as int) =~= rest.skip(j - i));
    let t = trim(op.subrange(0, i)) + "+"@ + sixths_text(d.0) + ","@ + (trim(op.subrange(i + 1, j)) + "+"@
        + sixths_text(d.1)) + ","@ + (trim(op.subrange(j + 1, op.len() as int)) + "+"@ + sixths_text(d.2));
    assert(translated(op, d) =~= t);
}

/// The symmetry operation `op` followed by the translation `(dx, dy, dz)`
/// (in sixths).
pub fn translated_op(op: &str, dx: u32, dy: u32, dz: u32) -> (r: String)
    requires
        dx < 6,
        dy < 6,
        dz < 6,
    ensures
        r@ == translated(op@, (dx, dy, dz)),
{
    let v = chars_of(op);
    if count_commas(&v) != 2 {
        let r = string_of(&v, 0, v.len());
        assert(v@.subrange(0, v@.len() as int) =~= v@);
        return r;
    }
    let i = find_comma(&v, 0);
    proof {
        assert(v@.skip(0) =~= v@);
        lemma_to_comma(v@);
        assert(i < v.len());
    }
    let j = find_comma(&v, i + 1);
    proof {
        lemma_translated_parts(v@, i as int, j as int, (dx, dy, dz));
    }
    let ghost p0 = trim(v@.subrange(0, i as int)) + "+"@ + sixths_text(dx);
    let ghost p1 = trim(v@.subrange(i + 1, j as int)) + "+"@ + sixths_text(dy);
    let ghost p2 = trim(v@.subrange(j + 1, v@.len() as int)) + "+"@ + sixths_text(dz);
    let mut r = String::new();
    push_part(&mut r, &v, 0, i, dx);
    push_str(&mut r, ",");
    push_part(&mut r, &v, i + 1, j, dy);
    push_str(&mut r, ",");
    push_part(&mut r, &v, j + 1, v.len(), dz);
    assert(r@ =~= p0 + ","@ + p1 + ","@ + p2);
    assert(translated(op@, (dx, dy, dz)) =~= p0 + ","@ + p1 + ","@ + p2);
    r
}


/// The operations that centering adds: for each translation in turn, every
/// operation of `prim` followed by that translation.
pub open spec fn centered_ops(prim: Seq<Seq<char>>, cents: Seq<(u32, u32, u32)>) -> Seq<Seq<char>>
    decreases cents.len(),
{
    if cents.len() == 0 {
        seq![]
    } else {
        centered_ops(prim, cents.drop_last()) + prim.map_values(|op: Seq<char>| translated(op, cents.last()))
    }
}

pub open spec fn sixths_ok(cents: Seq<(u32, u32, u32)>) -> bool {
    forall|k: int| 0 <= k < cents.len() ==> (#[trigger] cents[k]).0 < 6 && cents[k].1 < 6 && cents[k].2 < 6
}

/// Adds the centering translations `cents` to the operations `ops`.
pub fn append_centering(ops: &mut Vec<String>, cents: &Vec<(u32, u32, u32)>)
    requires
        sixths_ok(cents@),
    ensures
        string_views(final(ops)@) == string_views(old(ops)@) + centered_ops(string_views(old(ops)@), cents@),
{
    let prim = ops.clone();
    let ghost p = string_views(prim@);
    assert(p == string_views(old(ops)@));
    let mut c: usize = 0;
    while c < cents.len()
        invariant
            c <= cents.len(),
            sixths_ok(cents@),
            p == string_views(prim@),
            string_views(ops@) == p + centered_ops(p, cents@.take(c as int)),
        decreases cents.len() - c,
    {
        let (dx, dy, dz) = cents[c];
        assert(cents@[c as int].0 < 6);
        let ghost before = string_views(ops@);
        let mut k: usize = 0;
        while k < prim.len()
            invariant
                c < cents.len(),
                k <= prim.len(),
                dx < 6 && dy < 6 && dz < 6,
                (dx, dy, dz) == cents@[c as int],
                p == string_views(prim@),
                string_views(ops@) == before + p.take(k as int).map_values(|op: Seq<char>| translated(op, (dx, dy, dz))),
            decreases prim.len() - k,
        {
            let t = translated_op(prim[k].as_str(), dx, dy, dz);
            let ghost prev = string_views(ops@);
            ops.push(t);
            assert(string_views(ops@) =~= prev.push(t@));
            assert(p.take(k + 1).map_values(|op: Seq<char>| translated(op, (dx, dy, dz))) =~= p.take(k as int).map_values(
                |op: Seq<char>| translated(op, (dx, dy, dz)),
            ).push(translated(p[k as int], (dx, dy, dz))));
            k = k + 1;
        }
        assert(p.take(k as int) =~= p);
        assert(cents@.take(c + 1).drop_last() =~= cents@.take(c as int));
        assert(string_views(ops@) =~= p + centered_ops(p, cents@.take(c + 1)));
        c = c + 1;
    }
    assert(cents@.take(c as int) =~= cents@);
}

/// The operations to apply: those listed, or the identity when the file
/// lists none.
pub fn symops_or_identity(ops: &mut Vec<String>)
    ensures
        old(ops)@.len() > 0 ==> final(ops)@ == old(ops)@,
        old(ops)@.len() == 0 ==> string_views(final(ops)@) == seq!["x,y,z"@],
{
    if ops.len() == 0 {
        ops.push(String::from_str("x,y,z"));
        assert(string_views(ops@) =~= seq!["x,y,z"@]);
    }
}

} // verus!
