use vstd::prelude::*;

use crate::cif::{
    comma_count, count_commas, find_comma, lemma_comma_count_split, lemma_no_commas, lemma_to_comma, sixths_text,
    to_comma, translated,
};
use crate::text::{
    ascii_lower, ascii_lower_exec, chars_of, is_ws, lemma_run_len, run_len, string_of, trim, trim_end, trim_start,
};

verus! {

/// A constant term of one coordinate of a symmetry operation, as written:
/// its sign, and the text of its number, or of the numerator and the
/// denominator of a fraction.
pub struct SymConstant {
    pub negative: bool,
    pub numerator: String,
    pub denominator: Option<String>,
}

pub struct SymConstantView {
    pub negative: bool,
    pub numerator: Seq<char>,
    pub denominator: Option<Seq<char>>,
}

impl SymConstant {
    pub open spec fn view(&self) -> SymConstantView {
        SymConstantView {
            negative: self.negative,
            numerator: self.numerator@,
            denominator: match self.denominator {
                Some(d) => Some(d@),
                None => None,
            },
        }
    }
}

/// One coordinate of a symmetry operation: the signed number of times each
/// of x, y and z enters it, and its constant terms in order.
pub struct SymAxis {
    pub x: i64,
    pub y: i64,
    pub z: i64,
    pub constants: Vec<SymConstant>,
}

pub struct SymAxisView {
    pub coeffs: (int, int, int),
    pub constants: Seq<SymConstantView>,
}

impl SymAxis {
    pub open spec fn view(&self) -> SymAxisView {
        SymAxisView {
            coeffs: (self.x as int, self.y as int, self.z as int),
            constants: self.constants@.map_values(|c: SymConstant| c.view()),
        }
    }
}

/// The terms read so far from the characters `p` of one coordinate, and the
/// term still open: spaces are dropped, letters taken in lower case, and a
/// `+` or `-` after some character of the open term starts a new term.
pub open spec fn split_terms(p: Seq<char>) -> (Seq<Seq<char>>, Seq<char>)
    decreases p.len(),
{
    if p.len() == 0 {
        (seq![], seq![])
    } else {
        let prev = split_terms(p.drop_last());
        let c = p.last();
        if c == ' ' {
            prev
        } else if (c == '+' || c == '-') && prev.1.len() > 0 {
            (prev.0.push(prev.1), seq![c])
        } else {
            (prev.0, prev.1.push(ascii_lower(c)))
        }
    }
}

/// The terms of one coordinate.
pub open spec fn terms_of(p: Seq<char>) -> Seq<Seq<char>> {
    let s = split_terms(p);
    if s.1.len() > 0 {
        s.0.push(s.1)
    } else {
        s.0
    }
}

pub open spec fn term_negative(t: Seq<char>) -> bool {
    t.len() > 0 && t[0] == '-'
}

/// A term without its leading sign.
pub open spec fn term_body(t: Seq<char>) -> Seq<char> {
    if t.len() > 0 && (t[0] == '-' || t[0] == '+') {
        t.drop_first()
    } else {
        t
    }
}

/// The variable of a term: 0, 1 or 2 for a term that holds `x`, else `y`,
/// else `z`; 3 for a constant.
pub open spec fn term_axis(t: Seq<char>) -> int {
    let b = term_body(t);
    if b.contains('x') {
        0
    } else if b.contains('y') {
        1
    } else if b.contains('z') {
        2
    } else {
        3
    }
}

pub open spec fn to_slash(b: Seq<char>) -> int {
    run_len(b, |c: char| c != '/') as int
}

/// A constant term: split at its first `/` into numerator and denominator.
pub open spec fn term_constant(t: Seq<char>) -> SymConstantView {
    let b = term_body(t);
    let i = to_slash(b);
    if i < b.len() {
        SymConstantView { negative: term_negative(t), numerator: b.take(i), denominator: Some(b.skip(i + 1)) }
    } else {
        SymConstantView { negative: term_negative(t), numerator: b, denominator: None }
    }
}

/// The signed number of terms in `ts` that are the variable `a`.
pub open spec fn coeff(ts: Seq<Seq<char>>, a: int) -> int
    decreases ts.len(),
{
    if ts.len() == 0 {
        0
    } else {
        coeff(ts.drop_last(), a) + if term_axis(ts.last()) == a {
            if term_negative(ts.last()) {
                -1int
            } else {
                1int
            }
        } else {
            0int
        }
    }
}

/// The constant terms of `ts`, in order.
pub open spec fn constants(ts: Seq<Seq<char>>) -> Seq<SymConstantView>
    decreases ts.len(),
{
    if ts.len() == 0 {
        seq![]
    } else if term_axis(ts.last()) == 3 {
        constants(ts.drop_last()).push(term_constant(ts.last()))
    } else {
        constants(ts.drop_last())
    }
}

pub open spec fn axis_view(ts: Seq<Seq<char>>) -> SymAxisView {
    SymAxisView { coeffs: (coeff(ts, 0), coeff(ts, 1), coeff(ts, 2)), constants: constants(ts) }
}

/// One coordinate of a symmetry operation, read from its text.
pub open spec fn axis_of(p: Seq<char>) -> SymAxisView {
    axis_view(terms_of(p))
}

/// A symmetry operation such as `-x+1/2,y,z`: its three comma-separated
/// coordinates, or `None` when it has not exactly three (such an operation
/// leaves a position as it is).
pub open spec fn symop(op: Seq<char>) -> Option<(SymAxisView, SymAxisView, SymAxisView)> {
    if comma_count(op) != 2 {
        None
    } else {
        let i = to_comma(op);
        let rest = op.skip(i + 1);
        let j = to_comma(rest);
        Some((axis_of(op.take(i)), axis_of(rest.take(j)), axis_of(rest.skip(j + 1))))
    }
}

proof fn lemma_coeff_bound(ts: Seq<Seq<char>>, a: int)
    ensures
        -ts.len() <= coeff(ts, a) <= ts.len(),
    decreases ts.len(),
{
    if ts.len() > 0 {
        lemma_coeff_bound(ts.drop_last(), a);
    }
}

fn has_char(t: &Vec<char>, from: usize, c: char) -> (r: bool)
    requires
        from <= t.len(),
    ensures
        r == t@.skip(from as int).contains(c),
{
    let mut k = from;
    while k < t.len()
        invariant
            from <= k <= t.len(),
            forall|j: int| from <= j < k ==> #[trigger] t@[j] != c,
        decreases t.len() - k,
    {
        if t[k] == c {
            assert(t@.skip(from as int)[k - from] == c);
            return true;
        }
        k = k + 1;
    }
    proof {
        let s = t@.skip(from as int);
        assert forall|j: int| 0 <= j < s.len() implies s[j] != c by {
            assert(s[j] == t@[from + j]);
        }
    }
    false
}

fn find_slash(v: &Vec<char>, from: usize) -> (r: usize)
    requires
        from <= v.len(),
    ensures
        r - from == to_slash(v@.skip(from as int)),
        from <= r <= v.len(),
{
    let mut k = from;
    while k < v.len() && v[k] != '/'
        invariant
            from <= k <= v.len(),
            forall|j: int| from <= j < k ==> #[trigger] v@[j] != '/',
        decreases v.len() - k,
    {
        k = k + 1;
    }
    proof {
        let t = v@.skip(from as int);
        let p = |c: char| c != '/';
        assert forall|j: int| 0 <= j < k - from implies p(#[trigger] t[j]) by {
            assert(t[j] == v@[from + j]);
        }
        if k < v.len() {
            assert(t[k - from] == v@[k as int]);
        }
        lemma_run_len(t, p, k - from);
    }
    k
}

fn body_start(t: &Vec<char>) -> (s: usize)
    ensures
        s <= t.len(),
        term_body(t@) == t@.skip(s as int),
{
    if t.len() > 0 && (t[0] == '-' || t[0] == '+') {
        1
    } else {
        assert(t@.skip(0) =~= t@);
        0
    }
}

fn term_const(t: &Vec<char>) -> (r: SymConstant)
    ensures
        r.view() == term_constant(t@),
{
    let neg = t.len() > 0 && t[0] == '-';
    let s = body_start(t);
    let i = find_slash(t, s);
    let ghost b = t@.skip(s as int);
    if i < t.len() {
        assert(b.take(i - s) =~= t@.subrange(s as int, i as int));
        assert(b.skip(i - s + 1) =~= t@.subrange(i + 1, t@.len() as int));
        SymConstant { negative: neg, numerator: string_of(t, s, i), denominator: Some(string_of(t, i + 1, t.len())) }
    } else {
        assert(b =~= t@.subrange(s as int, t@.len() as int));
        SymConstant { negative: neg, numerator: string_of(t, s, t.len()), denominator: None }
    }
}

fn add_term(acc: &mut SymAxis, t: &Vec<char>, Ghost(done): Ghost<Seq<Seq<char>>>)
    requires
        old(acc).view() == axis_view(done),
        done.len() < i64::MAX,
    ensures
        final(acc).view() == axis_view(done.push(t@)),
{
    let ghost ts = done.push(t@);
    proof {
        assert(ts.drop_last() =~= done);
        lemma_coeff_bound(done, 0);
        lemma_coeff_bound(done, 1);
        lemma_coeff_bound(done, 2);
    }
    let neg = t.len() > 0 && t[0] == '-';
    let s = body_start(t);
    let d: i64 = if neg { -1 } else { 1 };
    if has_char(t, s, 'x') {
        acc.x = acc.x + d;
    } else if has_char(t, s, 'y') {
        acc.y = acc.y + d;
    } else if has_char(t, s, 'z') {
        acc.z = acc.z + d;
    } else {
        let c = term_const(t);
        let ghost before = acc.constants@;
        acc.constants.push(c);
        assert(acc.constants@.map_values(|c: SymConstant| c.view()) =~= before.map_values(
            |c: SymConstant| c.view(),
        ).push(term_constant(t@)));
    }
    assert(final(acc).view().constants =~= constants(ts)) by {
        assert(acc.constants@.map_values(|c: SymConstant| c.view()) =~= constants(ts));
    }
}

/// One coordinate `v[from..to]` of a symmetry operation.
fn parse_axis(v: &Vec<char>, from: usize, to: usize) -> (r: SymAxis)
    requires
        from <= to <= v.len(),
        v.len() <= i64::MAX,
    ensures
        r.view() == axis_of(v@.subrange(from as int, to as int)),
{
    let ghost p = v@.subrange(from as int, to as int);
    let mut acc = SymAxis { x: 0, y: 0, z: 0, constants: Vec::new() };
    let mut cur: Vec<char> = Vec::new();
    let ghost mut done: Seq<Seq<char>> = seq![];
    let mut k = from;
    proof {
        assert(p.take(0) =~= Seq::<char>::empty());
        assert(acc.view().constants =~= constants(done));
    }
    while k < to
        invariant
            from <= k <= to <= v.len(),
            v.len() <= i64::MAX,
            p == v@.subrange(from as int, to as int),
            split_terms(p.take(k - from)) == (done, cur@),
            acc.view() == axis_view(done),
            done.len() + (if cur@.len() > 0 { 1int } else { 0int }) <= k - from,
        decreases to - k,
    {
        let c = v[k];
        proof {
            assert(p.take(k + 1 - from).drop_last() =~= p.take(k - from));
            assert(p.take(k + 1 - from).last() == c);
        }
        if c == ' ' {
        } else if (c == '+' || c == '-') && cur.len() > 0 {
            add_term(&mut acc, &cur, Ghost(done));
            proof {
                done = done.push(cur@);
            }
            cur = Vec::new();
            cur.push(c);
            assert(cur@ =~= seq![c]);
        } else {
            cur.push(ascii_lower_exec(c));
        }
        k = k + 1;
    }
    assert(p.take(to - from) =~= p);
    if cur.len() > 0 {
        add_term(&mut acc, &cur, Ghost(done));
    }
    acc
}

/// Reads a symmetry operation such as `-x+1/2,y,z`: for each of its three
/// coordinates, the signed count of each of x, y and z and the constant
/// terms as written. Spaces are ignored and letters read in any case. `None`
/// when the operation has not exactly three coordinates.
pub fn parse_symop(op: &str) -> (r: Option<(SymAxis, SymAxis, SymAxis)>)
    requires
        op@.len() <= i64::MAX,
    ensures
        match r {
            None => symop(op@) is None,
            Some(t) => symop(op@) == Some((t.0.view(), t.1.view(), t.2.view())),
        },
{
    let v = chars_of(op);
    if count_commas(&v) != 2 {
        return None;
    }
    let i = find_comma(&v, 0);
    proof {
        assert(v@.skip(0) =~= v@);
        lemma_to_comma(v@);
    }
    let j = find_comma(&v, i + 1);
    proof {
        let rest = v@.skip(i + 1);
        lemma_to_comma(rest);
        assert(v@.subrange(0, i as int) =~= v@.take(i as int));
        assert(v@.subrange(i + 1, j as int) =~= rest.take(j - i - 1));
        assert(v@.subrange(j + 1, v@.len() as int) =~= rest.skip(j - i));
    }
    let a = parse_axis(&v, 0, i);
    let b = parse_axis(&v, i + 1, j);
    let c = parse_axis(&v, j + 1, v.len());
    Some((a, b, c))
}

/// Every white-space character of `s` is a plain space.
pub open spec fn spaces_only(s: Seq<char>) -> bool {
    forall|k: int| 0 <= k < s.len() && is_ws(#[trigger] s[k]) ==> s[k] == ' '
}

proof fn lemma_split_spaces_suffix(s: Seq<char>, sp: Seq<char>)
    requires
        forall|k: int| 0 <= k < sp.len() ==> #[trigger] sp[k] == ' ',
    ensures
        split_terms(s + sp) == split_terms(s),
    decreases sp.len(),
{
    if sp.len() == 0 {
        assert(s + sp =~= s);
    } else {
        assert((s + sp).drop_last() =~= s + sp.drop_last());
        assert((s + sp).last() == sp.last());
        lemma_split_spaces_suffix(s, sp.drop_last());
    }
}

proof fn lemma_split_spaces_prefix(sp: Seq<char>, s: Seq<char>)
    requires
        forall|k: int| 0 <= k < sp.len() ==> #[trigger] sp[k] == ' ',
    ensures
        split_terms(sp + s) == split_terms(s),
    decreases s.len(),
{
    if s.len() == 0 {
        assert(sp + s =~= Seq::<char>::empty() + sp);
        lemma_split_spaces_suffix(Seq::<char>::empty(), sp);
    } else {
        assert((sp + s).drop_last() =~= sp + s.drop_last());
        assert((sp + s).last() == s.last());
        lemma_split_spaces_prefix(sp, s.drop_last());
    }
}

proof fn lemma_trim_start_skip_ws(s: Seq<char>) -> (k: int)
    ensures
        0 <= k <= s.len(),
        trim_start(s) == s.skip(k),
        forall|i: int| 0 <= i < k ==> is_ws(#[trigger] s[i]),
    decreases s.len(),
{
    if s.len() > 0 && is_ws(s[0]) {
        let k1 = lemma_trim_start_skip_ws(s.drop_first());
        assert(s.drop_first().skip(k1) =~= s.skip(k1 + 1));
        assert forall|i: int| 0 <= i < k1 + 1 implies is_ws(#[trigger] s[i]) by {
            if i > 0 {
                assert(s[i] == s.drop_first()[i - 1]);
            }
        }
        k1 + 1
    } else {
        assert(s.skip(0) =~= s);
        0
    }
}

proof fn lemma_trim_end_take_ws(s: Seq<char>) -> (k: int)
    ensures
        0 <= k <= s.len(),
        trim_end(s) == s.take(k),
        forall|i: int| k <= i < s.len() ==> is_ws(#[trigger] s[i]),
    decreases s.len(),
{
    if s.len() > 0 && is_ws(s.last()) {
        let k1 = lemma_trim_end_take_ws(s.drop_last());
        assert(s.drop_last().take(k1) =~= s.take(k1));
        assert forall|i: int| k1 <= i < s.len() implies is_ws(#[trigger] s[i]) by {
            if i < s.len() - 1 {
                assert(s[i] == s.drop_last()[i]);
            }
        }
        k1
    } else {
        assert(s.take(s.len() as int) =~= s);
        s.len() as int
    }
}

/// Trimming a coordinate whose only white space is plain spaces does not
/// change its terms.
proof fn lemma_trim_same_terms(p: Seq<char>)
    requires
        spaces_only(p),
    ensures
        split_terms(trim(p)) == split_terms(p),
{
    let i = lemma_trim_start_skip_ws(p);
    let t = p.skip(i);
    let j = lemma_trim_end_take_ws(t);
    let a = p.take(i);
    let b = t.skip(j);
    assert forall|k: int| 0 <= k < a.len() implies #[trigger] a[k] == ' ' by {
        assert(a[k] == p[k]);
    }
    assert forall|k: int| 0 <= k < b.len() implies #[trigger] b[k] == ' ' by {
        assert(b[k] == t[j + k]);
        assert(t[j + k] == p[i + j + k]);
    }
    assert(p =~= a + (t.take(j) + b));
    lemma_split_spaces_prefix(a, t.take(j) + b);
    lemma_split_spaces_suffix(t.take(j), b);
}

/// A character that never starts, ends or changes a term: not a space or a
/// sign, and its own lower case.
pub open spec fn plain_char(c: char) -> bool {
    c != ' ' && c != '+' && c != '-' && ascii_lower(c) == c
}

proof fn lemma_split_plain(y: Seq<char>, f: Seq<char>)
    requires
        forall|k: int| 0 <= k < f.len() ==> plain_char(#[trigger] f[k]),
    ensures
        split_terms(y + f) == (split_terms(y).0, split_terms(y).1 + f),
    decreases f.len(),
{
    if f.len() == 0 {
        assert(y + f =~= y);
        assert(split_terms(y).1 + f =~= split_terms(y).1);
    } else {
        assert((y + f).drop_last() =~= y + f.drop_last());
        assert((y + f).last() == f.last());
        assert(plain_char(f[f.len() - 1]));
        lemma_split_plain(y, f.drop_last());
        assert((split_terms(y).1 + f.drop_last()).push(f.last()) =~= split_terms(y).1 + f);
    }
}

/// Appending `+` and then plain characters closes the open term and adds
/// them as one new term.
proof fn lemma_terms_append_signed(y: Seq<char>, f: Seq<char>)
    requires
        forall|k: int| 0 <= k < f.len() ==> plain_char(#[trigger] f[k]),
    ensures
        terms_of(y + (seq!['+'] + f)) == terms_of(y).push(seq!['+'] + f),
{
    let y1 = y.push('+');
    assert(y1.drop_last() =~= y);
    assert(split_terms(y1) == (terms_of(y), seq!['+']));
    lemma_split_plain(y1, f);
    assert(y + (seq!['+'] + f) =~= y1 + f);
}

/// The characters of the translation texts are digits, `/` and `.`.
proof fn lemma_sixths_plain(n: u32)
    ensures
        forall|k: int|
            0 <= k < sixths_text(n).len() ==> {
                let c = #[trigger] sixths_text(n)[k];
                ('0' <= c && c <= '9') || c == '/' || c == '.'
            },
{
    reveal_strlit("1/2");
    reveal_strlit("1/3");
    reveal_strlit("2/3");
    reveal_strlit("1/6");
    reveal_strlit("5/6");
    reveal_strlit("0.000000");
}

/// A coordinate with the constant term `t` added at its end.
pub open spec fn with_constant(a: SymAxisView, t: Seq<char>) -> SymAxisView {
    SymAxisView { coeffs: a.coeffs, constants: a.constants.push(term_constant(t)) }
}

/// One coordinate of a translated operation reads as the coordinate it was
/// made from, with the translation added as one more constant term.
proof fn lemma_translated_part(p: Seq<char>, n: u32)
    requires
        spaces_only(p),
    ensures
        axis_of(trim(p) + "+"@ + sixths_text(n)) == with_constant(axis_of(p), "+"@ + sixths_text(n)),
{
    let f = sixths_text(n);
    lemma_sixths_plain(n);
    assert forall|k: int| 0 <= k < f.len() implies plain_char(#[trigger] f[k]) by {
        assert(('0' <= f[k] && f[k] <= '9') || f[k] == '/' || f[k] == '.');
    }
    reveal_strlit("+");
    let t = seq!['+'] + f;
    assert("+"@ + f =~= t);
    assert(trim(p) + "+"@ + f =~= trim(p) + t);
    lemma_trim_same_terms(p);
    lemma_terms_append_signed(trim(p), f);
    assert(terms_of(trim(p)) == terms_of(p));
    let ts = terms_of(p);
    assert(term_body(t) =~= f);
    assert(!f.contains('x') && !f.contains('y') && !f.contains('z')) by {
        assert forall|k: int| 0 <= k < f.len() implies f[k] != 'x' && f[k] != 'y' && f[k] != 'z' by {
            assert(('0' <= f[k] && f[k] <= '9') || f[k] == '/' || f[k] == '.');
        }
    }
    assert(term_axis(t) == 3);
    assert(ts.push(t).drop_last() =~= ts);
    assert(axis_view(ts.push(t)) == with_constant(axis_view(ts), t));
}

proof fn lemma_zero_commas(a: Seq<char>)
    requires
        comma_count(a) == 0,
    ensures
        forall|k: int| 0 <= k < a.len() ==> #[trigger] a[k] != ',',
    decreases a.len(),
{
    if a.len() > 0 {
        lemma_zero_commas(a.drop_last());
        assert forall|k: int| 0 <= k < a.len() implies #[trigger] a[k] != ',' by {
            if k < a.len() - 1 {
                assert(a[k] == a.drop_last()[k]);
            }
        }
    }
}

proof fn lemma_comma_after(a: Seq<char>, b: Seq<char>)
    requires
        comma_count(a) == 0,
    ensures
        to_comma(a + ","@ + b) == a.len(),
        comma_count(a + ","@ + b) == 1 + comma_count(b),
        (a + ","@ + b).take(a.len() as int) == a,
        (a + ","@ + b).skip(a.len() + 1int) == b,
{
    reveal_strlit(",");
    let s = a + ","@ + b;
    lemma_zero_commas(a);
    let p = |c: char| c != ',';
    assert forall|k: int| 0 <= k < a.len() implies p(#[trigger] s[k]) by {
        assert(s[k] == a[k]);
    }
    assert(s[a.len() as int] == ',');
    lemma_run_len(s, p, a.len() as int);
    lemma_comma_count_split(s, a.len() + 1int);
    assert(s.take(a.len() + 1int).drop_last() =~= a);
    assert(s.take(a.len() as int) =~= a);
    assert(s.skip(a.len() + 1int) =~= b);
}

/// The characters of the trimmed `p` are characters of `p`.
proof fn lemma_trim_within(p: Seq<char>)
    ensures
        forall|k: int| 0 <= k < trim(p).len() ==> exists|m: int| 0 <= m < p.len() && #[trigger] trim(p)[k] == p[m],
{
    let i = lemma_trim_start_skip_ws(p);
    let t = p.skip(i);
    let j = lemma_trim_end_take_ws(t);
    assert forall|k: int| 0 <= k < trim(p).len() implies exists|m: int| 0 <= m < p.len() && #[trigger] trim(p)[k] == p[m] by {
        assert(trim(p)[k] == p[i + k]);
    }
}

/// A part of an operation after translation has no comma.
proof fn lemma_part_no_commas(p: Seq<char>, n: u32)
    requires
        comma_count(p) == 0,
    ensures
        comma_count(trim(p) + "+"@ + sixths_text(n)) == 0,
{
    reveal_strlit("+");
    lemma_zero_commas(p);
    lemma_trim_within(p);
    lemma_sixths_plain(n);
    let q = trim(p) + "+"@ + sixths_text(n);
    assert forall|k: int| 0 <= k < q.len() implies #[trigger] q[k] != ',' by {
        if k < trim(p).len() {
            assert(q[k] == trim(p)[k]);
        } else if k == trim(p).len() {
            assert(q[k] == '+');
        } else {
            assert(q[k] == sixths_text(n)[k - trim(p).len() - 1]);
        }
    }
    lemma_no_commas(q);
}

/// The law of centering: an operation followed by a translation reads as
/// the operation itself with the translation added as one more constant
/// term to each coordinate. It holds of operations whose only white space is
/// plain spaces (trimming a tab at the edge of a coordinate would change
/// its terms).
pub proof fn lemma_translated_reads_back(op: Seq<char>, d: (u32, u32, u32))
    requires
        comma_count(op) == 2,
        spaces_only(op),
    ensures
        match symop(op) {
            Some(t) => symop(translated(op, d)) == Some(
                (
                    with_constant(t.0, "+"@ + sixths_text(d.0)),
                    with_constant(t.1, "+"@ + sixths_text(d.1)),
                    with_constant(t.2, "+"@ + sixths_text(d.2)),
                ),
            ),
            None => false,
        },
{
    reveal_strlit(",");
    let i = to_comma(op);
    let rest = op.skip(i + 1);
    lemma_to_comma(op);
    lemma_to_comma(rest);
    let j = to_comma(rest);
    let p0 = op.take(i);
    let p1 = rest.take(j);
    let p2 = rest.skip(j + 1);
    assert(spaces_only(p0)) by {
        assert forall|k: int| 0 <= k < p0.len() && is_ws(#[trigger] p0[k]) implies p0[k] == ' ' by {
            assert(p0[k] == op[k]);
        }
    }
    assert(spaces_only(p1)) by {
        assert forall|k: int| 0 <= k < p1.len() && is_ws(#[trigger] p1[k]) implies p1[k] == ' ' by {
            assert(p1[k] == op[i + 1 + k]);
        }
    }
    assert(spaces_only(p2)) by {
        assert forall|k: int| 0 <= k < p2.len() && is_ws(#[trigger] p2[k]) implies p2[k] == ' ' by {
            assert(p2[k] == op[i + 1 + j + 1 + k]);
        }
    }
    let q0 = trim(p0) + "+"@ + sixths_text(d.0);
    let q1 = trim(p1) + "+"@ + sixths_text(d.1);
    let q2 = trim(p2) + "+"@ + sixths_text(d.2);
    lemma_part_no_commas(p0, d.0);
    lemma_part_no_commas(p1, d.1);
    lemma_part_no_commas(p2, d.2);
    let r = q1 + ","@ + q2;
    let t = translated(op, d);
    assert(t =~= q0 + ","@ + r);
    lemma_comma_after(q0, r);
    lemma_comma_after(q1, q2);
    lemma_translated_part(p0, d.0);
    lemma_translated_part(p1, d.1);
    lemma_translated_part(p2, d.2);
}

} // verus!
