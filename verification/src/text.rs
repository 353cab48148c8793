use vstd::prelude::*;

verus! {

/// Unicode `White_Space` characters, the set that `char::is_whitespace`
/// (and therefore `str::trim` and `str::split_whitespace`) uses.
pub open spec fn is_ws(c: char) -> bool {
    ||| c == ' '
    ||| ('\t' <= c && c <= '\r')
    ||| c == '\u{85}'
    ||| c == '\u{a0}'
    ||| c == '\u{1680}'
    ||| ('\u{2000}' <= c && c <= '\u{200a}')
    ||| c == '\u{2028}'
    ||| c == '\u{2029}'
    ||| c == '\u{202f}'
    ||| c == '\u{205f}'
    ||| c == '\u{3000}'
}

pub fn is_ws_char(c: char) -> (r: bool)
    ensures
        r == is_ws(c),
{
    c == ' ' || ('\t' <= c && c <= '\r') || c == '\u{85}' || c == '\u{a0}' || c == '\u{1680}'
        || ('\u{2000}' <= c && c <= '\u{200a}') || c == '\u{2028}' || c == '\u{2029}'
        || c == '\u{202f}' || c == '\u{205f}' || c == '\u{3000}'
}

/// The characters of `s`, in order.
pub fn chars_of(s: &str) -> (v: Vec<char>)
    ensures
        v@ == s@,
{
    broadcast use vstd::string::group_string_axioms;
    let mut v: Vec<char> = Vec::new();
    for c in it: s.chars()
        invariant
            v@ == it.seq().take(it.index()),
    {
        v.push(c);
    }
    v
}


/// `s` with leading white space removed (`str::trim_start`).
pub open spec fn trim_start(s: Seq<char>) -> Seq<char>
    decreases s.len(),
{
    if s.len() > 0 && is_ws(s[0]) {
        trim_start(s.drop_first())
    } else {
        s
    }
}

/// `s` with trailing white space removed (`str::trim_end`).
pub open spec fn trim_end(s: Seq<char>) -> Seq<char>
    decreases s.len(),
{
    if s.len() > 0 && is_ws(s.last()) {
        trim_end(s.drop_last())
    } else {
        s
    }
}

/// `str::trim`: white space removed at both ends.
pub open spec fn trim(s: Seq<char>) -> Seq<char> {
    trim_end(trim_start(s))
}

proof fn lemma_trim_start_skip(s: Seq<char>, i: int)
    requires
        0 <= i <= s.len(),
        forall|k: int| 0 <= k < i ==> is_ws(#[trigger] s[k]),
    ensures
        trim_start(s) == trim_start(s.skip(i)),
    decreases i,
{
    if i > 0 {
        assert(s.skip(1) =~= s.drop_first());
        lemma_trim_start_skip(s.drop_first(), i - 1);
        assert(s.drop_first().skip(i - 1) =~= s.skip(i));
    } else {
        assert(s.skip(0) =~= s);
    }
}

proof fn lemma_trim_end_take(s: Seq<char>, j: int)
    requires
        0 <= j <= s.len(),
        forall|k: int| j <= k < s.len() ==> is_ws(#[trigger] s[k]),
    ensures
        trim_end(s) == trim_end(s.take(j)),
    decreases s.len() - j,
{
    if j < s.len() {
        lemma_trim_end_take(s.drop_last(), j);
        assert(s.drop_last().take(j) =~= s.take(j));
    } else {
        assert(s.take(j) =~= s);
    }
}

/// The bounds `(i, j)` such that `trim(s) == s[i..j]`.
pub fn trim_bounds(s: &Vec<char>) -> (r: (usize, usize))
    ensures
        r.0 <= r.1 <= s.len(),
        s@.subrange(r.0 as int, r.1 as int) == trim(s@),
{
    let n = s.len();
    let mut i: usize = 0;
    while i < n && is_ws_char(s[i])
        invariant
            i <= n == s.len(),
            forall|k: int| 0 <= k < i ==> is_ws(#[trigger] s@[k]),
        decreases n - i,
    {
        i = i + 1;
    }
    proof {
        lemma_trim_start_skip(s@, i as int);
        assert(trim_start(s@.skip(i as int)) == s@.skip(i as int));
    }
    let mut j: usize = n;
    while j > i && is_ws_char(s[j - 1])
        invariant
            i <= j <= n == s.len(),
            forall|k: int| j <= k < n ==> is_ws(#[trigger] s@[k]),
        decreases j,
    {
        j = j - 1;
    }
    proof {
        let t = s@.skip(i as int);
        assert forall|k: int| j - i <= k < t.len() implies is_ws(#[trigger] t[k]) by {
            assert(t[k] == s@[k + i]);
        }
        lemma_trim_end_take(t, j - i);
        assert(t.take(j - i) =~= s@.subrange(i as int, j as int));
        if j > i {
            assert(t.take(j - i).last() == s@[j - 1]);
        }
    }
    (i, j)
}

/// Appends one character to a string: `String::push`, whose contract here
/// states that the characters of `s` afterwards are those before followed
/// by `c`, as the documentation of `String::push` says.
#[verifier::external_body]
pub(crate) fn push_char(s: &mut String, c: char)
    ensures
        final(s)@ == old(s)@.push(c),
{
    s.push(c);
}

/// A string holding the characters `v[from..to]`.
pub fn string_of(v: &Vec<char>, from: usize, to: usize) -> (r: String)
    requires
        from <= to <= v.len(),
    ensures
        r@ == v@.subrange(from as int, to as int),
{
    let mut r = String::new();
    let mut k = from;
    while k < to
        invariant
            from <= k <= to <= v.len(),
            r@ == v@.subrange(from as int, k as int),
        decreases to - k,
    {
        push_char(&mut r, v[k]);
        assert(v@.subrange(from as int, k + 1) =~= v@.subrange(from as int, k as int).push(v@[k as int]));
        k = k + 1;
    }
    r
}


/// Length of the run of non-white-space characters at the start of `s`.
pub open spec fn word_len(s: Seq<char>) -> nat
    decreases s.len(),
{
    if s.len() == 0 || is_ws(s[0]) {
        0
    } else {
        1 + word_len(s.drop_first())
    }
}

/// The words of `s`, as `str::split_whitespace` yields them.
pub open spec fn words(s: Seq<char>) -> Seq<Seq<char>>
    decreases s.len(),
{
    if s.len() == 0 {
        seq![]
    } else if is_ws(s[0]) {
        words(s.drop_first())
    } else {
        proof {
            lemma_word_len_le(s);
        }
        seq![s.take(word_len(s) as int)] + words(s.skip(word_len(s) as int))
    }
}

pub proof fn lemma_word_len_le(s: Seq<char>)
    ensures
        word_len(s) <= s.len(),
        word_len(s) > 0 <==> (s.len() > 0 && !is_ws(s[0])),
    decreases s.len(),
{
    if s.len() > 0 && !is_ws(s[0]) {
        lemma_word_len_le(s.drop_first());
    }
}

proof fn lemma_word_len_exact(s: Seq<char>, n: int)
    requires
        0 <= n <= s.len(),
        forall|k: int| 0 <= k < n ==> !is_ws(#[trigger] s[k]),
        n == s.len() || is_ws(s[n]),
    ensures
        word_len(s) == n,
    decreases n,
{
    if n > 0 {
        lemma_word_len_exact(s.drop_first(), n - 1);
    }
}

/// The view of a list of character vectors as a sequence of sequences.
pub open spec fn views(v: Seq<Vec<char>>) -> Seq<Seq<char>> {
    v.map_values(|w: Vec<char>| w@)
}

/// Splits `s` into its white-space separated words (`str::split_whitespace`).
pub fn split_ws(s: &Vec<char>) -> (r: Vec<Vec<char>>)
    ensures
        views(r@) == words(s@),
{
    let n = s.len();
    let mut r: Vec<Vec<char>> = Vec::new();
    let mut i: usize = 0;
    proof {
        assert(s@.skip(0) =~= s@);
    }
    while i < n
        invariant
            i <= n == s.len(),
            words(s@) == views(r@) + words(s@.skip(i as int)),
        decreases n - i,
    {
        let ghost t = s@.skip(i as int);
        if is_ws_char(s[i]) {
            assert(t.drop_first() =~= s@.skip(i + 1));
            i = i + 1;
        } else {
            let start = i;
            while i < n && !is_ws_char(s[i])
                invariant
                    start <= i <= n == s.len(),
                    forall|k: int| start <= k < i ==> !is_ws(#[trigger] s@[k]),
                decreases n - i,
            {
                i = i + 1;
            }
            let w = vec_slice(s, start, i);
            proof {
                assert forall|k: int| 0 <= k < i - start implies !is_ws(#[trigger] t[k]) by {
                    assert(t[k] == s@[k + start]);
                }
                if i < n {
                    assert(t[i - start] == s@[i as int]);
                }
                lemma_word_len_exact(t, i - start);
                assert(t.take(i - start) =~= w@);
                assert(t.skip(i - start) =~= s@.skip(i as int));
                let ghost old_r = r@;
                assert(views(old_r.push(w)) =~= views(old_r).push(w@));
            }
            r.push(w);
            proof {
                assert(views(r@) + words(s@.skip(i as int)) =~= views(r@).drop_last() + (seq![w@] + words(s@.skip(i as int))));
            }
        }
    }
    proof {
        assert(s@.skip(n as int) =~= Seq::<char>::empty());
        assert(views(r@) + Seq::<Seq<char>>::empty() =~= views(r@));
    }
    r
}

/// A copy of `v[from..to]`.
pub fn vec_slice(v: &Vec<char>, from: usize, to: usize) -> (r: Vec<char>)
    requires
        from <= to <= v.len(),
    ensures
        r@ == v@.subrange(from as int, to as int),
{
    let mut r: Vec<char> = Vec::new();
    let mut k = from;
    while k < to
        invariant
            from <= k <= to <= v.len(),
            r@ == v@.subrange(from as int, k as int),
        decreases to - k,
    {
        r.push(v[k]);
        assert(v@.subrange(from as int, k + 1) =~= v@.subrange(from as int, k as int).push(v@[k as int]));
        k = k + 1;
    }
    r
}


/// The decimal digit character for `d` (0 to 9).
pub open spec fn digit(d: int) -> char {
    ('0' as int + d) as char
}

/// The decimal notation of `n`, without leading zeros.
pub open spec fn decimal(n: nat) -> Seq<char>
    decreases n,
{
    if n < 10 {
        seq![digit(n as int)]
    } else {
        decimal(n / 10).push(digit((n % 10) as int))
    }
}

/// `v / 1000` written with three decimals, as `format!("{:.3}", ..)` prints it.
pub open spec fn fixed3(v: nat) -> Seq<char> {
    decimal(v / 1000) + seq!['.', digit(((v % 1000) / 100) as int), digit(((v % 100) / 10) as int), digit((v % 10) as int)]
}

/// `n / d` rounded to the nearest integer, ties to the even one.
pub open spec fn round_half_even(n: nat, d: nat) -> nat {
    let q = n / d;
    let r = n % d;
    if 2 * r > d || (2 * r == d && q % 2 == 1) {
        q + 1
    } else {
        q
    }
}

pub fn digit_char(d: u64) -> (c: char)
    requires
        d < 10,
    ensures
        c == digit(d as int),
{
    let c = ((48u64 + d) as u8) as char;
    c
}

/// Appends the decimal notation of `n` to `s`.
pub fn push_decimal(s: &mut String, n: u64)
    ensures
        final(s)@ == old(s)@ + decimal(n as nat),
    decreases n,
{
    if n < 10 {
        push_char(s, digit_char(n));
    } else {
        push_decimal(s, n / 10);
        push_char(s, digit_char(n % 10));
    }
}

/// Appends `v / 1000` with three decimals to `s`.
pub fn push_fixed3(s: &mut String, v: u64)
    ensures
        final(s)@ == old(s)@ + fixed3(v as nat),
{
    push_decimal(s, v / 1000);
    push_char(s, '.');
    push_char(s, digit_char((v % 1000) / 100));
    push_char(s, digit_char((v % 100) / 10));
    push_char(s, digit_char(v % 10));
    assert(final(s)@ =~= old(s)@ + fixed3(v as nat));
}

pub fn round_half_even_exec(n: u64, d: u64) -> (r: u64)
    requires
        d > 0,
        n < 0x1_0000_0000_0000,
        d < 0x1_0000_0000_0000,
    ensures
        r == round_half_even(n as nat, d as nat),
{
    let q = n / d;
    let r = n % d;
    if 2 * r > d || (2 * r == d && q % 2 == 1) {
        q + 1
    } else {
        q
    }
}

/// Appends the characters of `t` to `s`.
pub fn push_str(s: &mut String, t: &str)
    ensures
        final(s)@ == old(s)@ + t@,
{
    let v = chars_of(t);
    let mut k: usize = 0;
    while k < v.len()
        invariant
            k <= v.len(),
            v@ == t@,
            s@ == old(s)@ + v@.take(k as int),
        decreases v.len() - k,
    {
        push_char(s, v[k]);
        assert(v@.take(k + 1) =~= v@.take(k as int).push(v@[k as int]));
        k = k + 1;
    }
    assert(v@.take(k as int) =~= v@);
}


/// `s` begins with `p` (`str::starts_with`).
pub open spec fn has_prefix(s: Seq<char>, p: Seq<char>) -> bool {
    p.len() <= s.len() && s.take(p.len() as int) == p
}

/// `p` occurs in `s` at position `i`.
pub open spec fn occurs_at(s: Seq<char>, p: Seq<char>, i: int) -> bool {
    0 <= i && i + p.len() <= s.len() && s.subrange(i, i + p.len()) == p
}

/// `p` occurs somewhere in `s` (`str::contains`).
pub open spec fn has_infix(s: Seq<char>, p: Seq<char>) -> bool {
    exists|i: int| #[trigger] occurs_at(s, p, i)
}

fn matches_at(s: &Vec<char>, p: &Vec<char>, i: usize) -> (r: bool)
    requires
        i + p.len() <= s.len(),
    ensures
        r == occurs_at(s@, p@, i as int),
{
    let mut k: usize = 0;
    while k < p.len()
        invariant
            k <= p.len(),
            i + p.len() <= s.len(),
            forall|j: int| 0 <= j < k ==> s@[i + j] == p@[j],
        decreases p.len() - k,
    {
        if s[i + k] != p[k] {
            assert(s@.subrange(i as int, i + p.len())[k as int] != p@[k as int]);
            return false;
        }
        k = k + 1;
    }
    assert(s@.subrange(i as int, i + p.len()) =~= p@);
    true
}

/// Whether `s` begins with `p`.
pub fn starts_with_chars(s: &Vec<char>, p: &Vec<char>) -> (r: bool)
    ensures
        r == has_prefix(s@, p@),
{
    if p.len() > s.len() {
        return false;
    }
    let r = matches_at(s, p, 0);
    assert(s@.subrange(0, p@.len() as int) =~= s@.take(p@.len() as int));
    r
}

/// Whether `s` begins with the text `p`.
pub fn starts_with_str(s: &Vec<char>, p: &str) -> (r: bool)
    ensures
        r == has_prefix(s@, p@),
{
    let pv = chars_of(p);
    starts_with_chars(s, &pv)
}

/// The first position at or after `from` where `p` occurs in `s`.
pub open spec fn find_from(s: Seq<char>, p: Seq<char>, from: int) -> Option<int>
    decreases s.len() + 1 - from,
{
    if from < 0 || from + p.len() > s.len() {
        None
    } else if occurs_at(s, p, from) {
        Some(from)
    } else {
        find_from(s, p, from + 1)
    }
}

pub proof fn lemma_find_from(s: Seq<char>, p: Seq<char>, from: int)
    ensures
        find_from(s, p, from) matches Some(i) ==> from <= i && occurs_at(s, p, i),
    decreases s.len() + 1 - from,
{
    if !(from < 0 || from + p.len() > s.len()) && !occurs_at(s, p, from) {
        lemma_find_from(s, p, from + 1);
    }
}

/// The first position where `p` occurs in `s` (`str::find`).
pub fn find_exec(s: &Vec<char>, p: &Vec<char>) -> (r: Option<usize>)
    ensures
        match r {
            Some(i) => find_from(s@, p@, 0) == Some(i as int),
            None => find_from(s@, p@, 0) is None,
        },
{
    if p.len() > s.len() {
        return None;
    }
    if p.len() == 0 {
        assert(s@.subrange(0, 0) =~= p@);
        return Some(0);
    }
    let mut k: usize = 0;
    while k <= s.len() - p.len()
        invariant
            0 < p.len() <= s.len(),
            k <= s.len() - p.len() + 1,
            find_from(s@, p@, 0) == find_from(s@, p@, k as int),
        decreases s.len() - p.len() + 1 - k,
    {
        if matches_at(s, p, k) {
            return Some(k);
        }
        k = k + 1;
    }
    None
}

/// Whether `p` occurs in `s`.
pub fn contains_chars(s: &Vec<char>, p: &Vec<char>) -> (r: bool)
    ensures
        r == has_infix(s@, p@),
{
    if p.len() > s.len() {
        assert forall|i: int| !#[trigger] occurs_at(s@, p@, i) by {}
        return false;
    }
    if p.len() == 0 {
        assert(s@.subrange(0, 0) =~= p@);
        assert(occurs_at(s@, p@, 0));
        return true;
    }
    let last = s.len() - p.len();
    let mut i: usize = 0;
    while i <= last
        invariant
            last + p.len() == s.len(),
            p.len() > 0,
            i <= last + 1,
            forall|j: int| 0 <= j < i ==> !#[trigger] occurs_at(s@, p@, j),
        decreases last + 1 - i,
    {
        if matches_at(s, p, i) {
            return true;
        }
        i = i + 1;
    }
    assert forall|j: int| !#[trigger] occurs_at(s@, p@, j) by {
        if 0 <= j < i {
        }
    }
    false
}

/// Whether the text `p` occurs in `s`.
pub fn contains_str(s: &Vec<char>, p: &str) -> (r: bool)
    ensures
        r == has_infix(s@, p@),
{
    let pv = chars_of(p);
    contains_chars(s, &pv)
}

/// Index of the first white-space character of `s`, if any (`str::find`).
pub open spec fn first_ws(s: Seq<char>) -> Option<int> {
    if exists|i: int| 0 <= i < s.len() && is_ws(s[i]) {
        Some(choose|i: int| 0 <= i < s.len() && is_ws(s[i]) && forall|j: int| 0 <= j < i ==> !is_ws(s[j]))
    } else {
        None
    }
}

pub fn find_ws(s: &Vec<char>) -> (r: Option<usize>)
    ensures
        r matches Some(i) ==> i < s.len() && is_ws(s@[i as int]) && forall|j: int| 0 <= j < i ==> !is_ws(#[trigger] s@[j]),
        match r {
            Some(i) => first_ws(s@) == Some(i as int),
            None => first_ws(s@) is None,
        },
{
    let mut i: usize = 0;
    while i < s.len()
        invariant
            i <= s.len(),
            forall|j: int| 0 <= j < i ==> !is_ws(#[trigger] s@[j]),
        decreases s.len() - i,
    {
        if is_ws_char(s[i]) {
            proof {
                let c = choose|k: int| 0 <= k < s@.len() && is_ws(s@[k]) && forall|j: int| 0 <= j < k ==> !is_ws(s@[j]);
                assert(0 <= i < s@.len() && is_ws(s@[i as int]) && forall|j: int| 0 <= j < i ==> !is_ws(s@[j]));
                if c < i {
                } else if c > i {
                }
                assert(c == i);
            }
            return Some(i);
        }
        i = i + 1;
    }
    None
}

pub open spec fn is_ascii_alpha(c: char) -> bool {
    ('a' <= c && c <= 'z') || ('A' <= c && c <= 'Z')
}

pub open spec fn is_ascii_digit(c: char) -> bool {
    '0' <= c && c <= '9'
}

/// `char::to_ascii_uppercase`.
pub open spec fn ascii_upper(c: char) -> char {
    if 'a' <= c && c <= 'z' {
        ((c as int) - 32) as char
    } else {
        c
    }
}

/// `char::to_ascii_lowercase`.
pub open spec fn ascii_lower(c: char) -> char {
    if 'A' <= c && c <= 'Z' {
        ((c as int) + 32) as char
    } else {
        c
    }
}

pub fn ascii_upper_exec(c: char) -> (r: char)
    ensures
        r == ascii_upper(c),
{
    if 'a' <= c && c <= 'z' {
        ((c as u8) - 32) as char
    } else {
        c
    }
}

pub fn ascii_lower_exec(c: char) -> (r: char)
    ensures
        r == ascii_lower(c),
{
    if 'A' <= c && c <= 'Z' {
        ((c as u8) + 32) as char
    } else {
        c
    }
}

/// Length of the longest prefix of `s` whose characters all satisfy `p`.
pub open spec fn run_len(s: Seq<char>, p: spec_fn(char) -> bool) -> nat
    decreases s.len(),
{
    if s.len() > 0 && p(s[0]) {
        1 + run_len(s.drop_first(), p)
    } else {
        0
    }
}

pub proof fn lemma_run_len(s: Seq<char>, p: spec_fn(char) -> bool, n: int)
    requires
        0 <= n <= s.len(),
        forall|k: int| 0 <= k < n ==> p(#[trigger] s[k]),
        n == s.len() || !p(s[n]),
    ensures
        run_len(s, p) == n,
    decreases n,
{
    if n > 0 {
        lemma_run_len(s.drop_first(), p, n - 1);
    }
}

pub proof fn lemma_run_len_bound(s: Seq<char>, p: spec_fn(char) -> bool)
    ensures
        run_len(s, p) <= s.len(),
        forall|k: int| 0 <= k < run_len(s, p) ==> p(#[trigger] s[k]),
        run_len(s, p) < s.len() ==> !p(s[run_len(s, p) as int]),
    decreases s.len(),
{
    if s.len() > 0 && p(s[0]) {
        lemma_run_len_bound(s.drop_first(), p);
        assert forall|k: int| 0 <= k < run_len(s, p) implies p(#[trigger] s[k]) by {
            if k > 0 {
                assert(s[k] == s.drop_first()[k - 1]);
            }
        }
    }
}


/// The views of a list of strings.
pub open spec fn string_views(v: Seq<String>) -> Seq<Seq<char>> {
    v.map_values(|s: String| s@)
}

/// Whether two character vectors hold the same characters.
pub fn same_chars(a: &Vec<char>, b: &Vec<char>) -> (r: bool)
    ensures
        r == (a@ == b@),
{
    if a.len() != b.len() {
        return false;
    }
    let mut i: usize = 0;
    while i < a.len()
        invariant
            i <= a.len() == b.len(),
            forall|k: int| 0 <= k < i ==> a@[k] == b@[k],
        decreases a.len() - i,
    {
        if a[i] != b[i] {
            assert(a@[i as int] != b@[i as int]);
            return false;
        }
        i = i + 1;
    }
    assert(a@ =~= b@);
    true
}

/// Whether two strings are equal.
pub fn same_text(a: &str, b: &str) -> (r: bool)
    ensures
        r == (a@ == b@),
{
    let x = chars_of(a);
    let y = chars_of(b);
    same_chars(&x, &y)
}


/// Whether `c` has the Unicode `Alphabetic` property.
pub uninterp spec fn alphabetic(c: char) -> bool;

/// `char::is_alphabetic`: whether `c` has the Unicode `Alphabetic` property.
/// Its result is named `alphabetic(c)`; stated besides is what the Unicode
/// tables give for ASCII: the letters are alphabetic and no other ASCII
/// character is.
#[verifier::external_body]
pub(crate) fn is_alphabetic(c: char) -> (r: bool)
    ensures
        r == alphabetic(c),
        ('a' <= c <= 'z' || 'A' <= c <= 'Z') ==> r,
        (c as u32) < 128 && !('a' <= c <= 'z' || 'A' <= c <= 'Z') ==> !r,
{
    c.is_alphabetic()
}


/// Whether `c` has a Unicode numeric general category (`Nd`, `Nl`, `No`).
pub uninterp spec fn numeric(c: char) -> bool;

/// `char::is_numeric`: whether `c` is in one of the Unicode numeric general
/// categories. Its result is named `numeric(c)`; stated besides is what the
/// Unicode tables give for ASCII: the digits are numeric and no other ASCII
/// character is.
#[verifier::external_body]
pub(crate) fn is_numeric(c: char) -> (r: bool)
    ensures
        r == numeric(c),
        ('0' <= c <= '9') ==> r,
        (c as u32) < 128 && !('0' <= c <= '9') ==> !r,
{
    c.is_numeric()
}

} // verus!
