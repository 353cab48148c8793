use vstd::prelude::*;

use crate::text::{chars_of, is_ascii_digit, push_str, split_ws, trim, trim_bounds, views, words};

verus! {

/// Value of a string of decimal digits.
pub open spec fn digits_value(s: Seq<char>) -> nat
    decreases s.len(),
{
    if s.len() == 0 {
        0
    } else {
        digits_value(s.drop_last()) * 10 + ((s.last() as int - '0' as int) as nat)
    }
}

pub open spec fn all_digits(s: Seq<char>) -> bool {
    forall|i: int| 0 <= i < s.len() ==> is_ascii_digit(#[trigger] s[i])
}

/// `str::parse::<usize>`: an optional `+` and then one or more decimal digits
/// whose value fits in `usize`.
pub open spec fn parse_usize(s: Seq<char>) -> Option<nat> {
    let d = if s.len() > 0 && s[0] == '+' { s.drop_first() } else { s };
    if d.len() == 0 || !all_digits(d) || digits_value(d) > usize::MAX {
        None
    } else {
        Some(digits_value(d))
    }
}

proof fn lemma_digits_value_prefix(s: Seq<char>, i: int)
    requires
        0 <= i <= s.len(),
        all_digits(s),
    ensures
        digits_value(s.take(i)) <= digits_value(s),
    decreases s.len() - i,
{
    if i < s.len() {
        lemma_digits_value_prefix(s, i + 1);
        assert(s.take(i + 1).drop_last() =~= s.take(i));
        assert(is_ascii_digit(s[i]));
        assert(s.take(i + 1).last() == s[i]);
        assert(digits_value(s.take(i + 1)) == digits_value(s.take(i)) * 10 + ((s[i] as int - '0' as int) as nat));
    } else {
        assert(s.take(i) =~= s);
    }
}

/// Parses one word as a `usize`.
pub fn parse_usize_word(w: &Vec<char>) -> (r: Option<usize>)
    ensures
        match r {
            Some(v) => parse_usize(w@) == Some(v as nat),
            None => parse_usize(w@) is None,
        },
{
    let start: usize = if w.len() > 0 && w[0] == '+' { 1 } else { 0 };
    let ghost d = if w@.len() > 0 && w@[0] == '+' { w@.drop_first() } else { w@ };
    assert(d =~= w@.skip(start as int));
    if start == w.len() {
        return None;
    }
    let mut v: usize = 0;
    let mut k: usize = start;
    while k < w.len()
        invariant
            start <= k <= w.len(),
            start < w.len(),
            d == w@.skip(start as int),
            d == (if w@.len() > 0 && w@[0] == '+' { w@.drop_first() } else { w@ }),
            all_digits(w@.subrange(start as int, k as int)),
            v == digits_value(w@.subrange(start as int, k as int)),
        decreases w.len() - k,
    {
        let c = w[k];
        assert(w@.subrange(start as int, k + 1).drop_last() =~= w@.subrange(start as int, k as int));
        if !('0' <= c && c <= '9') {
            assert(d[k - start] == c);
            assert(!is_ascii_digit(d[k - start]));
            assert(!all_digits(d));
            assert(parse_usize(w@) is None);
            return None;
        }
        let digit = (c as u32 - 48) as usize;
        let next = match v.checked_mul(10) {
            Some(m) => m.checked_add(digit),
            None => None,
        };
        match next {
            Some(n) => {
                proof {
                    let sub = w@.subrange(start as int, k + 1);
                    assert(sub.last() == c);
                    assert(digits_value(sub) == v * 10 + digit);
                    assert forall|j: int| 0 <= j < sub.len() implies is_ascii_digit(#[trigger] sub[j]) by {
                        if j < sub.len() - 1 {
                            assert(sub[j] == w@.subrange(start as int, k as int)[j]);
                        }
                    }
                }
                v = n;
            },
            None => {
                proof {
                    let sub = w@.subrange(start as int, k + 1);
                    assert(sub.last() == c);
                    assert(digits_value(sub) == v * 10 + digit);
                    assert(digits_value(sub) > usize::MAX);
                    assert(w@.subrange(start as int, k + 1) =~= d.take(k + 1 - start));
                    if all_digits(d) {
                        lemma_digits_value_prefix(d, k + 1 - start);
                    }
                }
                return None;
            },
        }
        k = k + 1;
    }
    assert(w@.subrange(start as int, k as int) =~= d);
    Some(v)
}

/// Outcome of reading `expected` unsigned integers from the words `ws`:
/// the values, or the message of the first failure.
pub open spec fn ints_result(ws: Seq<Seq<char>>, expected: nat) -> Result<Seq<nat>, Seq<char>>
    decreases ws.len(),
{
    if expected == 0 {
        Ok(seq![])
    } else if ws.len() == 0 {
        Err("Not enough integers in grid line"@)
    } else {
        match parse_usize(ws[0]) {
            None => Err("Cannot parse int: "@ + ws[0]),
            Some(v) => match ints_result(ws.drop_first(), (expected - 1) as nat) {
                Ok(rest) => Ok(seq![v] + rest),
                Err(m) => Err(m),
            },
        }
    }
}

pub open spec fn usize_views(v: Seq<usize>) -> Seq<nat> {
    v.map_values(|x: usize| x as nat)
}

/// The first `expected` white-space separated unsigned integers on `line`
/// (a CHGCAR grid line). Fails with the message of the first word that is not
/// an integer, or when the line has fewer than `expected` words.
pub fn parse_ints(line: &str, expected: usize) -> (r: Result<Vec<usize>, String>)
    ensures
        match r {
            Ok(v) => ints_result(words(line@), expected as nat) == Ok::<Seq<nat>, Seq<char>>(usize_views(v@)),
            Err(m) => ints_result(words(line@), expected as nat) == Err::<Seq<nat>, Seq<char>>(m@),
        },
{
    let v = chars_of(line);
    let ws = split_ws(&v);
    let ghost all = words(line@);
    let mut out: Vec<usize> = Vec::new();
    let mut i: usize = 0;
    proof {
        assert(all.skip(0) =~= all);
        assert(usize_views(out@) =~= Seq::<nat>::empty());
        match ints_result(all, expected as nat) {
            Ok(rest) => {
                assert(usize_views(out@) + rest =~= rest);
            },
            Err(_) => {},
        }
    }
    while i < expected
        invariant
            i <= expected,
            all == words(line@),
            views(ws@) == all,
            i <= ws@.len(),
            ints_result(all, expected as nat) == match ints_result(all.skip(i as int), (expected - i) as nat) {
                Ok(rest) => Ok::<Seq<nat>, Seq<char>>(usize_views(out@) + rest),
                Err(m) => Err(m),
            },
            out@.len() == i,
        decreases expected - i,
    {
        let ghost t = all.skip(i as int);
        if i >= ws.len() {
            assert(t =~= Seq::<Seq<char>>::empty());
            let mut m = String::new();
            push_str(&mut m, "Not enough integers in grid line");
            assert(m@ =~= "Not enough integers in grid line"@);
            assert(ints_result(t, (expected - i) as nat) == Err::<Seq<nat>, Seq<char>>(m@));
            assert(ints_result(all, expected as nat) == Err::<Seq<nat>, Seq<char>>(m@));
            return Err(m);
        }
        assert(t[0] == ws@[i as int]@);
        assert(t.drop_first() =~= all.skip(i + 1));
        match parse_usize_word(&ws[i]) {
            None => {
                let mut m = String::new();
                push_str(&mut m, "Cannot parse int: ");
                assert(m@ =~= "Cannot parse int: "@ + Seq::<char>::empty());
                let mut k: usize = 0;
                let w = &ws[i];
                while k < w.len()
                    invariant
                        k <= w@.len(),
                        m@ == "Cannot parse int: "@ + w@.take(k as int),
                    decreases w.len() - k,
                {
                    crate::text::push_char(&mut m, w[k]);
                    assert(w@.take(k + 1) =~= w@.take(k as int).push(w@[k as int]));
                    k = k + 1;
                }
                assert(w@.take(k as int) =~= w@);
                assert(parse_usize(t[0]) is None);
                assert(ints_result(t, (expected - i) as nat) == Err::<Seq<nat>, Seq<char>>(m@));
                assert(ints_result(all, expected as nat) == Err::<Seq<nat>, Seq<char>>(m@));
                return Err(m);
            },
            Some(x) => {
                let ghost before = usize_views(out@);
                out.push(x);
                assert(usize_views(out@) =~= before.push(x as nat));
                proof {
                    match ints_result(all.skip(i + 1), (expected - i - 1) as nat) {
                        Ok(rest) => {
                            assert(usize_views(out@) + rest =~= before + (seq![x as nat] + rest));
                        },
                        Err(_) => {},
                    }
                }
            },
        }
        i = i + 1;
    }
    proof {
        assert(usize_views(out@) + seq![] =~= usize_views(out@));
    }
    Ok(out)
}

/// The line is empty once white space is trimmed.
pub open spec fn is_blank(line: Seq<char>) -> bool {
    trim(line).len() == 0
}

/// Skips blank lines from position `pos` and returns the first other line,
/// leaving `pos` just after it; fails when only blank lines remain.
pub fn skip_blanks_get_line(lines: &Vec<String>, pos: &mut usize) -> (r: Result<String, String>)
    requires
        *old(pos) <= lines.len(),
    ensures
        match r {
            Ok(l) => {
                &&& *old(pos) < *final(pos) <= lines.len()
                &&& l@ == lines@[*final(pos) - 1]@
                &&& !is_blank(l@)
                &&& forall|k: int| *old(pos) <= k < *final(pos) - 1 ==> is_blank(#[trigger] lines@[k]@)
            },
            Err(m) => {
                &&& m@ == "Unexpected EOF while skipping blanks"@
                &&& *final(pos) == lines.len()
                &&& forall|k: int| *old(pos) <= k < lines.len() ==> is_blank(#[trigger] lines@[k]@)
            },
        },
{
    let start = *pos;
    while *pos < lines.len()
        invariant
            start <= *pos <= lines.len(),
            start == *old(pos),
            forall|k: int| start <= k < *pos ==> is_blank(#[trigger] lines@[k]@),
        decreases lines.len() - *pos,
    {
        let k = *pos;
        let v = chars_of(lines[k].as_str());
        let (i, j) = trim_bounds(&v);
        *pos = k + 1;
        if i < j {
            let l = lines[k].clone();
            assert(v@ == lines@[k as int]@);
            assert(l@ == lines@[k as int]@);
            assert(!is_blank(l@));
            assert(*pos == k + 1);
            assert(forall|k2: int| start <= k2 < k ==> is_blank(#[trigger] lines@[k2]@));
            return Ok(l);
        }
        assert(is_blank(lines@[k as int]@));
    }
    let mut m = String::new();
    push_str(&mut m, "Unexpected EOF while skipping blanks");
    assert(m@ =~= "Unexpected EOF while skipping blanks"@);
    Err(m)
}

} // verus!
