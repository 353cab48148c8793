use vstd::prelude::*;

use crate::chgcar::{parse_usize, parse_usize_word};
use crate::text::{chars_of, find_exec, find_from, lemma_find_from, push_str, split_ws, string_of, string_views, trim, trim_bounds, vec_slice, words};

verus! {

/// The atom count on the first line of an XYZ file.
pub fn xyz_atom_count(line: &str) -> (r: Result<usize, String>)
    ensures
        match r {
            Ok(n) => parse_usize(trim(line@)) == Some(n as nat),
            Err(m) => parse_usize(trim(line@)) is None && m@ == "Invalid atom count"@,
        },
{
    let v = chars_of(line);
    let (i, j) = trim_bounds(&v);
    let t = vec_slice(&v, i, j);
    match parse_usize_word(&t) {
        Some(n) => Ok(n),
        None => {
            let mut m = String::new();
            push_str(&mut m, "Invalid atom count");
            Err(m)
        },
    }
}

/// The text between `Lattice="` and the next `"` in the comment line of an
/// extended XYZ file, if there is one.
pub open spec fn lattice_text(c: Seq<char>) -> Option<Seq<char>> {
    match find_from(c, "Lattice=\""@, 0) {
        None => None,
        Some(i) => {
            let rest = c.skip(i + 9);
            match find_from(rest, "\""@, 0) {
                None => None,
                Some(j) => Some(rest.take(j)),
            }
        },
    }
}

/// The lattice text of an extended XYZ comment line (`Lattice="..."`).
pub fn extended_lattice(comment: &str) -> (r: Option<String>)
    ensures
        match r {
            Some(t) => lattice_text(comment@) == Some(t@),
            None => lattice_text(comment@) is None,
        },
{
    let c = chars_of(comment);
    let pat = chars_of("Lattice=\"");
    let quote = chars_of("\"");
    proof {
        reveal_strlit("Lattice=\"");
    }
    match find_exec(&c, &pat) {
        None => None,
        Some(i) => {
            proof {
                lemma_find_from(c@, pat@, 0);
                assert(pat@.len() == 9);
                assert(i + 9 <= c@.len());
                assert(c@.len() == c.len());
            }
            let rest = vec_slice(&c, i + 9, c.len());
            assert(rest@ =~= c@.skip(i + 9));
            match find_exec(&rest, &quote) {
                None => None,
                Some(j) => {
                    proof {
                        lemma_find_from(rest@, quote@, 0);
                    }
                    let t = string_of(&rest, 0, j);
                    assert(rest@.subrange(0, j as int) =~= rest@.take(j as int));
                    Some(t)
                },
            }
        },
    }
}

/// The rows of the first frame from line `j` on: the next `n` lines with at
/// least four words (shorter lines are skipped).
pub open spec fn frame_rows(lines: Seq<Seq<char>>, j: int, n: nat) -> Seq<int>
    decreases lines.len() - j,
{
    if n == 0 || j < 0 || j >= lines.len() {
        seq![]
    } else if words(lines[j]).len() >= 4 {
        seq![j] + frame_rows(lines, j + 1, (n - 1) as nat)
    } else {
        frame_rows(lines, j + 1, n)
    }
}

/// The atom lines of the first frame of an XYZ file: from line `start` on,
/// the first `n` lines with at least four words. Later frames of a
/// trajectory are not read.
pub fn first_frame_rows(lines: &Vec<String>, start: usize, n: usize) -> (r: Vec<usize>)
    requires
        start <= lines.len(),
    ensures
        r@.map_values(|i: usize| i as int) == frame_rows(string_views(lines@), start as int, n as nat),
{
    let ghost ls = string_views(lines@);
    let mut rows: Vec<usize> = Vec::new();
    let mut j = start;
    while j < lines.len() && rows.len() < n
        invariant
            start <= j <= lines.len(),
            rows.len() <= n,
            ls == string_views(lines@),
            rows@.map_values(|i: usize| i as int) + frame_rows(ls, j as int, (n - rows.len()) as nat)
                == frame_rows(ls, start as int, n as nat),
        decreases lines.len() - j,
    {
        let v = chars_of(lines[j].as_str());
        let ws = split_ws(&v);
        let ghost before = rows@.map_values(|i: usize| i as int);
        let ghost left = (n - rows.len()) as nat;
        assert(ls[j as int] == v@);
        if ws.len() >= 4 {
            rows.push(j);
            assert(rows@.map_values(|i: usize| i as int) =~= before.push(j as int));
            assert(before.push(j as int) + frame_rows(ls, j + 1, (left - 1) as nat) =~= before + (seq![j as int]
                + frame_rows(ls, j + 1, (left - 1) as nat)));
        }
        j = j + 1;
    }
    assert(frame_rows(ls, j as int, (n - rows.len()) as nat) =~= Seq::<int>::empty());
    assert(rows@.map_values(|i: usize| i as int) + Seq::<int>::empty() =~= rows@.map_values(|i: usize| i as int));
    rows
}

} // verus!
