use vstd::prelude::*;
use vstd::string::StringSliceAdditionalSpecFns;
use vstd::utf8::encode_utf8;

use crate::text::{chars_of, string_views, has_prefix, starts_with_str, string_of, trim, trim_bounds, vec_slice, words, split_ws, has_infix, contains_str};

verus! {

/// `u8::to_ascii_lowercase`.
pub open spec fn lower_byte(b: u8) -> u8 {
    if 65 <= b <= 90 {
        (b + 32) as u8
    } else {
        b
    }
}

fn lower_byte_exec(b: u8) -> (r: u8)
    ensures
        r == lower_byte(b),
{
    if 65 <= b && b <= 90 {
        b + 32
    } else {
        b
    }
}

/// `needle` matches `hay` at `start`, ignoring the ASCII case of `hay`.
pub open spec fn matches_ci_at(hay: Seq<u8>, needle: Seq<u8>, start: int) -> bool {
    &&& 0 <= start
    &&& start + needle.len() <= hay.len()
    &&& forall|i: int| 0 <= i < needle.len() ==> lower_byte(#[trigger] hay[start + i]) == needle[i]
}

/// The bytes of `haystack`, ASCII-lowercased, start with `needle_lower`
/// (which is expected to be lowercase already).
pub fn ascii_starts_with_ci(haystack: &str, needle_lower: &str) -> (r: bool)
    ensures
        r == ci_starts(haystack@, needle_lower@),
{
    let nb = needle_lower.as_bytes();
    let hb = haystack.as_bytes();
    if hb.len() < nb.len() {
        return false;
    }
    let mut i: usize = 0;
    while i < nb.len()
        invariant
            i <= nb@.len() <= hb@.len(),
            nb@ == needle_lower.spec_bytes(),
            hb@ == haystack.spec_bytes(),
            forall|k: int| 0 <= k < i ==> lower_byte(#[trigger] hb@[0 + k]) == nb@[k],
        decreases nb.len() - i,
    {
        if lower_byte_exec(hb[i]) != nb[i] {
            assert(lower_byte(hb@[0 + i]) != nb@[i as int]);
            return false;
        }
        i = i + 1;
    }
    true
}

/// The bytes of `haystack`, ASCII-lowercased, contain `needle_lower`.
pub fn ascii_contains_ci(haystack: &str, needle_lower: &str) -> (r: bool)
    ensures
        r == ci_contains(haystack@, needle_lower@),
{
    let nb = needle_lower.as_bytes();
    if nb.len() == 0 {
        assert(matches_ci_at(haystack.spec_bytes(), needle_lower.spec_bytes(), 0));
        return true;
    }
    let hb = haystack.as_bytes();
    if hb.len() < nb.len() {
        assert forall|start: int| !#[trigger] matches_ci_at(haystack.spec_bytes(), needle_lower.spec_bytes(), start) by {}
        return false;
    }
    let last = hb.len() - nb.len();
    let mut start: usize = 0;
    while start <= last
        invariant
            nb@ == needle_lower.spec_bytes(),
            hb@ == haystack.spec_bytes(),
            nb@.len() > 0,
            last + nb@.len() == hb@.len(),
            start <= last + 1,
            forall|s: int| 0 <= s < start ==> !#[trigger] matches_ci_at(hb@, nb@, s),
        decreases last + 1 - start,
    {
        let mut ok = true;
        let mut i: usize = 0;
        while ok && i < nb.len()
            invariant
                nb@.len() > 0,
                hb@.len() == hb.len(),
                nb@.len() == nb.len(),
                start <= last,
                last + nb@.len() == hb@.len(),
                i <= nb@.len(),
                ok ==> forall|k: int| 0 <= k < i ==> lower_byte(#[trigger] hb@[start + k]) == nb@[k],
                !ok ==> !matches_ci_at(hb@, nb@, start as int),
            decreases nb.len() - i + (if ok { 1int } else { 0int }),
        {
            if lower_byte_exec(hb[start + i]) != nb[i] {
                assert(lower_byte(hb@[start + i]) != nb@[i as int]);
                ok = false;
            } else {
                i = i + 1;
            }
        }
        if ok {
            assert(matches_ci_at(hb@, nb@, start as int));
            return true;
        }
        start = start + 1;
    }
    assert forall|s: int| !#[trigger] matches_ci_at(haystack.spec_bytes(), needle_lower.spec_bytes(), s) by {
        if 0 <= s < start {
        }
    }
    false
}

/// The bytes of `celldm(1)=`.
pub open spec fn celldm_needle() -> Seq<u8> {
    seq![99u8, 101u8, 108u8, 108u8, 100u8, 109u8, 40u8, 49u8, 41u8, 61u8]
}

/// `u8::is_ascii_whitespace`: space, tab, line feed, form feed, carriage return.
pub open spec fn is_ascii_ws(b: u8) -> bool {
    b == 32 || b == 9 || b == 10 || b == 12 || b == 13
}

/// The first position at or after `h` that does not hold ASCII white space.
pub open spec fn skip_ascii_ws(hb: Seq<u8>, h: int) -> int
    decreases hb.len() - h,
{
    if 0 <= h < hb.len() && is_ascii_ws(hb[h]) {
        skip_ascii_ws(hb, h + 1)
    } else {
        h
    }
}

/// The rest of `celldm(1)=` from needle position `k` matches `hb` from `h`,
/// case-insensitively, with white space allowed before every needle byte.
pub open spec fn celldm_from(hb: Seq<u8>, h: int, k: int) -> bool
    decreases 10 - k,
{
    if k >= 10 || k < 0 {
        true
    } else {
        let h2 = skip_ascii_ws(hb, h);
        &&& 0 <= h2 < hb.len()
        &&& lower_byte(hb[h2]) == celldm_needle()[k]
        &&& celldm_from(hb, h2 + 1, k + 1)
    }
}

fn skip_ws_exec(hb: &[u8], h: usize) -> (r: usize)
    requires
        h <= hb@.len(),
    ensures
        r == skip_ascii_ws(hb@, h as int),
        h <= r <= hb@.len(),
    decreases hb@.len() - h,
{
    if h < hb.len() && (hb[h] == 32 || hb[h] == 9 || hb[h] == 10 || hb[h] == 12 || hb[h] == 13) {
        skip_ws_exec(hb, h + 1)
    } else {
        h
    }
}

fn celldm_from_exec(hb: &[u8], h: usize, k: usize) -> (r: bool)
    requires
        h <= hb@.len(),
        k <= 10,
    ensures
        r == celldm_from(hb@, h as int, k as int),
    decreases 10 - k,
{
    if k >= 10 {
        return true;
    }
    let needle: [u8; 10] = [99, 101, 108, 108, 100, 109, 40, 49, 41, 61];
    assert(needle@ =~= celldm_needle());
    let h2 = skip_ws_exec(hb, h);
    if h2 >= hb.len() || lower_byte_exec(hb[h2]) != needle[k] {
        return false;
    }
    celldm_from_exec(hb, h2 + 1, k + 1)
}

/// `celldm(1)=` occurs in `line`, with any white space between its
/// characters and ASCII case ignored (`celldm (1) =`, `Celldm( 1 )=`, ...).
pub fn contains_celldm_one(line: &str) -> (r: bool)
    ensures
        r == has_celldm_one(line@),
{
    let hb = line.as_bytes();
    let mut start: usize = 0;
    while start < hb.len()
        invariant
            hb@ == line.spec_bytes(),
            start <= hb@.len(),
            forall|s: int| 0 <= s < start ==> !#[trigger] celldm_from(hb@, s, 0),
        decreases hb.len() - start,
    {
        if celldm_from_exec(hb, start, 0) {
            return true;
        }
        start = start + 1;
    }
    false
}


/// `t` contains `needle` ignoring ASCII case, compared byte by byte as
/// `ascii_contains_ci` does.
pub open spec fn ci_contains(t: Seq<char>, needle: Seq<char>) -> bool {
    exists|start: int| #[trigger] matches_ci_at(encode_utf8(t), encode_utf8(needle), start)
}

/// `t` starts with `needle` ignoring ASCII case.
pub open spec fn ci_starts(t: Seq<char>, needle: Seq<char>) -> bool {
    matches_ci_at(encode_utf8(t), encode_utf8(needle), 0)
}

/// `celldm(1)=` occurs in `t` (see `contains_celldm_one`).
pub open spec fn has_celldm_one(t: Seq<char>) -> bool {
    exists|start: int| 0 <= start < encode_utf8(t).len() && #[trigger] celldm_from(encode_utf8(t), start, 0)
}

/// Something a scan of a Quantum Espresso file found, by line index.
pub enum QeEvent {
    /// A `lattice parameter (alat)` line of an output file.
    Alat(usize),
    /// A `CELL_PARAMETERS` header followed by three more lines.
    Cell(usize),
    /// An `ATOMIC_POSITIONS` header and the lines of its block that hold at
    /// least four words.
    Atoms(usize, Vec<usize>),
    /// A `celldm(1) = ...` line of an input file.
    Celldm(usize),
    /// An `A = ...` line of an input file.
    LatticeA(usize),
    /// An `ibrav = ...` line of an input file.
    Ibrav(usize),
}

pub enum QeEventView {
    Alat(int),
    Cell(int),
    Atoms(int, Seq<int>),
    Celldm(int),
    LatticeA(int),
    Ibrav(int),
}

impl QeEvent {
    pub open spec fn view(&self) -> QeEventView {
        match self {
            QeEvent::Alat(i) => QeEventView::Alat(*i as int),
            QeEvent::Cell(i) => QeEventView::Cell(*i as int),
            QeEvent::Atoms(i, rows) => QeEventView::Atoms(*i as int, rows@.map_values(|r: usize| r as int)),
            QeEvent::Celldm(i) => QeEventView::Celldm(*i as int),
            QeEvent::LatticeA(i) => QeEventView::LatticeA(*i as int),
            QeEvent::Ibrav(i) => QeEventView::Ibrav(*i as int),
        }
    }
}

pub open spec fn event_views(v: Seq<QeEvent>) -> Seq<QeEventView> {
    v.map_values(|e: QeEvent| e.view())
}

/// A line that ends an atomic-positions block of an output file.
pub open spec fn ends_output_block(t: Seq<char>) -> bool {
    t.len() == 0 || has_prefix(t, "End"@) || ci_contains(t, "total energy"@)
}

/// A line that ends an atomic-positions block of an input file.
pub open spec fn ends_input_block(t: Seq<char>) -> bool {
    t.len() == 0 || has_prefix(t, "/"@) || has_prefix(t, "&"@) || ci_starts(t, "k_points"@)
}

/// The end of the block that starts at line `j` (the first terminating line,
/// or the end of the file) and its lines with at least four words.
pub open spec fn block(lines: Seq<Seq<char>>, j: int, output: bool) -> (int, Seq<int>)
    decreases lines.len() - j,
{
    if j < 0 || j >= lines.len() {
        (j, seq![])
    } else {
        let t = trim(lines[j]);
        if (output && ends_output_block(t)) || (!output && ends_input_block(t)) {
            (j, seq![])
        } else {
            let rest = block(lines, j + 1, output);
            (rest.0, if words(t).len() >= 4 { seq![j] + rest.1 } else { rest.1 })
        }
    }
}

pub proof fn lemma_block_end(lines: Seq<Seq<char>>, j: int, output: bool)
    requires
        0 <= j <= lines.len(),
    ensures
        j <= block(lines, j, output).0 <= lines.len(),
    decreases lines.len() - j,
{
    if j < lines.len() {
        lemma_block_end(lines, j + 1, output);
    }
}

/// The events of an output file from line `i` on: `alat` lines, cell blocks
/// and atomic-positions blocks. After a block the scan resumes at the line
/// that ended it.
pub open spec fn output_events(lines: Seq<Seq<char>>, i: int) -> Seq<QeEventView>
    decreases lines.len() - i,
{
    if i < 0 || i >= lines.len() {
        seq![]
    } else {
        let t = trim(lines[i]);
        let e1 = if ci_contains(t, "lattice parameter (alat)"@) { seq![QeEventView::Alat(i)] } else { seq![] };
        let e2 = if ci_starts(t, "cell_parameters"@) && i + 3 < lines.len() {
            seq![QeEventView::Cell(i)]
        } else {
            seq![]
        };
        if ci_starts(t, "atomic_positions"@) {
            let b = block(lines, i + 1, true);
            proof {
                lemma_block_end(lines, i + 1, true);
            }
            e1 + e2 + seq![QeEventView::Atoms(i, b.1)] + output_events(lines, b.0)
        } else {
            e1 + e2 + output_events(lines, i + 1)
        }
    }
}

/// The block events of an input file from line `i` on. The line that ends an
/// atomic-positions block is not examined again.
pub open spec fn input_block_events(lines: Seq<Seq<char>>, i: int) -> Seq<QeEventView>
    decreases lines.len() + 1 - i,
{
    if i < 0 || i >= lines.len() {
        seq![]
    } else {
        let t = trim(lines[i]);
        let e2 = if ci_starts(t, "cell_parameters"@) && i + 3 < lines.len() {
            seq![QeEventView::Cell(i)]
        } else {
            seq![]
        };
        if ci_starts(t, "atomic_positions"@) {
            let b = block(lines, i + 1, false);
            proof {
                lemma_block_end(lines, i + 1, false);
            }
            e2 + seq![QeEventView::Atoms(i, b.1)] + input_block_events(lines, b.0 + 1)
        } else {
            e2 + input_block_events(lines, i + 1)
        }
    }
}

/// The parameter lines of an input file from line `i` on: comment lines
/// (starting with `!` or `#`) are skipped; a `celldm(1)` line, or else an
/// `A = ...` line, sets the lattice constant; an `ibrav` line the lattice type.
pub open spec fn input_param_events(lines: Seq<Seq<char>>, i: int) -> Seq<QeEventView>
    decreases lines.len() - i,
{
    if i < 0 || i >= lines.len() {
        seq![]
    } else {
        let t = trim(lines[i]);
        let here = if has_prefix(t, "!"@) || has_prefix(t, "#"@) {
            seq![]
        } else {
            let e1 = if has_celldm_one(t) {
                seq![QeEventView::Celldm(i)]
            } else if ci_contains(t, " a "@) || ci_starts(t, "a="@) || ci_starts(t, "a ="@) {
                seq![QeEventView::LatticeA(i)]
            } else {
                seq![]
            };
            let e2 = if ci_contains(t, "ibrav"@) { seq![QeEventView::Ibrav(i)] } else { seq![] };
            e1 + e2
        };
        here + input_param_events(lines, i + 1)
    }
}

/// The trimmed line `i`, as characters and as a string.
fn trimmed_line(lines: &Vec<String>, i: usize) -> (r: (Vec<char>, String))
    requires
        i < lines.len(),
    ensures
        r.0@ == trim(lines@[i as int]@),
        r.1@ == trim(lines@[i as int]@),
{
    let raw = chars_of(lines[i].as_str());
    let (a, b) = trim_bounds(&raw);
    let t = vec_slice(&raw, a, b);
    let s = string_of(&raw, a, b);
    (t, s)
}

fn block_exec(lines: &Vec<String>, start: usize, output: bool) -> (r: (usize, Vec<usize>))
    requires
        start <= lines.len(),
    ensures
        r.0 == block(string_views(lines@), start as int, output).0,
        r.1@.map_values(|x: usize| x as int) == block(string_views(lines@), start as int, output).1,
        start <= r.0 <= lines.len(),
{
    let ghost ls = string_views(lines@);
    let mut rows: Vec<usize> = Vec::new();
    let mut j = start;
    proof {
        lemma_block_end(ls, start as int, output);
    }
    while j < lines.len()
        invariant
            start <= j <= lines.len(),
            ls == string_views(lines@),
            block(ls, j as int, output).0 == block(ls, start as int, output).0,
            rows@.map_values(|x: usize| x as int) + block(ls, j as int, output).1 == block(ls, start as int, output).1,
        decreases lines.len() - j,
    {
        let (t, ts) = trimmed_line(lines, j);
        assert(ts@ == trim(ls[j as int]));
        let stop = if output {
            t.len() == 0 || starts_with_str(&t, "End") || ascii_contains_ci(ts.as_str(), "total energy")
        } else {
            t.len() == 0 || starts_with_str(&t, "/") || starts_with_str(&t, "&") || ascii_starts_with_ci(ts.as_str(), "k_points")
        };
        if stop {
            proof {
                assert(block(ls, j as int, output).1 =~= Seq::<int>::empty());
                assert(rows@.map_values(|x: usize| x as int) + Seq::<int>::empty() =~= rows@.map_values(|x: usize| x as int));
            }
            return (j, rows);
        }
        let ws = split_ws(&t);
        if ws.len() >= 4 {
            let ghost before = rows@.map_values(|x: usize| x as int);
            rows.push(j);
            assert(rows@.map_values(|x: usize| x as int) =~= before.push(j as int));
            assert(before.push(j as int) + block(ls, j + 1, output).1 =~= before + (seq![j as int] + block(ls, j + 1, output).1));
        }
        j = j + 1;
    }
    proof {
        assert(block(ls, j as int, output).1 =~= Seq::<int>::empty());
        assert(rows@.map_values(|x: usize| x as int) + Seq::<int>::empty() =~= rows@.map_values(|x: usize| x as int));
    }
    (j, rows)
}

/// Scans the lines of a Quantum Espresso output file for `alat` lines, cell
/// blocks and atomic-positions blocks, in file order.
pub fn scan_output(lines: &Vec<String>) -> (r: Vec<QeEvent>)
    ensures
        event_views(r@) == output_events(string_views(lines@), 0),
{
    let ghost ls = string_views(lines@);
    let mut ev: Vec<QeEvent> = Vec::new();
    let mut i: usize = 0;
    proof {
        assert(event_views(ev@) + output_events(ls, 0) =~= output_events(ls, 0));
    }
    while i < lines.len()
        invariant
            i <= lines.len(),
            ls == string_views(lines@),
            event_views(ev@) + output_events(ls, i as int) == output_events(ls, 0),
        decreases lines.len() - i,
    {
        let (_t, ts) = trimmed_line(lines, i);
        let ghost before = event_views(ev@);
        let ghost t = trim(ls[i as int]);
        if ascii_contains_ci(ts.as_str(), "lattice parameter (alat)") {
            ev.push(QeEvent::Alat(i));
        }
        if ascii_starts_with_ci(ts.as_str(), "cell_parameters") && lines.len() - i > 3 {
            ev.push(QeEvent::Cell(i));
        }
        let ghost e1 = if ci_contains(t, "lattice parameter (alat)"@) { seq![QeEventView::Alat(i as int)] } else { seq![] };
        let ghost e2 = if ci_starts(t, "cell_parameters"@) && i + 3 < lines.len() { seq![QeEventView::Cell(i as int)] } else { seq![] };
        assert(event_views(ev@) =~= before + e1 + e2);
        if ascii_starts_with_ci(ts.as_str(), "atomic_positions") {
            let (end, rows) = block_exec(lines, i + 1, true);
            let ghost mid = event_views(ev@);
            ev.push(QeEvent::Atoms(i, rows));
            assert(event_views(ev@) =~= mid.push(QeEventView::Atoms(i as int, block(ls, i + 1, true).1)));
            assert(output_events(ls, i as int) == e1 + e2 + seq![QeEventView::Atoms(i as int, block(ls, i + 1, true).1)] + output_events(ls, end as int));
            assert(event_views(ev@) + output_events(ls, end as int) =~= before + output_events(ls, i as int));
            i = end;
        } else {
            assert(event_views(ev@) + output_events(ls, i + 1) =~= before + output_events(ls, i as int));
            i = i + 1;
        }
    }
    proof {
        assert(event_views(ev@) + Seq::<QeEventView>::empty() =~= event_views(ev@));
    }
    ev
}

/// Scans the lines of a Quantum Espresso input file for cell blocks and
/// atomic-positions blocks, in file order.
pub fn scan_input_blocks(lines: &Vec<String>) -> (r: Vec<QeEvent>)
    ensures
        event_views(r@) == input_block_events(string_views(lines@), 0),
{
    let ghost ls = string_views(lines@);
    let mut ev: Vec<QeEvent> = Vec::new();
    let mut i: usize = 0;
    proof {
        assert(event_views(ev@) + input_block_events(ls, 0) =~= input_block_events(ls, 0));
    }
    while i < lines.len()
        invariant
            i <= lines.len(),
            ls == string_views(lines@),
            event_views(ev@) + input_block_events(ls, i as int) == input_block_events(ls, 0),
        decreases lines.len() - i,
    {
        let (_t, ts) = trimmed_line(lines, i);
        let ghost before = event_views(ev@);
        let ghost t = trim(ls[i as int]);
        if ascii_starts_with_ci(ts.as_str(), "cell_parameters") && lines.len() - i > 3 {
            ev.push(QeEvent::Cell(i));
        }
        let ghost e2 = if ci_starts(t, "cell_parameters"@) && i + 3 < lines.len() { seq![QeEventView::Cell(i as int)] } else { seq![] };
        assert(event_views(ev@) =~= before + e2);
        if ascii_starts_with_ci(ts.as_str(), "atomic_positions") {
            let (end, rows) = block_exec(lines, i + 1, false);
            let ghost mid = event_views(ev@);
            ev.push(QeEvent::Atoms(i, rows));
            assert(event_views(ev@) =~= mid.push(QeEventView::Atoms(i as int, block(ls, i + 1, false).1)));
            assert(input_block_events(ls, i as int) == e2 + seq![QeEventView::Atoms(i as int, block(ls, i + 1, false).1)] + input_block_events(ls, end + 1));
            if end < lines.len() {
                assert(event_views(ev@) + input_block_events(ls, end + 1) =~= before + input_block_events(ls, i as int));
                i = end + 1;
            } else {
                assert(input_block_events(ls, end + 1) =~= Seq::<QeEventView>::empty());
                assert(input_block_events(ls, end as int) =~= Seq::<QeEventView>::empty());
                assert(event_views(ev@) + input_block_events(ls, end as int) =~= before + input_block_events(ls, i as int));
                i = end;
            }
        } else {
            assert(event_views(ev@) + input_block_events(ls, i + 1) =~= before + input_block_events(ls, i as int));
            i = i + 1;
        }
    }
    proof {
        assert(event_views(ev@) + Seq::<QeEventView>::empty() =~= event_views(ev@));
    }
    ev
}

/// Scans the lines of a Quantum Espresso input file for the lines that set
/// the lattice constant and the lattice type, in file order.
pub fn scan_input_params(lines: &Vec<String>) -> (r: Vec<QeEvent>)
    ensures
        event_views(r@) == input_param_events(string_views(lines@), 0),
{
    let ghost ls = string_views(lines@);
    let mut ev: Vec<QeEvent> = Vec::new();
    let mut i: usize = 0;
    proof {
        assert(event_views(ev@) + input_param_events(ls, 0) =~= input_param_events(ls, 0));
    }
    while i < lines.len()
        invariant
            i <= lines.len(),
            ls == string_views(lines@),
            event_views(ev@) + input_param_events(ls, i as int) == input_param_events(ls, 0),
        decreases lines.len() - i,
    {
        let (t, ts) = trimmed_line(lines, i);
        let ghost before = event_views(ev@);
        if !(starts_with_str(&t, "!") || starts_with_str(&t, "#")) {
            if contains_celldm_one(ts.as_str()) {
                ev.push(QeEvent::Celldm(i));
            } else if ascii_contains_ci(ts.as_str(), " a ") || ascii_starts_with_ci(ts.as_str(), "a=")
                || ascii_starts_with_ci(ts.as_str(), "a =") {
                ev.push(QeEvent::LatticeA(i));
            }
            if ascii_contains_ci(ts.as_str(), "ibrav") {
                ev.push(QeEvent::Ibrav(i));
            }
        }
        assert(event_views(ev@) + input_param_events(ls, i + 1) =~= before + input_param_events(ls, i as int));
        i = i + 1;
    }
    proof {
        assert(event_views(ev@) + Seq::<QeEventView>::empty() =~= event_views(ev@));
    }
    ev
}

/// The unit keyword of a block header.
#[derive(Debug, Clone, Copy, PartialEq, Eq, Structural)]
pub enum QeUnit {
    Angstrom,
    Bohr,
    Crystal,
    Alat,
}

/// What a block header such as `CELL_PARAMETERS (alat= 10.2)` says: whether it
/// assigns `alat` explicitly, and its first unit keyword in the order
/// angstrom, bohr, crystal, alat (ignoring case); `None` leaves the default.
pub open spec fn header_unit_of(h: Seq<char>) -> (bool, Option<QeUnit>) {
    (ci_contains(h, "alat="@) || ci_contains(h, "alat ="@), if ci_contains(h, "angstrom"@) {
        Some(QeUnit::Angstrom)
    } else if ci_contains(h, "bohr"@) {
        Some(QeUnit::Bohr)
    } else if ci_contains(h, "crystal"@) {
        Some(QeUnit::Crystal)
    } else if ci_contains(h, "alat"@) {
        Some(QeUnit::Alat)
    } else {
        None
    })
}

/// Reads the unit of a block header.
pub fn header_unit(header: &str) -> (r: (bool, Option<QeUnit>))
    ensures
        r == header_unit_of(header@),
{
    let assigns = ascii_contains_ci(header, "alat=") || ascii_contains_ci(header, "alat =");
    let unit = if ascii_contains_ci(header, "angstrom") {
        Some(QeUnit::Angstrom)
    } else if ascii_contains_ci(header, "bohr") {
        Some(QeUnit::Bohr)
    } else if ascii_contains_ci(header, "crystal") {
        Some(QeUnit::Crystal)
    } else if ascii_contains_ci(header, "alat") {
        Some(QeUnit::Alat)
    } else {
        None
    };
    (assigns, unit)
}

/// A file is a Quantum Espresso output, rather than an input, when it holds
/// one of the markers that runs write.
pub open spec fn is_output_text(content: Seq<char>) -> bool {
    has_infix(content, "Program PWSCF"@) || has_infix(content, "JOB DONE"@) || has_infix(content, "unit-cell volume"@)
}

pub fn is_output(content: &str) -> (r: bool)
    ensures
        r == is_output_text(content@),
{
    let v = chars_of(content);
    contains_str(&v, "Program PWSCF") || contains_str(&v, "JOB DONE") || contains_str(&v, "unit-cell volume")
}

/// The kind of a scan event, without its line numbers.
#[derive(Debug, Clone, Copy, PartialEq, Eq, Structural)]
pub enum QeKind {
    Alat,
    Cell,
    Atoms,
    Celldm,
    LatticeA,
    Ibrav,
}

pub open spec fn kind_of(e: QeEventView) -> QeKind {
    match e {
        QeEventView::Alat(_) => QeKind::Alat,
        QeEventView::Cell(_) => QeKind::Cell,
        QeEventView::Atoms(_, _) => QeKind::Atoms,
        QeEventView::Celldm(_) => QeKind::Celldm,
        QeEventView::LatticeA(_) => QeKind::LatticeA,
        QeEventView::Ibrav(_) => QeKind::Ibrav,
    }
}

/// `r` is the position of the last event of `kind` among the first `end`
/// events, or `None` when there is none.
pub open spec fn last_of_kind(s: Seq<QeEventView>, end: int, kind: QeKind, r: Option<usize>) -> bool {
    match r {
        Some(k) => {
            &&& 0 <= k < end
            &&& kind_of(s[k as int]) == kind
            &&& forall|j: int| k < j < end ==> kind_of(#[trigger] s[j]) != kind
        },
        None => forall|j: int| 0 <= j < end ==> kind_of(#[trigger] s[j]) != kind,
    }
}

fn event_kind(e: &QeEvent) -> (r: QeKind)
    ensures
        r == kind_of(e.view()),
{
    match e {
        QeEvent::Alat(_) => QeKind::Alat,
        QeEvent::Cell(_) => QeKind::Cell,
        QeEvent::Atoms(_, _) => QeKind::Atoms,
        QeEvent::Celldm(_) => QeKind::Celldm,
        QeEvent::LatticeA(_) => QeKind::LatticeA,
        QeEvent::Ibrav(_) => QeKind::Ibrav,
    }
}

/// The position of the last event of `kind` before position `end`: for an
/// atomic-positions block, the cell block and the `alat` lines that were in
/// force when it was read.
pub fn last_event_before(events: &Vec<QeEvent>, end: usize, kind: QeKind) -> (r: Option<usize>)
    requires
        end <= events.len(),
    ensures
        last_of_kind(event_views(events@), end as int, kind, r),
{
    let ghost ev = event_views(events@);
    let mut i: usize = end;
    while i > 0
        invariant
            i <= end <= events.len(),
            ev == event_views(events@),
            forall|j: int| i <= j < end ==> kind_of(#[trigger] ev[j]) != kind,
        decreases i,
    {
        i = i - 1;
        if event_kind(&events[i]) == kind {
            return Some(i);
        }
    }
    None
}

/// The structure an output file ends with, as positions in its events: the
/// last cell block and the last atomic-positions block. A relaxation writes
/// one of each per step; the final step is the one that stands.
pub fn final_output_blocks(events: &Vec<QeEvent>) -> (r: (Option<usize>, Option<usize>))
    ensures
        last_of_kind(event_views(events@), events@.len() as int, QeKind::Cell, r.0),
        last_of_kind(event_views(events@), events@.len() as int, QeKind::Atoms, r.1),
{
    let cell = last_event_before(events, events.len(), QeKind::Cell);
    let atoms = last_event_before(events, events.len(), QeKind::Atoms);
    (cell, atoms)
}

} // verus!
