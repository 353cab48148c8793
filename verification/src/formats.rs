use vstd::prelude::*;

use crate::text::{ascii_lower, ascii_lower_exec, chars_of};

verus! {

/// The reader chosen for a structure file.
#[derive(Debug, Clone, Copy, PartialEq, Eq, Structural)]
pub enum LoadFormat {
    Cif,
    Xyz,
    Poscar,
    Qe,
    Sprkkr,
    /// CHGCAR files hold volumetric data, not a structure: refused.
    Chgcar,
}

/// The writer chosen for a structure file.
#[derive(Debug, Clone, Copy, PartialEq, Eq, Structural)]
pub enum SaveFormat {
    Cif,
    Xyz,
    Poscar,
    Qe,
    Sprkkr,
}

/// `s` ends with `suffix` (given in lowercase) ignoring case. For the ASCII
/// suffixes used here this is what `s.to_lowercase().ends_with(suffix)` tests.
pub open spec fn ends_with_ci(s: Seq<char>, suffix: Seq<char>) -> bool {
    &&& suffix.len() <= s.len()
    &&& forall|i: int| 0 <= i < suffix.len() ==> ascii_lower(#[trigger] s[s.len() - suffix.len() + i]) == suffix[i]
}

/// `s` starts with `prefix` (given in lowercase) ignoring case.
pub open spec fn starts_with_ci(s: Seq<char>, prefix: Seq<char>) -> bool {
    &&& prefix.len() <= s.len()
    &&& forall|i: int| 0 <= i < prefix.len() ==> ascii_lower(#[trigger] s[i]) == prefix[i]
}

fn ends_with_ci_exec(s: &Vec<char>, suffix: &str) -> (r: bool)
    ensures
        r == ends_with_ci(s@, suffix@),
{
    let p = chars_of(suffix);
    if p.len() > s.len() {
        return false;
    }
    let off = s.len() - p.len();
    let mut i: usize = 0;
    while i < p.len()
        invariant
            i <= p.len(),
            off + p.len() == s.len(),
            p@ == suffix@,
            forall|k: int| 0 <= k < i ==> ascii_lower(#[trigger] s@[s@.len() - p@.len() + k]) == p@[k],
        decreases p.len() - i,
    {
        if ascii_lower_exec(s[off + i]) != p[i] {
            assert(ascii_lower(s@[s@.len() - p@.len() + i]) != p@[i as int]);
            return false;
        }
        i = i + 1;
    }
    true
}

fn starts_with_ci_exec(s: &Vec<char>, prefix: &str) -> (r: bool)
    ensures
        r == starts_with_ci(s@, prefix@),
{
    let p = chars_of(prefix);
    if p.len() > s.len() {
        return false;
    }
    let mut i: usize = 0;
    while i < p.len()
        invariant
            i <= p.len() <= s.len(),
            p@ == prefix@,
            forall|k: int| 0 <= k < i ==> ascii_lower(#[trigger] s@[k]) == p@[k],
        decreases p.len() - i,
    {
        if ascii_lower_exec(s[i]) != p[i] {
            return false;
        }
        i = i + 1;
    }
    true
}

/// The reader for a file: by extension first (`.cif`, `.xyz`, `.vasp`, the
/// Quantum Espresso `.in .pwi .qe .out .log`, the SPR-KKR `.inp .pot .sys`),
/// then by a file name starting with POSCAR, CONTCAR or CHGCAR, and POSCAR
/// otherwise. `file_name` is the last component of `path`.
pub open spec fn load_format_of(path: Seq<char>, file_name: Seq<char>) -> LoadFormat {
    if ends_with_ci(path, ".cif"@) {
        LoadFormat::Cif
    } else if ends_with_ci(path, ".xyz"@) {
        LoadFormat::Xyz
    } else if ends_with_ci(path, ".vasp"@) {
        LoadFormat::Poscar
    } else if ends_with_ci(path, ".in"@) || ends_with_ci(path, ".pwi"@) || ends_with_ci(path, ".qe"@)
        || ends_with_ci(path, ".out"@) || ends_with_ci(path, ".log"@) {
        LoadFormat::Qe
    } else if ends_with_ci(path, ".inp"@) || ends_with_ci(path, ".pot"@) || ends_with_ci(path, ".sys"@) {
        LoadFormat::Sprkkr
    } else if starts_with_ci(file_name, "poscar"@) || starts_with_ci(file_name, "contcar"@) {
        LoadFormat::Poscar
    } else if starts_with_ci(file_name, "chgcar"@) {
        LoadFormat::Chgcar
    } else {
        LoadFormat::Poscar
    }
}

/// Chooses the reader for `path`, whose last component is `file_name`.
pub fn load_format(path: &str, file_name: &str) -> (r: LoadFormat)
    ensures
        r == load_format_of(path@, file_name@),
{
    let p = chars_of(path);
    let f = chars_of(file_name);
    if ends_with_ci_exec(&p, ".cif") {
        LoadFormat::Cif
    } else if ends_with_ci_exec(&p, ".xyz") {
        LoadFormat::Xyz
    } else if ends_with_ci_exec(&p, ".vasp") {
        LoadFormat::Poscar
    } else if ends_with_ci_exec(&p, ".in") || ends_with_ci_exec(&p, ".pwi") || ends_with_ci_exec(&p, ".qe")
        || ends_with_ci_exec(&p, ".out") || ends_with_ci_exec(&p, ".log") {
        LoadFormat::Qe
    } else if ends_with_ci_exec(&p, ".inp") || ends_with_ci_exec(&p, ".pot") || ends_with_ci_exec(&p, ".sys") {
        LoadFormat::Sprkkr
    } else if starts_with_ci_exec(&f, "poscar") || starts_with_ci_exec(&f, "contcar") {
        LoadFormat::Poscar
    } else if starts_with_ci_exec(&f, "chgcar") {
        LoadFormat::Chgcar
    } else {
        LoadFormat::Poscar
    }
}

/// The writer for a file, by extension: CIF, XYZ, Quantum Espresso (`.in`,
/// `.qe`), SPR-KKR (`.inp .pot .sys`), and POSCAR for everything else.
pub open spec fn save_format_of(path: Seq<char>) -> SaveFormat {
    if ends_with_ci(path, ".cif"@) {
        SaveFormat::Cif
    } else if ends_with_ci(path, ".xyz"@) {
        SaveFormat::Xyz
    } else if ends_with_ci(path, ".in"@) || ends_with_ci(path, ".qe"@) {
        SaveFormat::Qe
    } else if ends_with_ci(path, ".inp"@) || ends_with_ci(path, ".pot"@) || ends_with_ci(path, ".sys"@) {
        SaveFormat::Sprkkr
    } else {
        SaveFormat::Poscar
    }
}

/// Chooses the writer for `path`.
pub fn save_format(path: &str) -> (r: SaveFormat)
    ensures
        r == save_format_of(path@),
{
    let p = chars_of(path);
    if ends_with_ci_exec(&p, ".cif") {
        SaveFormat::Cif
    } else if ends_with_ci_exec(&p, ".xyz") {
        SaveFormat::Xyz
    } else if ends_with_ci_exec(&p, ".in") || ends_with_ci_exec(&p, ".qe") {
        SaveFormat::Qe
    } else if ends_with_ci_exec(&p, ".inp") || ends_with_ci_exec(&p, ".pot") || ends_with_ci_exec(&p, ".sys") {
        SaveFormat::Sprkkr
    } else {
        SaveFormat::Poscar
    }
}

/// The reader that reads what a writer writes.
pub open spec fn reader_of(f: SaveFormat) -> LoadFormat {
    match f {
        SaveFormat::Cif => LoadFormat::Cif,
        SaveFormat::Xyz => LoadFormat::Xyz,
        SaveFormat::Poscar => LoadFormat::Poscar,
        SaveFormat::Qe => LoadFormat::Qe,
        SaveFormat::Sprkkr => LoadFormat::Sprkkr,
    }
}

proof fn lemma_last_char(s: Seq<char>, suffix: Seq<char>)
    requires
        ends_with_ci(s, suffix),
        suffix.len() > 0,
    ensures
        ascii_lower(s[s.len() - 1]) == suffix[suffix.len() - 1],
{
    let i = suffix.len() - 1;
    assert(ascii_lower(s[s.len() - suffix.len() + i]) == suffix[i]);
}

proof fn lemma_third_last(s: Seq<char>, suffix: Seq<char>)
    requires
        ends_with_ci(s, suffix),
        suffix.len() >= 3,
    ensures
        ascii_lower(s[s.len() - 3]) == suffix[suffix.len() - 3],
{
    let i = suffix.len() - 3;
    assert(ascii_lower(s[s.len() - suffix.len() + i]) == suffix[i]);
}

/// A file written under a name with one of the written extensions (`.cif`,
/// `.xyz`, `.in`, `.qe`, `.inp`, `.pot`, `.sys`) is read back by the reader
/// of the format it was written in, whatever its file name.
pub proof fn lemma_written_files_read_back(path: Seq<char>, file_name: Seq<char>)
    ensures
        save_format_of(path) != SaveFormat::Poscar ==> load_format_of(path, file_name) == reader_of(
            save_format_of(path),
        ),
        ends_with_ci(path, ".vasp"@) ==> load_format_of(path, file_name) == LoadFormat::Poscar && save_format_of(path)
            == SaveFormat::Poscar,
{
    reveal_strlit(".cif");
    reveal_strlit(".xyz");
    reveal_strlit(".vasp");
    reveal_strlit(".in");
    reveal_strlit(".pwi");
    reveal_strlit(".qe");
    reveal_strlit(".out");
    reveal_strlit(".log");
    reveal_strlit(".inp");
    reveal_strlit(".pot");
    reveal_strlit(".sys");
    let ext = seq![".cif"@, ".xyz"@, ".vasp"@, ".in"@, ".pwi"@, ".qe"@, ".out"@, ".log"@, ".inp"@, ".pot"@, ".sys"@];
    assert forall|k: int| 0 <= k < ext.len() && #[trigger] ends_with_ci(path, ext[k]) implies ascii_lower(
        path[path.len() - 1],
    ) == ext[k][ext[k].len() - 1] && ascii_lower(path[path.len() - 3]) == ext[k][ext[k].len() - 3] by {
        lemma_last_char(path, ext[k]);
        lemma_third_last(path, ext[k]);
    }
    assert(ext[0] == ".cif"@);
    assert(ext[1] == ".xyz"@);
    assert(ext[2] == ".vasp"@);
    assert(ext[3] == ".in"@);
    assert(ext[4] == ".pwi"@);
    assert(ext[5] == ".qe"@);
    assert(ext[6] == ".out"@);
    assert(ext[7] == ".log"@);
    assert(ext[8] == ".inp"@);
    assert(ext[9] == ".pot"@);
    assert(ext[10] == ".sys"@);
}

} // verus!
