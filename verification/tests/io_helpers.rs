use cview::chgcar::{parse_ints, parse_usize_word, skip_blanks_get_line};
use cview::formats::{load_format, save_format, LoadFormat, SaveFormat};

fn lines(v: &[&str]) -> Vec<String> {
    v.iter().map(|s| s.to_string()).collect()
}

#[test]
fn grid_line_parses() {
    assert_eq!(parse_ints("  24  24 36 ", 3), Ok(vec![24, 24, 36]));
    assert_eq!(parse_ints("10 20 30 40", 3), Ok(vec![10, 20, 30]));
    assert_eq!(parse_ints("+7", 1), Ok(vec![7]));
}

#[test]
fn grid_line_errors() {
    assert_eq!(parse_ints("24 24", 3), Err("Not enough integers in grid line".to_string()));
    assert_eq!(parse_ints("24 x4 36", 3), Err("Cannot parse int: x4".to_string()));
    assert_eq!(parse_ints("-1 2 3", 3), Err("Cannot parse int: -1".to_string()));
    // The first bad word is reported, even when words are missing too.
    assert_eq!(parse_ints("1.5", 3), Err("Cannot parse int: 1.5".to_string()));
}

#[test]
fn usize_word_limits() {
    let w: Vec<char> = "18446744073709551615".chars().collect();
    assert_eq!(parse_usize_word(&w), Some(usize::MAX));
    let w: Vec<char> = "18446744073709551616".chars().collect();
    assert_eq!(parse_usize_word(&w), None);
    let w: Vec<char> = "+".chars().collect();
    assert_eq!(parse_usize_word(&w), None);
}

#[test]
fn blank_lines_are_skipped() {
    let ls = lines(&["", "   ", "  data", "next"]);
    let mut pos = 0;
    assert_eq!(skip_blanks_get_line(&ls, &mut pos), Ok("  data".to_string()));
    assert_eq!(pos, 3);
    assert_eq!(skip_blanks_get_line(&ls, &mut pos), Ok("next".to_string()));
    assert_eq!(pos, 4);
}

#[test]
fn blank_lines_until_eof() {
    let ls = lines(&["a", " ", "\t"]);
    let mut pos = 1;
    assert_eq!(skip_blanks_get_line(&ls, &mut pos), Err("Unexpected EOF while skipping blanks".to_string()));
    assert_eq!(pos, 3);
}

#[test]
fn load_format_by_extension() {
    assert_eq!(load_format("/x/Si.CIF", "Si.CIF"), LoadFormat::Cif);
    assert_eq!(load_format("a.xyz", "a.xyz"), LoadFormat::Xyz);
    assert_eq!(load_format("a.vasp", "a.vasp"), LoadFormat::Poscar);
    assert_eq!(load_format("scf.out", "scf.out"), LoadFormat::Qe);
    assert_eq!(load_format("run.pwi", "run.pwi"), LoadFormat::Qe);
    assert_eq!(load_format("fe.pot", "fe.pot"), LoadFormat::Sprkkr);
}

#[test]
fn load_format_by_name() {
    assert_eq!(load_format("/d/POSCAR", "POSCAR"), LoadFormat::Poscar);
    assert_eq!(load_format("/d/CONTCAR_relaxed", "CONTCAR_relaxed"), LoadFormat::Poscar);
    assert_eq!(load_format("/d/CHGCAR", "CHGCAR"), LoadFormat::Chgcar);
    assert_eq!(load_format("/d/structure", "structure"), LoadFormat::Poscar);
}

#[test]
fn save_format_by_extension() {
    assert_eq!(save_format("out.cif"), SaveFormat::Cif);
    assert_eq!(save_format("out.XYZ"), SaveFormat::Xyz);
    assert_eq!(save_format("out.in"), SaveFormat::Qe);
    assert_eq!(save_format("out.pwi"), SaveFormat::Poscar);
    assert_eq!(save_format("out.sys"), SaveFormat::Sprkkr);
    assert_eq!(save_format("POSCAR"), SaveFormat::Poscar);
}
