use cview::symop::{parse_symop, SymAxis};
use cview::cif::{
    append_centering, centering_translations, cif_number_text, element_from_label, extract_quoted_or_tail,
    extract_symop_string, normalize_element, parse_atom_row, scan_cif, symops_or_identity, translated_op,
};

fn lines(text: &str) -> Vec<String> {
    text.lines().map(|s| s.to_string()).collect()
}

fn strings(v: &[&str]) -> Vec<String> {
    v.iter().map(|s| s.to_string()).collect()
}

#[test]
fn symop_rows() {
    assert_eq!(extract_symop_string("1 'x, y, z'"), Some("x, y, z".to_string()));
    assert_eq!(extract_symop_string("'-x,-y,-z'"), Some("-x,-y,-z".to_string()));
    assert_eq!(extract_symop_string("  \"x+1/2, -y, z\"  "), Some("x+1/2, -y, z".to_string()));
    assert_eq!(extract_symop_string("12 x,y"), None);
    assert_eq!(extract_symop_string("a1 x,y,z"), Some("a1 x,y,z".to_string()));
}

#[test]
fn element_names() {
    assert_eq!(normalize_element("SI1A"), "Si");
    assert_eq!(normalize_element("fe3+"), "Fe");
    assert_eq!(normalize_element("o"), "O");
    assert_eq!(normalize_element("123"), "X");
    assert_eq!(element_from_label("O1B"), "O");
    assert_eq!(element_from_label("Fe2+"), "Fe");
    assert_eq!(element_from_label("1Fe"), "X");
}

#[test]
fn quoted_values() {
    assert_eq!(extract_quoted_or_tail("_space_group_name_H-M_alt 'A 1 2/n 1'"), Some("A 1 2/n 1".to_string()));
    assert_eq!(extract_quoted_or_tail("_symmetry_space_group_name_H-M   P1"), Some("P1".to_string()));
    assert_eq!(extract_quoted_or_tail("_space_group_name_H-M_alt"), None);
    assert_eq!(extract_quoted_or_tail("_space_group_name_H-M_alt   "), None);
    assert_eq!(extract_quoted_or_tail("_tag '"), Some("'".to_string()));
}

#[test]
fn numbers_lose_uncertainty() {
    assert_eq!(cif_number_text("5.4307(2)"), "5.4307");
    assert_eq!(cif_number_text("0.25"), "0.25");
}

#[test]
fn atom_rows() {
    let headers = strings(&["_atom_site_label", "_atom_site_type_symbol", "_atom_site_fract_x", "_atom_site_fract_y", "_atom_site_fract_z"]);
    let row = parse_atom_row("Si1 SI4+ 0.125(3) 0.5 0.75", &headers).unwrap();
    assert_eq!(row.element, "Si");
    assert_eq!(row.x, "0.125");
    assert_eq!(row.y, "0.5");
    assert_eq!(row.z, "0.75");
    let headers = strings(&["_atom_site_label", "_atom_site_fract_x", "_atom_site_fract_y", "_atom_site_fract_z"]);
    let row = parse_atom_row("Fe2 0 0.5 0.5", &headers).unwrap();
    assert_eq!(row.element, "Fe");
    assert!(parse_atom_row("Fe2 0 0.5", &headers).is_none());
    let headers = strings(&["_atom_site_fract_x", "_atom_site_fract_y", "_atom_site_fract_z", "_atom_site_occupancy"]);
    assert_eq!(parse_atom_row("0 0 0 1", &headers).unwrap().element, "X");
}

#[test]
fn centering_of_symbols() {
    assert_eq!(centering_translations("F m -3 m"), vec![(0, 3, 3), (3, 0, 3), (3, 3, 0)]);
    assert_eq!(centering_translations("  I 4/m m m"), vec![(3, 3, 3)]);
    assert_eq!(centering_translations("R -3 m"), vec![(4, 2, 2), (2, 4, 4)]);
    assert_eq!(centering_translations("P 1"), vec![]);
    assert_eq!(centering_translations(""), vec![]);
}

#[test]
fn translated_operations() {
    assert_eq!(translated_op("x,y,z", 0, 3, 3), "x+0.000000,y+1/2,z+1/2");
    assert_eq!(translated_op(" -x , y, z ", 4, 2, 2), "-x+2/3,y+1/3,z+1/3");
    assert_eq!(translated_op("x,y", 3, 3, 3), "x,y");
}

#[test]
fn centering_appended() {
    let mut ops = strings(&["x,y,z", "-x,-y,-z"]);
    append_centering(&mut ops, &vec![(3, 3, 3)]);
    assert_eq!(ops, strings(&["x,y,z", "-x,-y,-z", "x+1/2,y+1/2,z+1/2", "-x+1/2,-y+1/2,-z+1/2"]));
    let mut none: Vec<String> = Vec::new();
    symops_or_identity(&mut none);
    assert_eq!(none, strings(&["x,y,z"]));
    let mut some = strings(&["-x,y,z"]);
    symops_or_identity(&mut some);
    assert_eq!(some, strings(&["-x,y,z"]));
}

#[test]
fn scan_small_file() {
    let text = "data_Si\n_cell_length_a 5.4307(2)\n_cell_angle_gamma\n_space_group_name_H-M_alt 'F d -3 m'\n_symmetry_space_group_name_H-M 'P 1'\n;\nloop_\n_atom_site_fract_x\n0 0 0 0\n;\n# comment\nloop_\n_symmetry_equiv_pos_as_xyz\n'x, y, z'\n2 '-x, -y, -z'\nloop_\n_atom_site_label\n_atom_site_fract_x\n_atom_site_fract_y\n_atom_site_fract_z\nSi1 0 0 0\nO2 0.5 0.5(1) 0.5\n";
    let s = scan_cif(&lines(text));
    assert_eq!(s.a, Some(Some("5.4307".to_string())));
    assert_eq!(s.b, None);
    assert_eq!(s.gamma, Some(None));
    assert_eq!(s.hm, Some("F d -3 m".to_string()));
    assert_eq!(s.symops, strings(&["x, y, z", "-x, -y, -z"]));
    assert_eq!(s.atoms.len(), 2);
    assert_eq!(s.atoms[0].element, "Si");
    assert_eq!(s.atoms[1].element, "O");
    assert_eq!(s.atoms[1].y, "0.5");
}

#[test]
fn text_field_hides_tags() {
    let text = ";\n_cell_length_a 3\nloop_\n_atom_site_fract_x\n;\n_cell_length_b 4\n";
    let s = scan_cif(&lines(text));
    assert_eq!(s.a, None);
    assert_eq!(s.b, Some(Some("4".to_string())));
    assert!(s.atoms.is_empty());
}

#[test]
fn data_block_closes_loop() {
    let text = "loop_\n_atom_site_fract_x\n_atom_site_fract_y\n_atom_site_fract_z\n_atom_site_type_symbol\ndata_next\n0 0 0 Na\n";
    let s = scan_cif(&lines(text));
    assert!(s.atoms.is_empty());
    assert!(!s.in_loop);
}

fn constant_texts(a: &SymAxis) -> Vec<(bool, String, Option<String>)> {
    a.constants.iter().map(|c| (c.negative, c.numerator.clone(), c.denominator.clone())).collect()
}

#[test]
fn symop_coefficients_and_constants() {
    let (a, b, c) = parse_symop("-x+1/2, Y ,z-0.25").expect("three coordinates");
    assert_eq!((a.x, a.y, a.z), (-1, 0, 0));
    assert_eq!(constant_texts(&a), vec![(false, "1".to_string(), Some("2".to_string()))]);
    assert_eq!((b.x, b.y, b.z), (0, 1, 0));
    assert!(b.constants.is_empty());
    assert_eq!((c.x, c.y, c.z), (0, 0, 1));
    assert_eq!(constant_texts(&c), vec![(true, "0.25".to_string(), None)]);
}

#[test]
fn symop_mixed_terms() {
    let (a, b, _) = parse_symop("x-y,2/3+x,z").expect("three coordinates");
    assert_eq!((a.x, a.y, a.z), (1, -1, 0));
    assert_eq!((b.x, b.y, b.z), (1, 0, 0));
    assert_eq!(constant_texts(&b), vec![(false, "2".to_string(), Some("3".to_string()))]);
}

#[test]
fn symop_repeated_sign_is_an_empty_constant() {
    let (a, _, _) = parse_symop("--x,y,z").expect("three coordinates");
    assert_eq!((a.x, a.y, a.z), (-1, 0, 0));
    assert_eq!(constant_texts(&a), vec![(true, String::new(), None)]);
}

#[test]
fn symop_needs_three_coordinates() {
    assert!(parse_symop("x,y").is_none());
    assert!(parse_symop("x,y,z,1").is_none());
}

#[test]
fn translated_operation_reads_back_with_one_more_constant() {
    let op = "-x, y ,z+1/4";
    let (a0, b0, c0) = parse_symop(op).expect("three coordinates");
    let (a, b, c) = parse_symop(&translated_op(op, 3, 0, 2)).expect("three coordinates");
    assert_eq!((a.x, a.y, a.z), (a0.x, a0.y, a0.z));
    assert_eq!((b.x, b.y, b.z), (b0.x, b0.y, b0.z));
    assert_eq!((c.x, c.y, c.z), (c0.x, c0.y, c0.z));
    assert_eq!(constant_texts(&a), vec![(false, "1".to_string(), Some("2".to_string()))]);
    assert_eq!(constant_texts(&b), vec![(false, "0.000000".to_string(), None)]);
    assert_eq!(
        constant_texts(&c),
        vec![(false, "1".to_string(), Some("4".to_string())), (false, "1".to_string(), Some("3".to_string()))]
    );
}
