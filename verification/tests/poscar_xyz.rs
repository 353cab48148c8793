use cview::poscar::{atom_element, chgcar_species, coordinate_mode, is_selective_line, poscar_blocks, poscar_formula, poscar_species};
use cview::xyz::{extended_lattice, first_frame_rows, xyz_atom_count};

fn strings(v: &[&str]) -> Vec<String> {
    v.iter().map(|s| s.to_string()).collect()
}

#[test]
fn species_with_symbols() {
    let p = poscar_species("  Fe  O ", Some(" 2 3")).unwrap();
    assert_eq!(p.elements, strings(&["Fe", "O"]));
    assert_eq!(p.counts, vec![2, 3]);
    assert!(p.used_next_line);
    assert_eq!(poscar_species("Fe O", None).err().unwrap(), "Missing atom counts");
    assert_eq!(poscar_species("Fe O", Some("2 x")).err().unwrap(), "Invalid atom count");
}

#[test]
fn species_without_symbols() {
    let p = poscar_species("4 8", Some("Direct")).unwrap();
    assert_eq!(p.elements, strings(&["El1", "El2"]));
    assert_eq!(p.counts, vec![4, 8]);
    assert!(!p.used_next_line);
    assert_eq!(poscar_species("4 -8", None).err().unwrap(), "Invalid atom count");
    let empty = poscar_species("   ", None).unwrap();
    assert!(empty.elements.is_empty() && empty.counts.is_empty());
    // a non-ASCII letter starts a symbol line too
    assert!(poscar_species("Åx", Some("1")).unwrap().used_next_line);
}

#[test]
fn mode_lines() {
    assert!(is_selective_line("  Selective dynamics"));
    assert!(is_selective_line("s"));
    assert!(!is_selective_line("Direct"));
    assert_eq!(coordinate_mode(" Direct"), Some(true));
    assert_eq!(coordinate_mode("cartesian"), Some(false));
    assert_eq!(coordinate_mode("Kartesisch"), Some(false));
    assert_eq!(coordinate_mode("\u{212a}"), Some(false));
    assert_eq!(coordinate_mode("Fractional"), None);
    assert_eq!(coordinate_mode("   "), None);
}

#[test]
fn poscar_labels() {
    assert_eq!(poscar_formula(&strings(&["Fe", "O"]), &vec![2, 3]), "Fe2O3");
    assert_eq!(poscar_formula(&strings(&["Fe", "O", "H"]), &vec![1, 1]), "Fe1O1");
    assert_eq!(poscar_formula(&strings(&["Fe"]), &vec![4, 5]), "Fe4");
    assert_eq!(poscar_formula(&Vec::new(), &vec![4]), "");
}

#[test]
fn blocks_for_writing() {
    let els = strings(&["O", "Fe", "O", "Fe", "O"]);
    let (names, counts, order) = poscar_blocks(&els);
    assert_eq!(names, strings(&["Fe", "O"]));
    assert_eq!(counts, vec![2, 3]);
    assert_eq!(order, vec![1, 3, 0, 2, 4]);
    let (n, c, o) = poscar_blocks(&Vec::new());
    assert!(n.is_empty() && c.is_empty() && o.is_empty());
}

#[test]
fn xyz_counts() {
    assert_eq!(xyz_atom_count(" 20 "), Ok(20));
    assert_eq!(xyz_atom_count("two"), Err("Invalid atom count".to_string()));
    assert_eq!(xyz_atom_count(""), Err("Invalid atom count".to_string()));
}

#[test]
fn xyz_lattice_text() {
    assert_eq!(
        extended_lattice("Lattice=\"5 0 0 0 5 0 0 0 5\" Properties=species:S:1:pos:R:3"),
        Some("5 0 0 0 5 0 0 0 5".to_string())
    );
    assert_eq!(extended_lattice("water fragment"), None);
    assert_eq!(extended_lattice("Lattice=\"1 2 3"), None);
    assert_eq!(extended_lattice("x Lattice=\"\" y"), Some(String::new()));
}

#[test]
fn xyz_first_frame_only() {
    let lines = strings(&["1", "frame 1", "H 0.0 0.0 0.0", "1", "frame 2", "H 1.0 1.0 1.0"]);
    assert_eq!(first_frame_rows(&lines, 2, 1), vec![2]);
    let lines = strings(&["2", "water fragment", "O 0.0 0.0 0.0", "", "H 0.96 0.0 0.0"]);
    assert_eq!(first_frame_rows(&lines, 2, 2), vec![2, 4]);
    assert_eq!(first_frame_rows(&lines, 2, 5), vec![2, 4]);
    assert_eq!(first_frame_rows(&lines, 5, 1), Vec::<usize>::new());
}

#[test]
fn chgcar_headers() {
    let p = chgcar_species("Ba Ti O", Some("1 1 3")).unwrap();
    assert_eq!(p.elements, strings(&["Ba", "Ti", "O"]));
    assert_eq!(p.counts, vec![1, 1, 3]);
    assert_eq!(chgcar_species("Ba Ti O", None).err().unwrap(), "Unexpected EOF: atom counts");
    let q = chgcar_species(" 2 4", None).unwrap();
    assert_eq!(q.elements, strings(&["X1", "X2"]));
    assert!(!q.used_next_line);
}

#[test]
fn atoms_follow_species_blocks() {
    let names = strings(&["Ba", "Ti", "O"]);
    let counts = vec![1, 0, 3];
    let got: Vec<String> = (0..5).map(|k| atom_element(&names, &counts, k)).collect();
    assert_eq!(got, strings(&["Ba", "O", "O", "O", "X4"]));
    assert_eq!(atom_element(&strings(&["Fe"]), &vec![1, 2], 2), "X2");
}
