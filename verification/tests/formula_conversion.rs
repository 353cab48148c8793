use cview::conversion::{build_formula, first_seen_types, species_ids, CellType};
use cview::formula::generate_formula;

fn strings(v: &[&str]) -> Vec<String> {
    v.iter().map(|s| s.to_string()).collect()
}

#[test]
fn formula_sorted_with_counts() {
    let els = strings(&["Cs", "Mo", "Cl", "Cl", "Cs", "Cl", "Cl", "Cl", "Cl"]);
    assert_eq!(generate_formula(&els), "Cl6Cs2Mo");
    assert_eq!(build_formula(&els), "Cl6Cs2Mo");
}

#[test]
fn formula_edge_cases() {
    assert_eq!(generate_formula(&Vec::new()), "");
    assert_eq!(generate_formula(&strings(&["O"])), "O");
    assert_eq!(generate_formula(&strings(&["O", "H", "H"])), "H2O");
    // byte order: upper case before lower case
    assert_eq!(generate_formula(&strings(&["b", "B", "a"])), "Bab");
}

#[test]
fn formula_ignores_order() {
    let a = strings(&["Ti", "O", "Ba", "O", "O"]);
    let b = strings(&["O", "O", "O", "Ti", "Ba"]);
    assert_eq!(generate_formula(&a), generate_formula(&b));
    assert_eq!(generate_formula(&a), "BaO3Ti");
}

#[test]
fn species_numbers() {
    let (names, ids) = species_ids(&strings(&["Na", "Cl", "Na", "Xy", "Cl", "Qq"]));
    assert_eq!(names, strings(&["Na", "Cl", "Xy", "Qq"]));
    assert_eq!(ids, vec![11, 17, -3, -4]);
}

#[test]
fn cell_types_differ() {
    assert_ne!(CellType::Primitive, CellType::Conventional);
}

#[test]
fn type_numbers_by_first_appearance() {
    let (names, types) = first_seen_types(&strings(&["O", "Fe", "O", "Co", "Fe"]));
    assert_eq!(names, strings(&["O", "Fe", "Co"]));
    assert_eq!(types, vec![1, 2, 1, 3, 2]);
    let (names, types) = first_seen_types(&Vec::new());
    assert!(names.is_empty() && types.is_empty());
}

#[test]
fn reverse_lookups() {
    let names = strings(&["Na", "Cl", "Xy"]);
    let ids = vec![11, 17, -3];
    assert_eq!(cview::conversion::name_of_id(&names, &ids, 17), "Cl");
    assert_eq!(cview::conversion::name_of_id(&names, &ids, -3), "Xy");
    assert_eq!(cview::conversion::name_of_id(&names, &ids, 5), "X");
    assert_eq!(cview::conversion::name_of_type(&names, 1), "Na");
    assert_eq!(cview::conversion::name_of_type(&names, 3), "Xy");
    assert_eq!(cview::conversion::name_of_type(&names, 4), "X");
}
