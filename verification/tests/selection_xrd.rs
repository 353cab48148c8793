use cview::selection::{kept_indices, modified_elements, substituted_elements};
use cview::xrd::canonical_hkl;

fn strings(v: &[&str]) -> Vec<String> {
    v.iter().map(|s| s.to_string()).collect()
}

#[test]
fn substitute_all_of_one_element() {
    let els = strings(&["Fe", "O", "Fe", "O"]);
    assert_eq!(substituted_elements(&els, "Fe", "Co"), strings(&["Co", "O", "Co", "O"]));
    assert_eq!(substituted_elements(&els, "Ni", "Co"), els);
}

#[test]
fn modify_selected_atoms() {
    let els = strings(&["Fe", "O", "Fe", "O"]);
    assert_eq!(modified_elements(&els, &[0, 3, 9], "Mn"), strings(&["Mn", "O", "Fe", "Mn"]));
    assert_eq!(modified_elements(&els, &[], "Mn"), els);
}

#[test]
fn remove_selected_atoms() {
    assert_eq!(kept_indices(5, &[1, 3, 3, 7]), vec![0, 2, 4]);
    assert_eq!(kept_indices(3, &[]), vec![0, 1, 2]);
    assert_eq!(kept_indices(0, &[0]), Vec::<usize>::new());
}

#[test]
fn friedel_pairs_share_a_representative() {
    assert_eq!(canonical_hkl((1, 1, 1)), (1, 1, 1));
    assert_eq!(canonical_hkl((-1, -1, -1)), (1, 1, 1));
    assert_eq!(canonical_hkl((0, -2, 1)), (0, 2, -1));
    assert_eq!(canonical_hkl((0, 0, -3)), (0, 0, 3));
    assert_eq!(canonical_hkl((-2, 5, 0)), (2, -5, 0));
    assert_eq!(canonical_hkl((0, 0, 0)), (0, 0, 0));
    for hkl in [(1, -2, 3), (0, 4, -1), (-3, 0, 2)] {
        assert_eq!(canonical_hkl(hkl), canonical_hkl((-hkl.0, -hkl.1, -hkl.2)));
    }
}
