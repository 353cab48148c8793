use cview::elements::{element_properties, element_row, element_symbol, get_atomic_number};

#[test]
fn atomic_numbers() {
    assert_eq!(get_atomic_number("H"), 1);
    assert_eq!(get_atomic_number("Fe"), 26);
    assert_eq!(get_atomic_number("Lr"), 103);
    assert_eq!(get_atomic_number("fe"), 0);
    assert_eq!(get_atomic_number("Xx"), 0);
    assert_eq!(get_atomic_number(""), 0);
}

#[test]
fn symbols_round_trip() {
    for z in 1..=103 {
        assert_eq!(get_atomic_number(&element_symbol(z)), z);
    }
    assert_eq!(element_symbol(8), "O");
}

#[test]
fn iron_properties() {
    let fe = element_properties("Fe");
    assert_eq!(fe.covalent_milli, 1250);
    assert_eq!(fe.ionic_milli, 780);
    assert_eq!(fe.vdw_milli, 2000);
    assert_eq!(fe.chi_centi, 183);
    assert_eq!(fe.chi_exact, (1.83f64 * 2f64.powi(60)) as u64);
    assert_eq!(fe.rgb_centi, (21, 27, 31));
    assert_eq!(fe.cromer_mann_micro[0], 11_769_500);
    assert_eq!(fe.cromer_mann_micro[8], 1_036_900);
}

#[test]
fn unknown_element_defaults() {
    let x = element_properties("Qq");
    assert_eq!(x.covalent_milli, 1500);
    assert_eq!(x.ionic_milli, 0);
    assert_eq!(x.vdw_milli, 2000);
    assert_eq!(x.chi_exact, 0);
    assert_eq!(x.rgb_centi, (100, 8, 58));
    assert_eq!(element_row(0).covalent_milli, 1500);
}
