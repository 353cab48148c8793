use cview::qe::{
    ascii_contains_ci, ascii_starts_with_ci, contains_celldm_one, header_unit, is_output, scan_input_blocks,
    scan_input_params, scan_output, final_output_blocks, last_event_before, QeEvent, QeKind, QeUnit,
};

fn lines(v: &[&str]) -> Vec<String> {
    v.iter().map(|s| s.to_string()).collect()
}

#[test]
fn case_insensitive_matching() {
    assert!(ascii_starts_with_ci("ATOMIC_Positions {crystal}", "atomic_positions"));
    assert!(!ascii_starts_with_ci("ATOMIC", "atomic_positions"));
    assert!(ascii_contains_ci("  Lattice Parameter (ALAT) = 10", "lattice parameter (alat)"));
    assert!(!ascii_contains_ci("lattice", "alat="));
    assert!(ascii_contains_ci("anything", ""));
}

#[test]
fn celldm_detection() {
    assert!(contains_celldm_one("celldm(1)=10.2"));
    assert!(contains_celldm_one("  ibrav=2, Celldm ( 1 ) = 7"));
    assert!(!contains_celldm_one("celldm(2)=1.0"));
    assert!(!contains_celldm_one("celldm(1) 10"));
}

#[test]
fn output_scan() {
    let ls = lines(&[
        "     Program PWSCF v.7.2",
        "     lattice parameter (alat)  =  10.2000  a.u.",
        "CELL_PARAMETERS (alat= 10.20000000)",
        "   0.0 0.5 0.5",
        "   0.5 0.0 0.5",
        "   0.5 0.5 0.0",
        "ATOMIC_POSITIONS (crystal)",
        "Si 0.0 0.0 0.0",
        "Si 0.25 0.25 0.25",
        "End final coordinates",
    ]);
    let ev = scan_output(&ls);
    assert_eq!(ev.len(), 3);
    assert!(matches!(ev[0], QeEvent::Alat(1)));
    assert!(matches!(ev[1], QeEvent::Cell(2)));
    match &ev[2] {
        QeEvent::Atoms(i, rows) => {
            assert_eq!(*i, 6);
            assert_eq!(rows, &vec![7, 8]);
        },
        _ => panic!("expected an atoms block"),
    }
}

#[test]
fn output_block_ends_at_total_energy() {
    let ls = lines(&["ATOMIC_POSITIONS (angstrom)", "O 0 0 0", "!    total energy = -1.0 Ry", "H 1 1 1"]);
    let ev = scan_output(&ls);
    assert_eq!(ev.len(), 1);
    match &ev[0] {
        QeEvent::Atoms(0, rows) => assert_eq!(rows, &vec![1]),
        _ => panic!("expected an atoms block"),
    }
}

#[test]
fn input_scan() {
    let ls = lines(&[
        "&SYSTEM",
        "  ibrav = 2, celldm(1) = 10.2",
        "! A = 5",
        "  A = 5.43",
        "/",
        "ATOMIC_POSITIONS {alat}",
        "Si 0.00 0.00 0.00",
        "Si 0.25 0.25",
        "K_POINTS automatic",
        "CELL_PARAMETERS",
    ]);
    let blocks = scan_input_blocks(&ls);
    assert_eq!(blocks.len(), 1);
    match &blocks[0] {
        QeEvent::Atoms(5, rows) => assert_eq!(rows, &vec![6]),
        _ => panic!("expected an atoms block"),
    }
    let params = scan_input_params(&ls);
    assert_eq!(params.len(), 3);
    assert!(matches!(params[0], QeEvent::Celldm(1)));
    assert!(matches!(params[1], QeEvent::Ibrav(1)));
    assert!(matches!(params[2], QeEvent::LatticeA(3)));
}

#[test]
fn header_units() {
    assert_eq!(header_unit("CELL_PARAMETERS (alat= 10.2)"), (true, Some(QeUnit::Alat)));
    assert_eq!(header_unit("ATOMIC_POSITIONS {Angstrom}"), (false, Some(QeUnit::Angstrom)));
    assert_eq!(header_unit("CELL_PARAMETERS bohr"), (false, Some(QeUnit::Bohr)));
    assert_eq!(header_unit("ATOMIC_POSITIONS crystal"), (false, Some(QeUnit::Crystal)));
    assert_eq!(header_unit("CELL_PARAMETERS"), (false, None));
}

#[test]
fn output_markers() {
    assert!(is_output("header\n     Program PWSCF v.7\n"));
    assert!(is_output("JOB DONE."));
    assert!(!is_output("&CONTROL\n calculation='scf'\n/\n"));
}

#[test]
fn relaxation_keeps_last_step() {
    let ls = lines(&[
        "     lattice parameter (alat)  =  10.2000  a.u.",
        "CELL_PARAMETERS (alat= 10.20000000)",
        "   0.0 0.5 0.5",
        "   0.5 0.0 0.5",
        "   0.5 0.5 0.0",
        "ATOMIC_POSITIONS (crystal)",
        "Si 0.0 0.0 0.0",
        "",
        "CELL_PARAMETERS (alat= 10.30000000)",
        "   0.0 0.5 0.5",
        "   0.5 0.0 0.5",
        "   0.5 0.5 0.0",
        "ATOMIC_POSITIONS (crystal)",
        "Si 0.01 0.0 0.0",
        "End final coordinates",
        "     lattice parameter (alat)  =  10.3000  a.u.",
    ]);
    let ev = scan_output(&ls);
    assert_eq!(ev.len(), 6);
    assert_eq!(final_output_blocks(&ev), (Some(3), Some(4)));
    assert_eq!(last_event_before(&ev, 4, QeKind::Cell), Some(3));
    assert_eq!(last_event_before(&ev, 3, QeKind::Alat), Some(0));
    assert_eq!(last_event_before(&ev, 6, QeKind::Alat), Some(5));
    assert_eq!(last_event_before(&ev, 1, QeKind::Cell), None);
}

#[test]
fn output_without_blocks_has_no_final_structure() {
    let ev = scan_output(&lines(&["     Program PWSCF v.7.2", "CELL_PARAMETERS (angstrom)", "1 0 0"]));
    assert_eq!(ev.len(), 0);
    assert_eq!(final_output_blocks(&ev), (None, None));
}
