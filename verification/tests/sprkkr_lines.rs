use cview::sprkkr::{missing_vectors_message, sprkkr_label, sprkkr_line, SprLine, SprSection};

fn step(sec: SprSection, line: &str) -> (SprSection, SprLine) {
    sprkkr_line(sec, line)
}

#[test]
fn sections_open_and_close() {
    assert!(matches!(step(SprSection::Outside, "LATTICE"), (SprSection::Lattice, SprLine::Skip)));
    assert!(matches!(step(SprSection::Lattice, "  SITES  "), (SprSection::Sites, SprLine::Skip)));
    assert!(matches!(step(SprSection::Sites, "*************"), (SprSection::Outside, SprLine::Skip)));
    assert!(matches!(step(SprSection::Types, "# TYPES"), (SprSection::Types, SprLine::Skip)));
    assert!(matches!(step(SprSection::Types, ""), (SprSection::Types, SprLine::Skip)));
    match step(SprSection::Outside, "HEADER    'SPR-KKR file for Fe'") {
        (SprSection::Header, SprLine::HeaderText(t)) => assert_eq!(t, "SPR-KKR file for Fe"),
        _ => panic!("expected header text"),
    }
    assert!(matches!(step(SprSection::Outside, "HEADER 'open"), (SprSection::Header, SprLine::Skip)));
}

#[test]
fn header_and_lattice_lines() {
    match step(SprSection::Header, "SYSTEM   Fe  bcc   bulk") {
        (_, SprLine::SystemName(n)) => assert_eq!(n, "Fe bcc bulk"),
        _ => panic!("expected a system name"),
    }
    match step(SprSection::Lattice, "BRAVAIS   12  cubic  m3m  229") {
        (_, SprLine::Bravais(b)) => assert_eq!(b, "cubic m3m"),
        _ => panic!("expected a Bravais type"),
    }
    match step(SprSection::Lattice, "SYSDIM  3D") {
        (_, SprLine::Sysdim(d)) => assert_eq!(d, "3D"),
        _ => panic!("expected SYSDIM"),
    }
    assert!(matches!(step(SprSection::Lattice, "ALAT  5.42"), (_, SprLine::Alat)));
    assert!(matches!(step(SprSection::Lattice, "A(1) = 5.0 0.0 0.0"), (_, SprLine::LatticeVector(0))));
    assert!(matches!(step(SprSection::Lattice, "A3 0 0 1"), (_, SprLine::LatticeVector(2))));
    assert!(matches!(step(SprSection::Lattice, "A(4) 0 0 1"), (_, SprLine::Skip)));
    assert!(matches!(step(SprSection::Sites, "ALAT 5.42"), (_, SprLine::Skip)));
}

#[test]
fn site_lines() {
    assert!(matches!(step(SprSection::Sites, "CARTESIAN T"), (_, SprLine::Cartesian(true))));
    assert!(matches!(step(SprSection::Sites, "CARTESIAN true"), (_, SprLine::Cartesian(true))));
    assert!(matches!(step(SprSection::Sites, "CARTESIAN F"), (_, SprLine::Cartesian(false))));
    assert!(matches!(step(SprSection::Sites, "BASSCALE 1.0 1.0 1.0"), (_, SprLine::Basscale)));
    assert!(matches!(step(SprSection::Sites, "IQ QX QY QZ"), (_, SprLine::Skip)));
    assert!(matches!(step(SprSection::Sites, "  2  0.5 0.5 0.5"), (_, SprLine::Site(2))));
    assert!(matches!(step(SprSection::Sites, "  2  0.5 0.5"), (_, SprLine::Skip)));
}

#[test]
fn occupation_and_type_lines() {
    match step(SprSection::Occupation, "  1  1  1  2  1  0.50000  2  0.50000") {
        (_, SprLine::Occupation(site, pairs)) => {
            assert_eq!(site, 1);
            assert_eq!(pairs, vec![(1, 5), (2, 7)]);
        },
        _ => panic!("expected an occupation row"),
    }
    match step(SprSection::Occupation, "  3  1  1  3  4  1.0") {
        (_, SprLine::Occupation(site, pairs)) => {
            assert_eq!(site, 3);
            assert_eq!(pairs, vec![(4, 5)]);
        },
        _ => panic!("expected an occupation row"),
    }
    match step(SprSection::Types, "  1   Fe_1   26  0 0 0 0.0") {
        (_, SprLine::Type(id, el, z)) => {
            assert_eq!((id, z), (1, 26));
            assert_eq!(el, "Fe");
        },
        _ => panic!("expected a type row"),
    }
    assert!(matches!(step(SprSection::Types, "IT TXTT ZT"), (_, SprLine::Skip)));
    assert!(matches!(step(SprSection::Types, "  1  123 26"), (_, SprLine::Skip)));
}

#[test]
fn labels_and_messages() {
    assert_eq!(sprkkr_label("Fe", "cubic m3m"), "Fe (cubic m3m)");
    assert_eq!(sprkkr_label("Fe", ""), "Fe");
    assert_eq!(sprkkr_label("", "bcc"), "SPR-KKR Import");
    assert_eq!(missing_vectors_message([true, false, true]), "Missing lattice vectors: [true, false, true]");
}
