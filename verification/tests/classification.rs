use cview::bravais::{centering, classify, crystal_system, seg, BravaisType, Centering, CrystalSystem, LatticeTests};
use cview::bvs::{
    anion_valences, cation_valences, get_ideal_oxidation_state, is_dual_role, primary_role, resolve_valence,
    BVSQuality, ParamSource, Role,
};
use cview::charge_density::{cell_segments, CellEdge, DensityChannel};
use cview::config::{d_cache, d_colormap_idx, d_max_atoms, d_true, AntialiasLevel, ColorMode, RenderQuality, RotationCenter};
use cview::symmetry::default_periodic;

fn tests() -> LatticeTests {
    LatticeTests {
        alpha_lt: false,
        c_lt_a: false,
        orcf_near: false,
        orcf_pos: false,
        kgamma_gt: false,
        kgamma_near: false,
        cond_near: false,
        cond_lt: false,
        k_above: [false; 3],
        k_near: [false; 3],
    }
}

#[test]
fn crystal_systems() {
    assert_eq!(crystal_system(1), CrystalSystem::Triclinic);
    assert_eq!(crystal_system(14), CrystalSystem::Monoclinic);
    assert_eq!(crystal_system(63), CrystalSystem::Orthorhombic);
    assert_eq!(crystal_system(139), CrystalSystem::Tetragonal);
    assert_eq!(crystal_system(166), CrystalSystem::Trigonal);
    assert_eq!(crystal_system(194), CrystalSystem::Hexagonal);
    assert_eq!(crystal_system(227), CrystalSystem::Cubic);
    assert_eq!(crystal_system(0), CrystalSystem::Triclinic);
    assert_eq!(crystal_system(231), CrystalSystem::Triclinic);
}

#[test]
fn centerings() {
    assert_eq!(centering(225), Centering::F);
    assert_eq!(centering(229), Centering::I);
    assert_eq!(centering(221), Centering::P);
    assert_eq!(centering(166), Centering::R);
    assert_eq!(centering(63), Centering::A);
    assert_eq!(centering(12), Centering::A);
    assert_eq!(centering(14), Centering::P);
}

#[test]
fn bravais_types() {
    let t = tests();
    assert_eq!(classify(227, &t), BravaisType::FCC);
    assert_eq!(classify(229, &t), BravaisType::BCC);
    assert_eq!(classify(194, &t), BravaisType::HEX);
    assert_eq!(classify(164, &t), BravaisType::HEX);
    assert_eq!(classify(166, &LatticeTests { alpha_lt: true, ..t }), BravaisType::RHL1);
    assert_eq!(classify(166, &t), BravaisType::RHL2);
    assert_eq!(classify(139, &LatticeTests { c_lt_a: true, ..t }), BravaisType::BCT1);
    assert_eq!(classify(63, &t), BravaisType::ORCC);
    assert_eq!(classify(69, &LatticeTests { orcf_near: true, orcf_pos: true, ..t }), BravaisType::ORCF3);
    assert_eq!(classify(69, &LatticeTests { orcf_pos: true, ..t }), BravaisType::ORCF1);
    assert_eq!(classify(14, &t), BravaisType::MCL);
    assert_eq!(classify(12, &LatticeTests { kgamma_gt: true, ..t }), BravaisType::MCLC1);
    assert_eq!(classify(12, &LatticeTests { cond_lt: true, ..t }), BravaisType::MCLC3);
    assert_eq!(classify(12, &t), BravaisType::MCLC5);
    assert_eq!(classify(2, &LatticeTests { k_above: [true; 3], ..t }), BravaisType::TRI1A);
    assert_eq!(classify(2, &LatticeTests { k_near: [false, true, false], ..t }), BravaisType::TRI2B);
}

#[test]
fn path_segments() {
    assert_eq!(seg(&["Γ", "X", "M"]), vec!["Γ".to_string(), "X".to_string(), "M".to_string()]);
    assert!(seg(&[]).is_empty());
}

#[test]
fn ideal_oxidation_states() {
    assert_eq!(get_ideal_oxidation_state("O") as f64, 2.0);
    assert_eq!(get_ideal_oxidation_state("F") as f64, 1.0);
    assert_eq!(get_ideal_oxidation_state("Ba") as f64, 2.0);
    assert_eq!(get_ideal_oxidation_state("Ti") as f64, 4.0);
    assert_eq!(get_ideal_oxidation_state("Al") as f64, 3.0);
}

#[test]
fn valence_lists() {
    assert_eq!(anion_valences("S"), vec![-2, 9]);
    assert_eq!(cation_valences("S"), vec![6, 4, 9]);
    assert_eq!(cation_valences("U"), vec![4, 6, 5, 3, 9]);
    assert_eq!(anion_valences("Fe"), vec![9]);
    assert_eq!(cation_valences("Xx"), vec![9]);
    assert_eq!(get_ideal_oxidation_state("Xx"), 0);
}

#[test]
fn roles_and_valences() {
    assert_eq!(primary_role("O"), Role::Anion);
    assert_eq!(primary_role("Na"), Role::Cation);
    assert_eq!(primary_role("Ne"), Role::Ambiguous);
    assert!(is_dual_role("S"));
    assert!(!is_dual_role("O"));
    assert_eq!(resolve_valence(Some(3), "Fe", false), 3);
    assert_eq!(resolve_valence(None, "S", true), 6);
    assert_eq!(resolve_valence(None, "S", false), -2);
    assert_eq!(resolve_valence(None, "H", false), -1);
    assert_eq!(resolve_valence(None, "O", true), -2);
    assert_eq!(resolve_valence(None, "Ba", false), 2);
    assert_eq!(resolve_valence(None, "Ne", false), 0);
}

#[test]
fn labels() {
    assert_eq!(ParamSource::Iucr.as_str(), "IUCr");
    assert_eq!(ParamSource::IucrSubstituted.as_str(), "IUCr*");
    assert!(ParamSource::Iucr.rank() > ParamSource::BresOKeeffe.rank());
    assert_eq!(ParamSource::NotApplicable.rank(), 0);
    assert_eq!(BVSQuality::Acceptable.as_str(), "Acceptable");
    assert_eq!(BVSQuality::Good.symbol(), "✓");
    assert_eq!(BVSQuality::Poor.symbol(), "✗");
    assert_eq!(DensityChannel::SpinUp.label(), "Spin-up");
    assert!(DensityChannel::Magnetization.is_diverging());
    assert!(!DensityChannel::Total.is_diverging());
}

#[test]
fn defaults() {
    assert!(d_true());
    assert_eq!(d_colormap_idx(), 0);
    assert_eq!(d_max_atoms(), 10000);
    assert_eq!(d_cache(), 200);
    assert!(default_periodic());
    assert_eq!(RotationCenter::default(), RotationCenter::Centroid);
    assert_eq!(ColorMode::default(), ColorMode::Element);
    assert_eq!(RenderQuality::default(), RenderQuality::Fast);
    assert_eq!(AntialiasLevel::default(), AntialiasLevel::Good);
}

#[test]
fn isoline_cells() {
    assert!(cell_segments(false, false, false, false, false).is_empty());
    assert!(cell_segments(true, true, true, true, true).is_empty());
    assert_eq!(cell_segments(true, false, false, false, false), vec![(CellEdge::Top, CellEdge::Left)]);
    assert_eq!(cell_segments(true, true, false, false, false), vec![(CellEdge::Left, CellEdge::Right)]);
    // saddle: opposite corners above
    assert_eq!(
        cell_segments(true, false, true, false, true),
        vec![(CellEdge::Top, CellEdge::Right), (CellEdge::Bottom, CellEdge::Left)]
    );
    assert_eq!(
        cell_segments(true, false, true, false, false),
        vec![(CellEdge::Top, CellEdge::Left), (CellEdge::Bottom, CellEdge::Right)]
    );
}

#[test]
fn space_group_names() {
    let si = cview::symmetry::symmetry_info(227);
    assert_eq!(si.number, 227);
    assert_eq!(si.system, "Cubic");
    let p1 = cview::symmetry::symmetry_info(1);
    assert_eq!((p1.symbol.as_str(), p1.system.as_str()), ("P1", "Triclinic"));
    assert_eq!(cview::symmetry::symmetry_info(62).symbol, "Pnma");
    assert_eq!(cview::symmetry::symmetry_info(194).system, "Hexagonal");
    assert_eq!(cview::symmetry::symmetry_info(194).symbol, "P6_3/mmc");
    let unknown = cview::symmetry::symmetry_info(0);
    assert_eq!((unknown.symbol.as_str(), unknown.system.as_str()), ("Unknown", "Unknown"));
}

/// A deviation in valence units on the library's scale of millionths.
fn micro(d: f64) -> i64 {
    (d * 1e6).round() as i64
}

#[test]
fn quality_thresholds_literature_bands() {
    assert_eq!(BVSQuality::from_deviation(micro(0.05)), BVSQuality::Excellent);
    assert_eq!(BVSQuality::from_deviation(micro(0.15)), BVSQuality::Good);
    assert_eq!(BVSQuality::from_deviation(micro(0.30)), BVSQuality::Acceptable);
    assert_eq!(BVSQuality::from_deviation(micro(0.50)), BVSQuality::Poor);
}

#[test]
fn quality_band_edges() {
    assert_eq!(BVSQuality::from_deviation(99_999), BVSQuality::Excellent);
    assert_eq!(BVSQuality::from_deviation(100_000), BVSQuality::Good);
    assert_eq!(BVSQuality::from_deviation(200_000), BVSQuality::Acceptable);
    assert_eq!(BVSQuality::from_deviation(400_000), BVSQuality::Poor);
    assert_eq!(BVSQuality::from_deviation(-5), BVSQuality::Excellent);
}
