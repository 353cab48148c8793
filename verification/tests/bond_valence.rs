use cview::bond_valence::{
    estimate_b_parameter, explain_prediction, get_available_pairs, get_param, has_experimental_param,
    is_rare_element, predict_param_ml, prediction_confidence, prediction_uncertainty_milli, ParamSource,
};

fn r0(p: &cview::bond_valence::BVParam) -> f64 {
    p.r0_micro as f64 / 1e6
}

fn b(p: &cview::bond_valence::BVParam) -> f64 {
    p.b_milli as f64 / 1e3
}

/// Electronegativity on the library's 2^60 scale (exact for every `f64`).
fn chi(x: f64) -> u64 {
    (x * 2f64.powi(60)) as u64
}

#[test]
fn test_database_symmetry() {
    let li_o = get_param("Li", "O");
    let o_li = get_param("O", "Li");
    assert!((r0(&li_o) - r0(&o_li)).abs() < 1e-6);
    assert_eq!(li_o.source, ParamSource::Experimental);
}

#[test]
fn test_common_oxides() {
    let params = [("Li", "O", 1.466), ("Fe", "O", 1.759), ("Co", "O", 1.692), ("Ni", "O", 1.654), ("Mn", "O", 1.790)];
    for (cat, an, expected_r0) in params {
        let param = get_param(cat, an);
        assert!((r0(&param) - expected_r0).abs() < 0.001, "{}-{}: expected {}, got {}", cat, an, expected_r0, r0(&param));
    }
}

#[test]
fn test_ml_fallback() {
    let param = get_param("Eu", "N");
    assert_eq!(param.source, ParamSource::Predicted);
    assert!(r0(&param) > 0.5 && r0(&param) < 3.5);
}

#[test]
fn test_prediction_range() {
    let pairs = [("Eu", "N"), ("Tc", "O"), ("Tl", "S")];
    for (a, bb) in pairs {
        let param = predict_param_ml(a, bb);
        assert!(r0(&param) >= 0.8, "{}-{}: R0 too small: {}", a, bb, r0(&param));
        assert!(r0(&param) <= 3.5, "{}-{}: R0 too large: {}", a, bb, r0(&param));
        assert!(b(&param) >= 0.25, "{}-{}: B too small: {}", a, bb, b(&param));
        assert!(b(&param) <= 0.50, "{}-{}: B too large: {}", a, bb, b(&param));
    }
}

#[test]
fn test_confidence_ordering() {
    let ionic = prediction_confidence("Li", "O");
    let covalent = prediction_confidence("C", "C");
    assert!(ionic > covalent, "Ionic bonds should have higher ML confidence");
}

#[test]
fn test_b_parameter_trends() {
    let b_ionic = estimate_b_parameter("Na", "Cl", chi(0.93), chi(3.16)) as f64 / 1e3;
    assert!((b_ionic - 0.37).abs() < 0.05);
    let b_covalent = estimate_b_parameter("C", "O", chi(2.55), chi(3.44)) as f64 / 1e3;
    assert!(b_covalent < 0.37);
    let b_metallic = estimate_b_parameter("Fe", "Ni", chi(1.83), chi(1.91)) as f64 / 1e3;
    assert!(b_metallic > 0.37);
}

#[test]
fn test_explanation_format() {
    let explanation = explain_prediction("Dy", "S");
    assert!(explanation.contains("ML Prediction"));
    assert!(explanation.contains("R₀"));
    assert!(explanation.contains("Confidence"));
    assert!(explanation.contains("No experimental data"));
}

#[test]
fn b_estimate_exact_values() {
    assert_eq!(estimate_b_parameter("Na", "Cl", chi(0.93), chi(3.16)), 370);
    assert_eq!(estimate_b_parameter("C", "O", chi(2.55), chi(3.44)), 350);
    assert_eq!(estimate_b_parameter("Fe", "Ni", chi(1.83), chi(1.91)), 400);
    assert_eq!(estimate_b_parameter("C", "S", chi(2.55), chi(2.58)), 320);
    assert_eq!(estimate_b_parameter("He", "O", 0, chi(3.44)), 370);
}

#[test]
fn experimental_pair_lookup_both_orders() {
    assert!(has_experimental_param("Fe", "O"));
    assert!(has_experimental_param("O", "Fe"));
    assert!(!has_experimental_param("Eu", "N"));
    assert!(!has_experimental_param("Xx", "O"));
}

#[test]
fn experimental_param_value() {
    let p = get_param("Na", "O");
    assert_eq!(p.source, ParamSource::Experimental);
    assert_eq!(p.b_milli, 370);
}

#[test]
fn rare_elements() {
    assert!(is_rare_element("Tc"));
    assert!(is_rare_element("Pu"));
    assert!(is_rare_element("Ar"));
    assert!(!is_rare_element("U"));
    assert!(!is_rare_element("Fe"));
    assert!(!is_rare_element("tc"));
}

#[test]
fn confidence_exact_values() {
    // Li 0.98, O 3.44: difference 2.46 > 2.0
    assert_eq!(prediction_confidence("Li", "O"), 9000);
    assert_eq!(prediction_confidence("C", "C"), 3500);
    // a rare element scales the confidence by 0.85
    // Tc 1.90, O 3.44: difference 1.54 > 1.5
    assert_eq!(prediction_confidence("Tc", "O"), 7225);
    // an unknown element has no electronegativity
    assert_eq!(prediction_confidence("Xx", "O"), 1000);
    // 0.08 Å / 0.35 = 0.2286 Å
    assert_eq!(prediction_uncertainty_milli("C", "C"), 229);
}

#[test]
fn available_pairs_ordered_and_unique() {
    let pairs = get_available_pairs();
    assert!(!pairs.is_empty());
    for (i, (a, b)) in pairs.iter().enumerate() {
        assert!(a < b);
        assert!(has_experimental_param(a, b));
        assert!(!pairs[i + 1..].contains(&(a.clone(), b.clone())));
    }
    assert!(pairs.iter().any(|(a, b)| a == "Fe" && b == "O"));
}

#[test]
fn predicted_param_is_source_predicted() {
    let p = predict_param_ml("Li", "O");
    assert_eq!(p.source, ParamSource::Predicted);
    assert!(p.r0_micro >= 800_000 && p.r0_micro <= 3_500_000);
}

#[test]
fn parameters_do_not_depend_on_order() {
    for (a, b) in [("Eu", "N"), ("Fe", "O"), ("Xx", "Cl"), ("Tl", "S")] {
        assert_eq!(get_param(a, b), get_param(b, a));
        assert_eq!(prediction_confidence(a, b), prediction_confidence(b, a));
        assert_eq!(prediction_uncertainty_milli(a, b), prediction_uncertainty_milli(b, a));
    }
}
