use cview::lattice::corner_bounds;
use cview::miller::MillerMath;

#[test]
fn basis_100() {
    let (u, v, w) = MillerMath::new(1, 0, 0).find_basis().unwrap();
    assert_eq!(u, [0, -1, 0]);
    assert_eq!(v, [0, 0, -1]);
    assert_eq!(w, [1, 0, 0]);
}

#[test]
fn basis_111() {
    let (u, v, w) = MillerMath::new(1, 1, 1).find_basis().unwrap();
    assert_eq!(u, [-1, 0, 1]);
    assert_eq!(v, [-1, 1, 0]);
    assert_eq!(w, [0, 0, 1]);
}

#[test]
fn non_coprime_indices_share_basis() {
    assert_eq!(MillerMath::new(2, 0, 0).find_basis(), MillerMath::new(1, 0, 0).find_basis());
    assert_eq!(MillerMath::new(2, 2, 0).find_basis(), MillerMath::new(1, 1, 0).find_basis());
}

#[test]
fn basis_123_and_high_indices() {
    let (u, v, w) = MillerMath::new(1, 2, 3).find_basis().unwrap();
    assert_eq!(u, [-1, -1, 1]);
    assert_eq!(v, [-2, 1, 0]);
    assert_eq!(w, [1, 0, 0]);
    let (u, v, w) = MillerMath::new(11, 13, 17).find_basis().unwrap();
    assert_eq!(u, [-2, 3, -1]);
    assert_eq!(v, [-5, -1, 4]);
    assert_eq!(w, [2, 1, -2]);
}

#[test]
fn zero_indices_rejected() {
    assert_eq!(MillerMath::new(0, 0, 0).find_basis(), Err("Miller indices cannot be (0,0,0)".to_string()));
}

#[test]
fn no_stacking_vector() {
    // gcd(gcd(0, 0), -3) is 1 here, so the indices stay unreduced and
    // -3 z = 1 has no solution.
    assert_eq!(
        MillerMath::new(0, 0, -3).find_basis(),
        Err("Could not find valid stacking vector for these indices.".to_string())
    );
}

#[test]
fn basis_vectors_lie_in_plane() {
    for (h, k, l) in [(1, 0, 0), (1, 1, 0), (1, 1, 1), (2, 1, 0), (3, 1, 2)] {
        let m = MillerMath::new(h, k, l);
        assert_eq!((m.h, m.k, m.l), (h, k, l));
        let (u, v, w) = m.find_basis().unwrap();
        assert_eq!(h * u[0] + k * u[1] + l * u[2], 0);
        assert_eq!(h * v[0] + k * v[1] + l * v[2], 0);
        assert_eq!(h * w[0] + k * w[1] + l * w[2], 1);
    }
}

#[test]
fn common_factor_except_on_the_c_axis() {
    for m in [2, 3, 5] {
        assert_eq!(MillerMath::new(m, m, 2 * m).find_basis(), MillerMath::new(1, 1, 2).find_basis());
        assert_eq!(MillerMath::new(0, 2 * m, m).find_basis(), MillerMath::new(0, 2, 1).find_basis());
    }
    assert!(MillerMath::new(0, 0, 1).find_basis().is_ok());
    assert_eq!(
        MillerMath::new(0, 0, 2).find_basis(),
        Err("Could not find valid stacking vector for these indices.".to_string())
    );
}

#[test]
fn translation_search_box() {
    let (lo, hi) = corner_bounds([[1, 0, 0], [0, 2, 0], [0, 0, 3]]);
    assert_eq!(lo, [-1, -1, -1]);
    assert_eq!(hi, [2, 3, 4]);
    let (lo, hi) = corner_bounds([[-1, 2, -3], [0, 0, 0], [5, -5, 1]]);
    assert_eq!(lo, [-5, -1, -6]);
    assert_eq!(hi, [3, 1, 7]);
}
