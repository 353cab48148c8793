use vstd::prelude::*;

verus! {

/// The 14 Bravais lattice types, with the sub-variants of Setyawan and
/// Curtarolo (2010) where the k-point coordinates depend on the lattice
/// parameters.
#[derive(Debug, Clone, Copy, PartialEq, Eq, Structural)]
pub enum BravaisType {
    CUB,
    FCC,
    BCC,
    TET,
    BCT1,
    BCT2,
    ORC,
    ORCF1,
    ORCF2,
    ORCF3,
    ORCI,
    ORCC,
    HEX,
    RHL1,
    RHL2,
    MCL,
    MCLC1,
    MCLC2,
    MCLC3,
    MCLC4,
    MCLC5,
    TRI1A,
    TRI1B,
    TRI2A,
    TRI2B,
}

/// Lattice centering, as the first letter of the Hermann-Mauguin symbol
/// gives it (`A` stands for any base centering).
#[derive(Debug, Clone, Copy, PartialEq, Eq, Structural)]
pub enum Centering {
    P,
    F,
    I,
    A,
    R,
}

#[derive(Debug, Clone, Copy, PartialEq, Eq, Structural)]
pub enum CrystalSystem {
    Triclinic,
    Monoclinic,
    Orthorhombic,
    Tetragonal,
    Trigonal,
    Hexagonal,
    Cubic,
}

/// Crystal system of space group `sg` (numbers outside 1..=230 count as
/// triclinic).
pub open spec fn system_of(sg: int) -> CrystalSystem {
    if 3 <= sg <= 15 {
        CrystalSystem::Monoclinic
    } else if 16 <= sg <= 74 {
        CrystalSystem::Orthorhombic
    } else if 75 <= sg <= 142 {
        CrystalSystem::Tetragonal
    } else if 143 <= sg <= 167 {
        CrystalSystem::Trigonal
    } else if 168 <= sg <= 194 {
        CrystalSystem::Hexagonal
    } else if 195 <= sg <= 230 {
        CrystalSystem::Cubic
    } else {
        CrystalSystem::Triclinic
    }
}

pub fn crystal_system(sg: i32) -> (r: CrystalSystem)
    ensures
        r == system_of(sg as int),
{
    match sg {
        1..=2 => CrystalSystem::Triclinic,
        3..=15 => CrystalSystem::Monoclinic,
        16..=74 => CrystalSystem::Orthorhombic,
        75..=142 => CrystalSystem::Tetragonal,
        143..=167 => CrystalSystem::Trigonal,
        168..=194 => CrystalSystem::Hexagonal,
        195..=230 => CrystalSystem::Cubic,
        _ => CrystalSystem::Triclinic,
    }
}

/// The rhombohedral space groups.
pub open spec fn is_r_group(sg: int) -> bool {
    sg == 146 || sg == 148 || sg == 155 || sg == 160 || sg == 161 || sg == 166 || sg == 167
}

pub open spec fn is_cubic_f(sg: int) -> bool {
    sg == 196 || sg == 202 || sg == 203 || sg == 209 || sg == 210 || sg == 216 || sg == 219 || sg == 225 || sg == 226 || sg == 227 || sg == 228
}

pub open spec fn is_cubic_i(sg: int) -> bool {
    sg == 197 || sg == 199 || sg == 204 || sg == 206 || sg == 211 || sg == 214 || sg == 217 || sg == 220 || sg == 229 || sg == 230
}

pub open spec fn is_tetragonal_i(sg: int) -> bool {
    sg == 79 || sg == 80 || sg == 82 || sg == 87 || sg == 88 || sg == 97 || sg == 98 || sg == 107 || sg == 108 || sg == 109 || sg == 110 || sg == 119 || sg == 120 || sg == 121 || sg == 122 || sg == 139 || sg == 140 || sg == 141 || sg == 142
}

pub open spec fn is_orthorhombic_f(sg: int) -> bool {
    sg == 22 || sg == 42 || sg == 43 || sg == 69 || sg == 70
}

pub open spec fn is_orthorhombic_i(sg: int) -> bool {
    sg == 23 || sg == 24 || sg == 44 || sg == 45 || sg == 46 || sg == 71 || sg == 72 || sg == 73 || sg == 74
}

pub open spec fn is_orthorhombic_c(sg: int) -> bool {
    sg == 20 || sg == 21 || sg == 35 || sg == 36 || sg == 37 || sg == 38 || sg == 39 || sg == 40 || sg == 41 || sg == 63 || sg == 64 || sg == 65 || sg == 66 || sg == 67 || sg == 68
}

pub open spec fn is_monoclinic_c(sg: int) -> bool {
    sg == 5 || sg == 8 || sg == 9 || sg == 12 || sg == 15
}

/// Centering of space group `sg` by the ranges of the International Tables.
pub open spec fn centering_of(sg: int) -> Centering {
    if is_r_group(sg) {
        Centering::R
    } else {
        match system_of(sg) {
            CrystalSystem::Cubic => if is_cubic_f(sg) {
                Centering::F
            } else if is_cubic_i(sg) {
                Centering::I
            } else {
                Centering::P
            },
            CrystalSystem::Tetragonal => if is_tetragonal_i(sg) {
                Centering::I
            } else {
                Centering::P
            },
            CrystalSystem::Orthorhombic => if is_orthorhombic_f(sg) {
                Centering::F
            } else if is_orthorhombic_i(sg) {
                Centering::I
            } else if is_orthorhombic_c(sg) {
                Centering::A
            } else {
                Centering::P
            },
            CrystalSystem::Monoclinic => if is_monoclinic_c(sg) {
                Centering::A
            } else {
                Centering::P
            },
            _ => Centering::P,
        }
    }
}

pub fn centering(sg: i32) -> (r: Centering)
    ensures
        r == centering_of(sg as int),
{
    if matches!(sg, 146 | 148 | 155 | 160 | 161 | 166 | 167) {
        return Centering::R;
    }
    match crystal_system(sg) {
        CrystalSystem::Cubic => {
            if matches!(sg, 196 | 202 | 203 | 209 | 210 | 216 | 219 | 225 | 226 | 227 | 228) {
                Centering::F
            } else if matches!(sg, 197 | 199 | 204 | 206 | 211 | 214 | 217 | 220 | 229 | 230) {
                Centering::I
            } else {
                Centering::P
            }
        },
        CrystalSystem::Tetragonal => {
            if matches!(sg, 79 | 80 | 82 | 87 | 88 | 97 | 98 | 107 | 108 | 109 | 110 | 119 | 120 | 121 | 122 | 139 | 140 | 141 | 142) {
                Centering::I
            } else {
                Centering::P
            }
        },
        CrystalSystem::Orthorhombic => {
            if matches!(sg, 22 | 42 | 43 | 69 | 70) {
                Centering::F
            } else if matches!(sg, 23 | 24 | 44 | 45 | 46 | 71 | 72 | 73 | 74) {
                Centering::I
            } else if matches!(sg, 20 | 21 | 35 | 36 | 37 | 38 | 39 | 40 | 41 | 63 | 64 | 65 | 66 | 67 | 68) {
                Centering::A
            } else {
                Centering::P
            }
        },
        CrystalSystem::Monoclinic => {
            if matches!(sg, 5 | 8 | 9 | 12 | 15) {
                Centering::A
            } else {
                Centering::P
            }
        },
        _ => Centering::P,
    }
}

/// The outcomes of the floating-point comparisons that classification needs,
/// each exactly as the lattice parameters give it (`tol` is 1e-5):
/// - `alpha_lt`: α < π/2 - tol (rhombohedral cells);
/// - `c_lt_a`: c < a - tol (body-centred tetragonal cells);
/// - `orcf_near`, `orcf_pos`: |1/a² - 1/b² - 1/c²| < tol, and that difference > 0;
/// - `kgamma_gt`, `kgamma_near`: kγ > π/2 + tol, |kγ - π/2| < tol, for the
///   reciprocal γ of the base-centred monoclinic primitive cell;
/// - `cond_near`, `cond_lt`: |b cos α / c + b² sin²α / a² - 1| < tol, and that sum < 1;
/// - `k_above`, `k_near`: for the reciprocal angles kα, kβ, kγ, whether each is
///   > π/2 - tol, and whether each is within tol of π/2.
#[derive(Debug, Clone, Copy)]
pub struct LatticeTests {
    pub alpha_lt: bool,
    pub c_lt_a: bool,
    pub orcf_near: bool,
    pub orcf_pos: bool,
    pub kgamma_gt: bool,
    pub kgamma_near: bool,
    pub cond_near: bool,
    pub cond_lt: bool,
    pub k_above: [bool; 3],
    pub k_near: [bool; 3],
}

/// Bravais type of a cell with space group `sg` whose parameters give the
/// comparison outcomes `t`.
pub open spec fn classify_spec(sg: int, t: LatticeTests) -> BravaisType {
    let cent = centering_of(sg);
    match system_of(sg) {
        CrystalSystem::Cubic => match cent {
            Centering::F => BravaisType::FCC,
            Centering::I => BravaisType::BCC,
            _ => BravaisType::CUB,
        },
        CrystalSystem::Hexagonal => BravaisType::HEX,
        CrystalSystem::Trigonal => if cent == Centering::R {
            if t.alpha_lt {
                BravaisType::RHL1
            } else {
                BravaisType::RHL2
            }
        } else {
            BravaisType::HEX
        },
        CrystalSystem::Tetragonal => if cent == Centering::I {
            if t.c_lt_a {
                BravaisType::BCT1
            } else {
                BravaisType::BCT2
            }
        } else {
            BravaisType::TET
        },
        CrystalSystem::Orthorhombic => match cent {
            Centering::F => if t.orcf_near {
                BravaisType::ORCF3
            } else if t.orcf_pos {
                BravaisType::ORCF1
            } else {
                BravaisType::ORCF2
            },
            Centering::I => BravaisType::ORCI,
            Centering::A => BravaisType::ORCC,
            _ => BravaisType::ORC,
        },
        CrystalSystem::Monoclinic => if cent == Centering::P {
            BravaisType::MCL
        } else if t.kgamma_gt {
            BravaisType::MCLC1
        } else if t.kgamma_near {
            BravaisType::MCLC2
        } else if t.cond_near {
            BravaisType::MCLC4
        } else if t.cond_lt {
            BravaisType::MCLC3
        } else {
            BravaisType::MCLC5
        },
        CrystalSystem::Triclinic => {
            let any_near = t.k_near[0] || t.k_near[1] || t.k_near[2];
            if t.k_above[0] && t.k_above[1] && t.k_above[2] {
                if any_near {
                    BravaisType::TRI1B
                } else {
                    BravaisType::TRI1A
                }
            } else if any_near {
                BravaisType::TRI2B
            } else {
                BravaisType::TRI2A
            }
        },
    }
}

/// Bravais type from the space group and the lattice comparisons.
pub fn classify(sg: i32, t: &LatticeTests) -> (r: BravaisType)
    ensures
        r == classify_spec(sg as int, *t),
{
    let sys = crystal_system(sg);
    let cent = centering(sg);
    match sys {
        CrystalSystem::Cubic => match cent {
            Centering::F => BravaisType::FCC,
            Centering::I => BravaisType::BCC,
            _ => BravaisType::CUB,
        },
        CrystalSystem::Hexagonal => BravaisType::HEX,
        CrystalSystem::Trigonal => {
            if cent == Centering::R {
                if t.alpha_lt {
                    BravaisType::RHL1
                } else {
                    BravaisType::RHL2
                }
            } else {
                BravaisType::HEX
            }
        },
        CrystalSystem::Tetragonal => {
            if cent == Centering::I {
                if t.c_lt_a {
                    BravaisType::BCT1
                } else {
                    BravaisType::BCT2
                }
            } else {
                BravaisType::TET
            }
        },
        CrystalSystem::Orthorhombic => match cent {
            Centering::F => {
                if t.orcf_near {
                    BravaisType::ORCF3
                } else if t.orcf_pos {
                    BravaisType::ORCF1
                } else {
                    BravaisType::ORCF2
                }
            },
            Centering::I => BravaisType::ORCI,
            Centering::A => BravaisType::ORCC,
            _ => BravaisType::ORC,
        },
        CrystalSystem::Monoclinic => {
            if cent == Centering::P {
                BravaisType::MCL
            } else if t.kgamma_gt {
                BravaisType::MCLC1
            } else if t.kgamma_near {
                BravaisType::MCLC2
            } else if t.cond_near {
                BravaisType::MCLC4
            } else if t.cond_lt {
                BravaisType::MCLC3
            } else {
                BravaisType::MCLC5
            }
        },
        CrystalSystem::Triclinic => {
            let any_near = t.k_near[0] || t.k_near[1] || t.k_near[2];
            if t.k_above[0] && t.k_above[1] && t.k_above[2] {
                if any_near {
                    BravaisType::TRI1B
                } else {
                    BravaisType::TRI1A
                }
            } else if any_near {
                BravaisType::TRI2B
            } else {
                BravaisType::TRI2A
            }
        },
    }
}

/// A path segment: the labels of its high-symmetry points, in order.
pub fn seg(labels: &[&str]) -> (r: Vec<String>)
    ensures
        r.len() == labels@.len(),
        forall|i: int| 0 <= i < r.len() ==> #[trigger] r@[i]@ == labels@[i]@,
{
    let mut r: Vec<String> = Vec::new();
    let mut i: usize = 0;
    while i < labels.len()
        invariant
            i <= labels@.len(),
            r.len() == i,
            forall|j: int| 0 <= j < i ==> #[trigger] r@[j]@ == labels@[j]@,
        decreases labels@.len() - i,
    {
        r.push(String::from_str(labels[i]));
        i = i + 1;
    }
    r
}

/// The centering of the lattice a Bravais type names.
pub open spec fn type_centering(b: BravaisType) -> Centering {
    match b {
        BravaisType::FCC | BravaisType::ORCF1 | BravaisType::ORCF2 | BravaisType::ORCF3 => Centering::F,
        BravaisType::BCC | BravaisType::BCT1 | BravaisType::BCT2 | BravaisType::ORCI => Centering::I,
        BravaisType::ORCC | BravaisType::MCLC1 | BravaisType::MCLC2 | BravaisType::MCLC3 | BravaisType::MCLC4
        | BravaisType::MCLC5 => Centering::A,
        BravaisType::RHL1 | BravaisType::RHL2 => Centering::R,
        _ => Centering::P,
    }
}

/// The lattice system of a Bravais type.
pub open spec fn type_system(b: BravaisType) -> CrystalSystem {
    match b {
        BravaisType::CUB | BravaisType::FCC | BravaisType::BCC => CrystalSystem::Cubic,
        BravaisType::TET | BravaisType::BCT1 | BravaisType::BCT2 => CrystalSystem::Tetragonal,
        BravaisType::ORC | BravaisType::ORCF1 | BravaisType::ORCF2 | BravaisType::ORCF3 | BravaisType::ORCI
        | BravaisType::ORCC => CrystalSystem::Orthorhombic,
        BravaisType::HEX => CrystalSystem::Hexagonal,
        BravaisType::RHL1 | BravaisType::RHL2 => CrystalSystem::Trigonal,
        BravaisType::MCL | BravaisType::MCLC1 | BravaisType::MCLC2 | BravaisType::MCLC3 | BravaisType::MCLC4
        | BravaisType::MCLC5 => CrystalSystem::Monoclinic,
        _ => CrystalSystem::Triclinic,
    }
}

/// The Bravais type of a cell has the centering of its space group, and
/// the lattice system of its crystal system, trigonal groups without R
/// centering taking the hexagonal lattice.
pub proof fn lemma_classify_lattice(sg: int, t: LatticeTests)
    ensures
        type_centering(classify_spec(sg, t)) == centering_of(sg),
        type_system(classify_spec(sg, t)) == (if system_of(sg) == CrystalSystem::Trigonal && !is_r_group(sg) {
            CrystalSystem::Hexagonal
        } else {
            system_of(sg)
        }),
{
}

/// Which variant a cell gets within its lattice: body-centred tetragonal
/// BCT1 exactly when c < a; rhombohedral RHL1 exactly when α < 90°;
/// face-centred orthorhombic ORCF3 on the boundary, else ORCF1 exactly when
/// 1/a² > 1/b² + 1/c²; base-centred monoclinic MCLC1 when kγ > 90°, MCLC2
/// when kγ = 90°, then MCLC4 on the boundary of the second condition and
/// MCLC3 below it; triclinic TRI1 when all reciprocal angles are at least
/// 90° and variant b when one of them is 90°.
pub proof fn lemma_classify_variants(sg: int, t: LatticeTests)
    ensures
        system_of(sg) == CrystalSystem::Tetragonal && centering_of(sg) == Centering::I ==> (classify_spec(sg, t)
            == BravaisType::BCT1 <==> t.c_lt_a) && (classify_spec(sg, t) == BravaisType::BCT2 <==> !t.c_lt_a),
        centering_of(sg) == Centering::R ==> (classify_spec(sg, t) == BravaisType::RHL1 <==> t.alpha_lt) && (
        classify_spec(sg, t) == BravaisType::RHL2 <==> !t.alpha_lt),
        system_of(sg) == CrystalSystem::Orthorhombic && centering_of(sg) == Centering::F ==> (classify_spec(sg, t)
            == BravaisType::ORCF3 <==> t.orcf_near) && (classify_spec(sg, t) == BravaisType::ORCF1 <==> !t.orcf_near
            && t.orcf_pos) && (classify_spec(sg, t) == BravaisType::ORCF2 <==> !t.orcf_near && !t.orcf_pos),
        system_of(sg) == CrystalSystem::Monoclinic && centering_of(sg) == Centering::A ==> (classify_spec(sg, t)
            == BravaisType::MCLC1 <==> t.kgamma_gt) && (classify_spec(sg, t) == BravaisType::MCLC2 <==> !t.kgamma_gt
            && t.kgamma_near) && (classify_spec(sg, t) == BravaisType::MCLC4 <==> !t.kgamma_gt && !t.kgamma_near
            && t.cond_near) && (classify_spec(sg, t) == BravaisType::MCLC3 <==> !t.kgamma_gt && !t.kgamma_near
            && !t.cond_near && t.cond_lt) && (classify_spec(sg, t) == BravaisType::MCLC5 <==> !t.kgamma_gt
            && !t.kgamma_near && !t.cond_near && !t.cond_lt),
        system_of(sg) == CrystalSystem::Triclinic ==> ((classify_spec(sg, t) == BravaisType::TRI1A
            || classify_spec(sg, t) == BravaisType::TRI1B) <==> (t.k_above[0] && t.k_above[1] && t.k_above[2]))
            && ((classify_spec(sg, t) == BravaisType::TRI1B || classify_spec(sg, t) == BravaisType::TRI2B) <==> (
        t.k_near[0] || t.k_near[1] || t.k_near[2])),
{
}

} // verus!
