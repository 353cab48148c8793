use vstd::prelude::*;

use crate::elements::{atomic_number, get_atomic_number};

verus! {

/// Plausible anion valences of element `z`, in priority order. Every list
/// ends with 9, the marker for "unspecified valence" under which averaged
/// table entries and estimates stay reachable.
pub open spec fn anion_list(z: int) -> Seq<i32> {
    if z == 8 {
        seq![-2i32, 9i32]  // O
    } else if z == 16 {
        seq![-2i32, 9i32]  // S
    } else if z == 34 {
        seq![-2i32, 9i32]  // Se
    } else if z == 52 {
        seq![-2i32, 9i32]  // Te
    } else if z == 9 {
        seq![-1i32, 9i32]  // F
    } else if z == 17 {
        seq![-1i32, 9i32]  // Cl
    } else if z == 35 {
        seq![-1i32, 9i32]  // Br
    } else if z == 53 {
        seq![-1i32, 9i32]  // I
    } else if z == 7 {
        seq![-3i32, 9i32]  // N
    } else if z == 15 {
        seq![-3i32, 9i32]  // P
    } else if z == 33 {
        seq![-3i32, 9i32]  // As
    } else if z == 1 {
        seq![-1i32, 9i32]  // H
    } else {
        seq![9i32]
    }
}

/// Plausible cation valences of element `z`, in priority order, ending with
/// the marker 9.
pub open spec fn cation_list(z: int) -> Seq<i32> {
    if z == 1 {
        seq![1i32, 9i32]  // H
    } else if z == 16 {
        seq![6i32, 4i32, 9i32]  // S
    } else if z == 34 {
        seq![4i32, 6i32, 9i32]  // Se
    } else if z == 52 {
        seq![4i32, 6i32, 9i32]  // Te
    } else if z == 3 {
        seq![1i32, 9i32]  // Li
    } else if z == 11 {
        seq![1i32, 9i32]  // Na
    } else if z == 19 {
        seq![1i32, 9i32]  // K
    } else if z == 37 {
        seq![1i32, 9i32]  // Rb
    } else if z == 55 {
        seq![1i32, 9i32]  // Cs
    } else if z == 47 {
        seq![1i32, 9i32]  // Ag
    } else if z == 29 {
        seq![2i32, 1i32, 9i32]  // Cu
    } else if z == 4 {
        seq![2i32, 9i32]  // Be
    } else if z == 12 {
        seq![2i32, 9i32]  // Mg
    } else if z == 20 {
        seq![2i32, 9i32]  // Ca
    } else if z == 38 {
        seq![2i32, 9i32]  // Sr
    } else if z == 56 {
        seq![2i32, 9i32]  // Ba
    } else if z == 88 {
        seq![2i32, 9i32]  // Ra
    } else if z == 30 {
        seq![2i32, 9i32]  // Zn
    } else if z == 48 {
        seq![2i32, 9i32]  // Cd
    } else if z == 80 {
        seq![2i32, 9i32]  // Hg
    } else if z == 5 {
        seq![3i32, 9i32]  // B
    } else if z == 13 {
        seq![3i32, 9i32]  // Al
    } else if z == 31 {
        seq![3i32, 9i32]  // Ga
    } else if z == 49 {
        seq![3i32, 9i32]  // In
    } else if z == 81 {
        seq![3i32, 1i32, 9i32]  // Tl
    } else if z == 14 {
        seq![4i32, 9i32]  // Si
    } else if z == 32 {
        seq![4i32, 9i32]  // Ge
    } else if z == 50 {
        seq![4i32, 2i32, 9i32]  // Sn
    } else if z == 82 {
        seq![4i32, 2i32, 9i32]  // Pb
    } else if z == 6 {
        seq![4i32, 9i32]  // C
    } else if z == 51 {
        seq![3i32, 5i32, 9i32]  // Sb
    } else if z == 83 {
        seq![3i32, 5i32, 9i32]  // Bi
    } else if z == 33 {
        seq![3i32, 5i32, 9i32]  // As
    } else if z == 15 {
        seq![5i32, 3i32, 9i32]  // P
    } else if z == 7 {
        seq![5i32, 3i32, 9i32]  // N
    } else if z == 57 {
        seq![3i32, 9i32]  // La
    } else if z == 59 {
        seq![3i32, 9i32]  // Pr
    } else if z == 60 {
        seq![3i32, 9i32]  // Nd
    } else if z == 61 {
        seq![3i32, 9i32]  // Pm
    } else if z == 62 {
        seq![3i32, 9i32]  // Sm
    } else if z == 64 {
        seq![3i32, 9i32]  // Gd
    } else if z == 65 {
        seq![3i32, 9i32]  // Tb
    } else if z == 66 {
        seq![3i32, 9i32]  // Dy
    } else if z == 67 {
        seq![3i32, 9i32]  // Ho
    } else if z == 68 {
        seq![3i32, 9i32]  // Er
    } else if z == 69 {
        seq![3i32, 9i32]  // Tm
    } else if z == 71 {
        seq![3i32, 9i32]  // Lu
    } else if z == 21 {
        seq![3i32, 9i32]  // Sc
    } else if z == 39 {
        seq![3i32, 9i32]  // Y
    } else if z == 58 {
        seq![4i32, 3i32, 9i32]  // Ce
    } else if z == 63 {
        seq![3i32, 2i32, 9i32]  // Eu
    } else if z == 70 {
        seq![3i32, 2i32, 9i32]  // Yb
    } else if z == 90 {
        seq![4i32, 9i32]  // Th
    } else if z == 92 {
        seq![4i32, 6i32, 5i32, 3i32, 9i32]  // U
    } else if z == 91 {
        seq![5i32, 4i32, 9i32]  // Pa
    } else if z == 93 {
        seq![4i32, 3i32, 9i32]  // Np
    } else if z == 94 {
        seq![4i32, 3i32, 9i32]  // Pu
    } else if z == 95 {
        seq![4i32, 3i32, 9i32]  // Am
    } else if z == 22 {
        seq![4i32, 3i32, 9i32]  // Ti
    } else if z == 40 {
        seq![4i32, 3i32, 9i32]  // Zr
    } else if z == 72 {
        seq![4i32, 3i32, 9i32]  // Hf
    } else if z == 41 {
        seq![5i32, 4i32, 9i32]  // Nb
    } else if z == 73 {
        seq![5i32, 4i32, 9i32]  // Ta
    } else if z == 42 {
        seq![6i32, 5i32, 4i32, 9i32]  // Mo
    } else if z == 74 {
        seq![6i32, 5i32, 4i32, 9i32]  // W
    } else if z == 75 {
        seq![7i32, 6i32, 4i32, 9i32]  // Re
    } else if z == 25 {
        seq![2i32, 3i32, 4i32, 7i32, 9i32]  // Mn
    } else if z == 26 {
        seq![3i32, 2i32, 9i32]  // Fe
    } else if z == 27 {
        seq![2i32, 3i32, 9i32]  // Co
    } else if z == 28 {
        seq![2i32, 3i32, 9i32]  // Ni
    } else if z == 24 {
        seq![3i32, 6i32, 9i32]  // Cr
    } else if z == 23 {
        seq![5i32, 4i32, 3i32, 2i32, 9i32]  // V
    } else if z == 44 {
        seq![4i32, 3i32, 9i32]  // Ru
    } else if z == 76 {
        seq![4i32, 3i32, 9i32]  // Os
    } else if z == 45 {
        seq![3i32, 4i32, 9i32]  // Rh
    } else if z == 77 {
        seq![3i32, 4i32, 9i32]  // Ir
    } else if z == 46 {
        seq![2i32, 4i32, 9i32]  // Pd
    } else if z == 78 {
        seq![2i32, 4i32, 9i32]  // Pt
    } else if z == 79 {
        seq![3i32, 1i32, 9i32]  // Au
    } else {
        seq![9i32]
    }
}

fn anion_row(z: i32) -> (r: Vec<i32>)
    ensures
        r@ == anion_list(z as int),
{
    let r = match z {
        8 => vec![-2, 9],
        16 => vec![-2, 9],
        34 => vec![-2, 9],
        52 => vec![-2, 9],
        9 => vec![-1, 9],
        17 => vec![-1, 9],
        35 => vec![-1, 9],
        53 => vec![-1, 9],
        7 => vec![-3, 9],
        15 => vec![-3, 9],
        33 => vec![-3, 9],
        1 => vec![-1, 9],
        _ => vec![9],
    };
    assert(r@ =~= anion_list(z as int));
    r
}

fn cation_row(z: i32) -> (r: Vec<i32>)
    ensures
        r@ == cation_list(z as int),
{
    let r = match z {
        1 => vec![1, 9],
        16 => vec![6, 4, 9],
        34 => vec![4, 6, 9],
        52 => vec![4, 6, 9],
        3 => vec![1, 9],
        11 => vec![1, 9],
        19 => vec![1, 9],
        37 => vec![1, 9],
        55 => vec![1, 9],
        47 => vec![1, 9],
        29 => vec![2, 1, 9],
        4 => vec![2, 9],
        12 => vec![2, 9],
        20 => vec![2, 9],
        38 => vec![2, 9],
        56 => vec![2, 9],
        88 => vec![2, 9],
        30 => vec![2, 9],
        48 => vec![2, 9],
        80 => vec![2, 9],
        5 => vec![3, 9],
        13 => vec![3, 9],
        31 => vec![3, 9],
        49 => vec![3, 9],
        81 => vec![3, 1, 9],
        14 => vec![4, 9],
        32 => vec![4, 9],
        50 => vec![4, 2, 9],
        82 => vec![4, 2, 9],
        6 => vec![4, 9],
        51 => vec![3, 5, 9],
        83 => vec![3, 5, 9],
        33 => vec![3, 5, 9],
        15 => vec![5, 3, 9],
        7 => vec![5, 3, 9],
        57 => vec![3, 9],
        59 => vec![3, 9],
        60 => vec![3, 9],
        61 => vec![3, 9],
        62 => vec![3, 9],
        64 => vec![3, 9],
        65 => vec![3, 9],
        66 => vec![3, 9],
        67 => vec![3, 9],
        68 => vec![3, 9],
        69 => vec![3, 9],
        71 => vec![3, 9],
        21 => vec![3, 9],
        39 => vec![3, 9],
        58 => vec![4, 3, 9],
        63 => vec![3, 2, 9],
        70 => vec![3, 2, 9],
        90 => vec![4, 9],
        92 => vec![4, 6, 5, 3, 9],
        91 => vec![5, 4, 9],
        93 => vec![4, 3, 9],
        94 => vec![4, 3, 9],
        95 => vec![4, 3, 9],
        22 => vec![4, 3, 9],
        40 => vec![4, 3, 9],
        72 => vec![4, 3, 9],
        41 => vec![5, 4, 9],
        73 => vec![5, 4, 9],
        42 => vec![6, 5, 4, 9],
        74 => vec![6, 5, 4, 9],
        75 => vec![7, 6, 4, 9],
        25 => vec![2, 3, 4, 7, 9],
        26 => vec![3, 2, 9],
        27 => vec![2, 3, 9],
        28 => vec![2, 3, 9],
        24 => vec![3, 6, 9],
        23 => vec![5, 4, 3, 2, 9],
        44 => vec![4, 3, 9],
        76 => vec![4, 3, 9],
        45 => vec![3, 4, 9],
        77 => vec![3, 4, 9],
        46 => vec![2, 4, 9],
        78 => vec![2, 4, 9],
        79 => vec![3, 1, 9],
        _ => vec![9],
    };
    assert(r@ =~= cation_list(z as int));
    r
}

/// Plausible anion valences of `element`, in priority order.
pub fn anion_valences(element: &str) -> (r: Vec<i32>)
    ensures
        r@ == anion_list(atomic_number(element@)),
        r@.len() > 0,
{
    let z = get_atomic_number(element);
    anion_row(z)
}

/// Plausible cation valences of `element`, in priority order.
pub fn cation_valences(element: &str) -> (r: Vec<i32>)
    ensures
        r@ == cation_list(atomic_number(element@)),
        r@.len() > 0,
{
    let z = get_atomic_number(element);
    cation_row(z)
}

#[derive(Debug, Clone, Copy, PartialEq, Eq, Structural)]
pub enum Role {
    Cation,
    Anion,
    Ambiguous,
}

/// An element's primary role: anion when its first anion valence is
/// negative, else cation when its first cation valence is a real one.
pub open spec fn role_of(z: int) -> Role {
    if anion_list(z)[0] < 0 {
        Role::Anion
    } else if cation_list(z)[0] > 0 && cation_list(z)[0] != 9 {
        Role::Cation
    } else {
        Role::Ambiguous
    }
}

pub fn primary_role(element: &str) -> (r: Role)
    ensures
        r == role_of(atomic_number(element@)),
{
    let av = anion_valences(element)[0];
    if av < 0 {
        return Role::Anion;
    }
    let cv = cation_valences(element)[0];
    if cv > 0 && cv != 9 {
        return Role::Cation;
    }
    Role::Ambiguous
}

/// H and the oxo-anion formers N, P, As, S, Se, Te, whose role depends on
/// their surroundings.
pub open spec fn dual_role_z(z: int) -> bool {
    z == 1 || z == 7 || z == 15 || z == 33 || z == 16 || z == 34 || z == 52
}

pub fn is_dual_role(element: &str) -> (r: bool)
    ensures
        r == dual_role_z(atomic_number(element@)),
{
    let z = get_atomic_number(element);
    z == 1 || z == 7 || z == 15 || z == 33 || z == 16 || z == 34 || z == 52
}

/// Magnitude of an element's primary oxidation state; 0 when ambiguous.
pub open spec fn ideal_state(z: int) -> int {
    if anion_list(z)[0] < 0 {
        -anion_list(z)[0]
    } else if cation_list(z)[0] > 0 && cation_list(z)[0] != 9 {
        cation_list(z)[0] as int
    } else {
        0
    }
}

/// Magnitude of the primary expected oxidation state of `element` (0 when
/// ambiguous).
pub fn get_ideal_oxidation_state(element: &str) -> (r: u32)
    ensures
        r == ideal_state(atomic_number(element@)),
{
    proof {
        lemma_lists_small(atomic_number(element@));
    }
    let av = anion_valences(element)[0];
    if av < 0 {
        return (-av) as u32;
    }
    let cv = cation_valences(element)[0];
    if cv > 0 && cv != 9 {
        return cv as u32;
    }
    0
}

proof fn lemma_lists_small(z: int)
    ensures
        -3 <= anion_list(z)[0] <= 9,
        -3 <= cation_list(z)[0] <= 9,
        anion_list(z).len() > 0,
        cation_list(z).len() > 0,
{
}

/// The working valence of a site: the oxidation state given in the file when
/// there is one; for dual-role elements the first cation valence when the
/// nearest neighbour is more electronegative and the first anion valence
/// otherwise; for other elements the first valence of their primary role, or
/// 0 when that role is ambiguous.
pub open spec fn site_valence(oxidation: Option<i32>, z: int, neighbor_more_electronegative: bool) -> int {
    match oxidation {
        Some(v) => v as int,
        None => if dual_role_z(z) {
            if neighbor_more_electronegative {
                cation_list(z)[0] as int
            } else {
                anion_list(z)[0] as int
            }
        } else {
            match role_of(z) {
                Role::Anion => anion_list(z)[0] as int,
                Role::Cation => cation_list(z)[0] as int,
                Role::Ambiguous => 0,
            }
        },
    }
}

/// The dual-role elements are exactly those that have both a real anion
/// valence and a real cation valence (O and the halogens have none as
/// cations, the metals none as anions).
pub proof fn lemma_dual_role_both_lists(z: int)
    ensures
        dual_role_z(z) <==> (anion_list(z)[0] < 0 && cation_list(z)[0] > 0 && cation_list(z)[0] != 9),
{
}

/// How a site's valence follows from its surroundings: a valence given in
/// the file is used as it is; an element that can be either cation or anion
/// takes its first cation valence (positive) next to a more electronegative
/// neighbour and its first anion valence (negative) otherwise; any other
/// element takes a valence that does not depend on the neighbour, of the
/// sign of its role.
pub proof fn lemma_site_valence_roles(oxidation: Option<i32>, z: int, more_electronegative: bool)
    ensures
        oxidation matches Some(v) ==> site_valence(oxidation, z, more_electronegative) == v,
        (anion_list(z)[0] < 0 && cation_list(z)[0] > 0 && cation_list(z)[0] != 9) ==> {
            &&& site_valence(None, z, true) == cation_list(z)[0]
            &&& site_valence(None, z, true) > 0
            &&& site_valence(None, z, false) == anion_list(z)[0]
            &&& site_valence(None, z, false) < 0
        },
        !(anion_list(z)[0] < 0 && cation_list(z)[0] > 0 && cation_list(z)[0] != 9) ==> {
            &&& site_valence(None, z, true) == site_valence(None, z, false)
            &&& (anion_list(z)[0] < 0 ==> site_valence(None, z, true) == anion_list(z)[0])
            &&& (anion_list(z)[0] >= 0 && cation_list(z)[0] != 9 ==> site_valence(None, z, true)
                == cation_list(z)[0])
        },
{
    lemma_dual_role_both_lists(z);
}

/// The ideal oxidation state of an element is the magnitude of the valence
/// a site of it gets when no oxidation state is given and no neighbour
/// makes it a cation.
pub proof fn lemma_ideal_state_is_default_valence(z: int)
    ensures
        ideal_state(z) == (if site_valence(None, z, false) >= 0 {
            site_valence(None, z, false)
        } else {
            -site_valence(None, z, false)
        }),
{
    lemma_dual_role_both_lists(z);
    lemma_lists_small(z);
}

/// Resolves the working valence of one site.
pub fn resolve_valence(oxidation: Option<i32>, element: &str, neighbor_more_electronegative: bool) -> (r: i32)
    ensures
        r == site_valence(oxidation, atomic_number(element@), neighbor_more_electronegative),
{
    if let Some(v) = oxidation {
        return v;
    }
    if is_dual_role(element) {
        if neighbor_more_electronegative {
            return cation_valences(element)[0];
        } else {
            return anion_valences(element)[0];
        }
    }
    match primary_role(element) {
        Role::Anion => anion_valences(element)[0],
        Role::Cation => cation_valences(element)[0],
        Role::Ambiguous => 0,
    }
}

/// Source of the parameters used for an atom's strongest bond.
#[derive(Debug, Clone, Copy, PartialEq, Eq, Structural)]
pub enum ParamSource {
    /// Tabulated entry for the exact (element, valence) pair.
    Iucr,
    /// Tabulated entry for another valence of the same pair.
    IucrSubstituted,
    /// Brese-O'Keeffe (1991) estimate.
    BresOKeeffe,
    /// No bond matched.
    NotApplicable,
}

pub open spec fn source_label(s: ParamSource) -> Seq<char> {
    match s {
        ParamSource::Iucr => "IUCr"@,
        ParamSource::IucrSubstituted => "IUCr*"@,
        ParamSource::BresOKeeffe => "B&OK"@,
        ParamSource::NotApplicable => "n/a"@,
    }
}

pub open spec fn source_rank(s: ParamSource) -> int {
    match s {
        ParamSource::Iucr => 3,
        ParamSource::IucrSubstituted => 2,
        ParamSource::BresOKeeffe => 1,
        ParamSource::NotApplicable => 0,
    }
}

impl ParamSource {
    pub fn as_str(&self) -> (r: &'static str)
        ensures
            r@ == source_label(*self),
    {
        match self {
            ParamSource::Iucr => "IUCr",
            ParamSource::IucrSubstituted => "IUCr*",
            ParamSource::BresOKeeffe => "B&OK",
            ParamSource::NotApplicable => "n/a",
        }
    }

    /// Quality rank for picking the best source across an atom's bonds.
    pub fn rank(&self) -> (r: u8)
        ensures
            r == source_rank(*self),
    {
        match self {
            ParamSource::Iucr => 3,
            ParamSource::IucrSubstituted => 2,
            ParamSource::BresOKeeffe => 1,
            ParamSource::NotApplicable => 0,
        }
    }
}

/// Structure quality bands of the global instability index.
#[derive(Debug, Clone, Copy, PartialEq, Eq, Structural)]
pub enum BVSQuality {
    Excellent,
    Good,
    Acceptable,
    Poor,
}

pub open spec fn quality_label(q: BVSQuality) -> Seq<char> {
    match q {
        BVSQuality::Excellent => "Excellent"@,
        BVSQuality::Good => "Good"@,
        BVSQuality::Acceptable => "Acceptable"@,
        BVSQuality::Poor => "Poor"@,
    }
}

pub open spec fn quality_symbol(q: BVSQuality) -> Seq<char> {
    match q {
        BVSQuality::Excellent => "\u{2713}"@,
        BVSQuality::Good => "\u{2713}"@,
        BVSQuality::Acceptable => "\u{26a0}"@,
        BVSQuality::Poor => "\u{2717}"@,
    }
}

/// The quality band of a global instability index given in millionths of
/// a valence unit: below 0.10 excellent, below 0.20 good, below 0.40
/// acceptable, poor from there on.
pub open spec fn quality_band(d_micro: int) -> BVSQuality {
    if d_micro < 100_000 {
        BVSQuality::Excellent
    } else if d_micro < 200_000 {
        BVSQuality::Good
    } else if d_micro < 400_000 {
        BVSQuality::Acceptable
    } else {
        BVSQuality::Poor
    }
}

impl BVSQuality {
    /// The band of a global instability index, in millionths of a valence
    /// unit.
    pub fn from_deviation(d_micro: i64) -> (r: BVSQuality)
        ensures
            r == quality_band(d_micro as int),
    {
        if d_micro < 100_000 {
            BVSQuality::Excellent
        } else if d_micro < 200_000 {
            BVSQuality::Good
        } else if d_micro < 400_000 {
            BVSQuality::Acceptable
        } else {
            BVSQuality::Poor
        }
    }

    pub fn as_str(&self) -> (r: &'static str)
        ensures
            r@ == quality_label(*self),
    {
        match self {
            BVSQuality::Excellent => "Excellent",
            BVSQuality::Good => "Good",
            BVSQuality::Acceptable => "Acceptable",
            BVSQuality::Poor => "Poor",
        }
    }

    pub fn symbol(&self) -> (r: &'static str)
        ensures
            r@ == quality_symbol(*self),
    {
        match self {
            BVSQuality::Excellent | BVSQuality::Good => "\u{2713}",
            BVSQuality::Acceptable => "\u{26a0}",
            BVSQuality::Poor => "\u{2717}",
        }
    }
}

} // verus!
