use vstd::prelude::*;

use crate::elements::{
    atomic_number, element_properties, element_symbol, element_table, get_atomic_number, lemma_atomic_number_roundtrip,
    symbol_of,
};
use crate::formula::{lemma_lex_irreflexive, lemma_lex_total, lemma_lex_transitive, lex_less, lex_lt};
use crate::text::{
    chars_of, decimal, fixed3, push_decimal, push_fixed3, push_str, round_half_even, round_half_even_exec, same_chars,
};

verus! {

/// Where a bond valence parameter comes from.
#[derive(Debug, Clone, Copy, PartialEq, Eq, Structural)]
pub enum ParamSource {
    /// Brown & Altermatt (1985) / IUCr bond valence parameter tables.
    Experimental,
    /// Estimated from atomic properties for pairs missing from the tables.
    Predicted,
}

/// A bond valence parameter pair: the reference bond length `R0`, in
/// millionths of an ångström, and the softness `B`, in thousandths.
#[derive(Debug, Clone, Copy, PartialEq, Eq, Structural)]
pub struct BVParam {
    pub r0_micro: u32,
    pub b_milli: u32,
    pub source: ParamSource,
}

/// One tabulated cation-anion pair: atomic numbers, `R0` in thousandths of an
/// ångström and `B` in thousandths.
#[derive(Debug, Clone, Copy, PartialEq, Eq, Structural)]
pub struct BvRow {
    pub cat: i32,
    pub an: i32,
    pub r0_milli: u32,
    pub b_milli: u32,
}

/// Number of rows in the embedded table.
pub open spec fn bv_row_count() -> int {
    134
}

/// Row `i` of the embedded table (Brown & Altermatt 1985, Brese & O'Keeffe
/// 1991): oxides, halides, rare-earth oxides, sulfides, nitrides, phosphides
/// and actinide oxides. Every pair is valid in both orders.
pub open spec fn bv_row(i: int) -> BvRow {
    if i == 0 {
        BvRow { cat: 1, an: 8, r0_milli: 989, b_milli: 370 }  // H-O
    } else if i == 1 {
        BvRow { cat: 3, an: 8, r0_milli: 1466, b_milli: 370 }  // Li-O
    } else if i == 2 {
        BvRow { cat: 11, an: 8, r0_milli: 1803, b_milli: 370 }  // Na-O
    } else if i == 3 {
        BvRow { cat: 19, an: 8, r0_milli: 2132, b_milli: 370 }  // K-O
    } else if i == 4 {
        BvRow { cat: 37, an: 8, r0_milli: 2263, b_milli: 370 }  // Rb-O
    } else if i == 5 {
        BvRow { cat: 55, an: 8, r0_milli: 2417, b_milli: 370 }  // Cs-O
    } else if i == 6 {
        BvRow { cat: 4, an: 8, r0_milli: 1381, b_milli: 370 }  // Be-O
    } else if i == 7 {
        BvRow { cat: 12, an: 8, r0_milli: 1693, b_milli: 370 }  // Mg-O
    } else if i == 8 {
        BvRow { cat: 20, an: 8, r0_milli: 1967, b_milli: 370 }  // Ca-O
    } else if i == 9 {
        BvRow { cat: 38, an: 8, r0_milli: 2118, b_milli: 370 }  // Sr-O
    } else if i == 10 {
        BvRow { cat: 56, an: 8, r0_milli: 2285, b_milli: 370 }  // Ba-O
    } else if i == 11 {
        BvRow { cat: 88, an: 8, r0_milli: 2420, b_milli: 370 }  // Ra-O
    } else if i == 12 {
        BvRow { cat: 21, an: 8, r0_milli: 1849, b_milli: 370 }  // Sc-O
    } else if i == 13 {
        BvRow { cat: 22, an: 8, r0_milli: 1815, b_milli: 370 }  // Ti-O
    } else if i == 14 {
        BvRow { cat: 23, an: 8, r0_milli: 1743, b_milli: 370 }  // V-O
    } else if i == 15 {
        BvRow { cat: 24, an: 8, r0_milli: 1724, b_milli: 370 }  // Cr-O
    } else if i == 16 {
        BvRow { cat: 25, an: 8, r0_milli: 1790, b_milli: 370 }  // Mn-O
    } else if i == 17 {
        BvRow { cat: 26, an: 8, r0_milli: 1759, b_milli: 370 }  // Fe-O
    } else if i == 18 {
        BvRow { cat: 27, an: 8, r0_milli: 1692, b_milli: 370 }  // Co-O
    } else if i == 19 {
        BvRow { cat: 28, an: 8, r0_milli: 1654, b_milli: 370 }  // Ni-O
    } else if i == 20 {
        BvRow { cat: 29, an: 8, r0_milli: 1679, b_milli: 370 }  // Cu-O
    } else if i == 21 {
        BvRow { cat: 30, an: 8, r0_milli: 1704, b_milli: 370 }  // Zn-O
    } else if i == 22 {
        BvRow { cat: 39, an: 8, r0_milli: 2019, b_milli: 370 }  // Y-O
    } else if i == 23 {
        BvRow { cat: 40, an: 8, r0_milli: 1937, b_milli: 370 }  // Zr-O
    } else if i == 24 {
        BvRow { cat: 41, an: 8, r0_milli: 1911, b_milli: 370 }  // Nb-O
    } else if i == 25 {
        BvRow { cat: 42, an: 8, r0_milli: 1907, b_milli: 370 }  // Mo-O
    } else if i == 26 {
        BvRow { cat: 43, an: 8, r0_milli: 1859, b_milli: 370 }  // Tc-O
    } else if i == 27 {
        BvRow { cat: 44, an: 8, r0_milli: 1834, b_milli: 370 }  // Ru-O
    } else if i == 28 {
        BvRow { cat: 45, an: 8, r0_milli: 1812, b_milli: 370 }  // Rh-O
    } else if i == 29 {
        BvRow { cat: 46, an: 8, r0_milli: 1792, b_milli: 370 }  // Pd-O
    } else if i == 30 {
        BvRow { cat: 47, an: 8, r0_milli: 1842, b_milli: 370 }  // Ag-O
    } else if i == 31 {
        BvRow { cat: 48, an: 8, r0_milli: 1904, b_milli: 370 }  // Cd-O
    } else if i == 32 {
        BvRow { cat: 57, an: 8, r0_milli: 2172, b_milli: 370 }  // La-O
    } else if i == 33 {
        BvRow { cat: 72, an: 8, r0_milli: 1923, b_milli: 370 }  // Hf-O
    } else if i == 34 {
        BvRow { cat: 73, an: 8, r0_milli: 1920, b_milli: 370 }  // Ta-O
    } else if i == 35 {
        BvRow { cat: 74, an: 8, r0_milli: 1921, b_milli: 370 }  // W-O
    } else if i == 36 {
        BvRow { cat: 75, an: 8, r0_milli: 1891, b_milli: 370 }  // Re-O
    } else if i == 37 {
        BvRow { cat: 76, an: 8, r0_milli: 1856, b_milli: 370 }  // Os-O
    } else if i == 38 {
        BvRow { cat: 77, an: 8, r0_milli: 1847, b_milli: 370 }  // Ir-O
    } else if i == 39 {
        BvRow { cat: 78, an: 8, r0_milli: 1837, b_milli: 370 }  // Pt-O
    } else if i == 40 {
        BvRow { cat: 79, an: 8, r0_milli: 1833, b_milli: 370 }  // Au-O
    } else if i == 41 {
        BvRow { cat: 80, an: 8, r0_milli: 1967, b_milli: 370 }  // Hg-O
    } else if i == 42 {
        BvRow { cat: 5, an: 8, r0_milli: 1371, b_milli: 370 }  // B-O
    } else if i == 43 {
        BvRow { cat: 13, an: 8, r0_milli: 1651, b_milli: 370 }  // Al-O
    } else if i == 44 {
        BvRow { cat: 31, an: 8, r0_milli: 1730, b_milli: 370 }  // Ga-O
    } else if i == 45 {
        BvRow { cat: 49, an: 8, r0_milli: 1902, b_milli: 370 }  // In-O
    } else if i == 46 {
        BvRow { cat: 81, an: 8, r0_milli: 2042, b_milli: 370 }  // Tl-O
    } else if i == 47 {
        BvRow { cat: 6, an: 8, r0_milli: 1394, b_milli: 370 }  // C-O
    } else if i == 48 {
        BvRow { cat: 14, an: 8, r0_milli: 1624, b_milli: 370 }  // Si-O
    } else if i == 49 {
        BvRow { cat: 32, an: 8, r0_milli: 1748, b_milli: 370 }  // Ge-O
    } else if i == 50 {
        BvRow { cat: 50, an: 8, r0_milli: 1905, b_milli: 370 }  // Sn-O
    } else if i == 51 {
        BvRow { cat: 82, an: 8, r0_milli: 2042, b_milli: 370 }  // Pb-O
    } else if i == 52 {
        BvRow { cat: 7, an: 8, r0_milli: 1432, b_milli: 370 }  // N-O
    } else if i == 53 {
        BvRow { cat: 15, an: 8, r0_milli: 1617, b_milli: 370 }  // P-O
    } else if i == 54 {
        BvRow { cat: 33, an: 8, r0_milli: 1767, b_milli: 370 }  // As-O
    } else if i == 55 {
        BvRow { cat: 51, an: 8, r0_milli: 1973, b_milli: 370 }  // Sb-O
    } else if i == 56 {
        BvRow { cat: 83, an: 8, r0_milli: 2094, b_milli: 370 }  // Bi-O
    } else if i == 57 {
        BvRow { cat: 16, an: 8, r0_milli: 1644, b_milli: 370 }  // S-O
    } else if i == 58 {
        BvRow { cat: 34, an: 8, r0_milli: 1811, b_milli: 370 }  // Se-O
    } else if i == 59 {
        BvRow { cat: 52, an: 8, r0_milli: 1977, b_milli: 370 }  // Te-O
    } else if i == 60 {
        BvRow { cat: 17, an: 8, r0_milli: 1674, b_milli: 370 }  // Cl-O
    } else if i == 61 {
        BvRow { cat: 35, an: 8, r0_milli: 1849, b_milli: 370 }  // Br-O
    } else if i == 62 {
        BvRow { cat: 53, an: 8, r0_milli: 2019, b_milli: 370 }  // I-O
    } else if i == 63 {
        BvRow { cat: 3, an: 9, r0_milli: 1360, b_milli: 370 }  // Li-F
    } else if i == 64 {
        BvRow { cat: 11, an: 9, r0_milli: 1677, b_milli: 370 }  // Na-F
    } else if i == 65 {
        BvRow { cat: 19, an: 9, r0_milli: 1992, b_milli: 370 }  // K-F
    } else if i == 66 {
        BvRow { cat: 37, an: 9, r0_milli: 2150, b_milli: 370 }  // Rb-F
    } else if i == 67 {
        BvRow { cat: 55, an: 9, r0_milli: 2304, b_milli: 370 }  // Cs-F
    } else if i == 68 {
        BvRow { cat: 4, an: 9, r0_milli: 1281, b_milli: 370 }  // Be-F
    } else if i == 69 {
        BvRow { cat: 12, an: 9, r0_milli: 1578, b_milli: 370 }  // Mg-F
    } else if i == 70 {
        BvRow { cat: 20, an: 9, r0_milli: 1842, b_milli: 370 }  // Ca-F
    } else if i == 71 {
        BvRow { cat: 38, an: 9, r0_milli: 1993, b_milli: 370 }  // Sr-F
    } else if i == 72 {
        BvRow { cat: 56, an: 9, r0_milli: 2170, b_milli: 370 }  // Ba-F
    } else if i == 73 {
        BvRow { cat: 13, an: 9, r0_milli: 1545, b_milli: 370 }  // Al-F
    } else if i == 74 {
        BvRow { cat: 14, an: 9, r0_milli: 1549, b_milli: 370 }  // Si-F
    } else if i == 75 {
        BvRow { cat: 3, an: 17, r0_milli: 1949, b_milli: 370 }  // Li-Cl
    } else if i == 76 {
        BvRow { cat: 11, an: 17, r0_milli: 2237, b_milli: 370 }  // Na-Cl
    } else if i == 77 {
        BvRow { cat: 19, an: 17, r0_milli: 2567, b_milli: 370 }  // K-Cl
    } else if i == 78 {
        BvRow { cat: 37, an: 17, r0_milli: 2715, b_milli: 370 }  // Rb-Cl
    } else if i == 79 {
        BvRow { cat: 55, an: 17, r0_milli: 2871, b_milli: 370 }  // Cs-Cl
    } else if i == 80 {
        BvRow { cat: 12, an: 17, r0_milli: 2107, b_milli: 370 }  // Mg-Cl
    } else if i == 81 {
        BvRow { cat: 20, an: 17, r0_milli: 2372, b_milli: 370 }  // Ca-Cl
    } else if i == 82 {
        BvRow { cat: 38, an: 17, r0_milli: 2527, b_milli: 370 }  // Sr-Cl
    } else if i == 83 {
        BvRow { cat: 56, an: 17, r0_milli: 2704, b_milli: 370 }  // Ba-Cl
    } else if i == 84 {
        BvRow { cat: 3, an: 35, r0_milli: 2117, b_milli: 370 }  // Li-Br
    } else if i == 85 {
        BvRow { cat: 11, an: 35, r0_milli: 2405, b_milli: 370 }  // Na-Br
    } else if i == 86 {
        BvRow { cat: 19, an: 35, r0_milli: 2735, b_milli: 370 }  // K-Br
    } else if i == 87 {
        BvRow { cat: 37, an: 35, r0_milli: 2883, b_milli: 370 }  // Rb-Br
    } else if i == 88 {
        BvRow { cat: 55, an: 35, r0_milli: 3039, b_milli: 370 }  // Cs-Br
    } else if i == 89 {
        BvRow { cat: 3, an: 53, r0_milli: 2340, b_milli: 370 }  // Li-I
    } else if i == 90 {
        BvRow { cat: 11, an: 53, r0_milli: 2628, b_milli: 370 }  // Na-I
    } else if i == 91 {
        BvRow { cat: 19, an: 53, r0_milli: 2958, b_milli: 370 }  // K-I
    } else if i == 92 {
        BvRow { cat: 37, an: 53, r0_milli: 3106, b_milli: 370 }  // Rb-I
    } else if i == 93 {
        BvRow { cat: 55, an: 53, r0_milli: 3262, b_milli: 370 }  // Cs-I
    } else if i == 94 {
        BvRow { cat: 57, an: 8, r0_milli: 2172, b_milli: 370 }  // La-O
    } else if i == 95 {
        BvRow { cat: 58, an: 8, r0_milli: 2151, b_milli: 370 }  // Ce-O
    } else if i == 96 {
        BvRow { cat: 59, an: 8, r0_milli: 2134, b_milli: 370 }  // Pr-O
    } else if i == 97 {
        BvRow { cat: 60, an: 8, r0_milli: 2105, b_milli: 370 }  // Nd-O
    } else if i == 98 {
        BvRow { cat: 61, an: 8, r0_milli: 2086, b_milli: 370 }  // Pm-O
    } else if i == 99 {
        BvRow { cat: 62, an: 8, r0_milli: 2067, b_milli: 370 }  // Sm-O
    } else if i == 100 {
        BvRow { cat: 63, an: 8, r0_milli: 2074, b_milli: 370 }  // Eu-O
    } else if i == 101 {
        BvRow { cat: 64, an: 8, r0_milli: 2063, b_milli: 370 }  // Gd-O
    } else if i == 102 {
        BvRow { cat: 65, an: 8, r0_milli: 2038, b_milli: 370 }  // Tb-O
    } else if i == 103 {
        BvRow { cat: 66, an: 8, r0_milli: 2027, b_milli: 370 }  // Dy-O
    } else if i == 104 {
        BvRow { cat: 67, an: 8, r0_milli: 2010, b_milli: 370 }  // Ho-O
    } else if i == 105 {
        BvRow { cat: 68, an: 8, r0_milli: 1997, b_milli: 370 }  // Er-O
    } else if i == 106 {
        BvRow { cat: 69, an: 8, r0_milli: 1981, b_milli: 370 }  // Tm-O
    } else if i == 107 {
        BvRow { cat: 70, an: 8, r0_milli: 1985, b_milli: 370 }  // Yb-O
    } else if i == 108 {
        BvRow { cat: 71, an: 8, r0_milli: 1971, b_milli: 370 }  // Lu-O
    } else if i == 109 {
        BvRow { cat: 3, an: 16, r0_milli: 2126, b_milli: 370 }  // Li-S
    } else if i == 110 {
        BvRow { cat: 11, an: 16, r0_milli: 2398, b_milli: 370 }  // Na-S
    } else if i == 111 {
        BvRow { cat: 19, an: 16, r0_milli: 2778, b_milli: 370 }  // K-S
    } else if i == 112 {
        BvRow { cat: 12, an: 16, r0_milli: 2321, b_milli: 370 }  // Mg-S
    } else if i == 113 {
        BvRow { cat: 20, an: 16, r0_milli: 2597, b_milli: 370 }  // Ca-S
    } else if i == 114 {
        BvRow { cat: 26, an: 16, r0_milli: 2321, b_milli: 370 }  // Fe-S
    } else if i == 115 {
        BvRow { cat: 27, an: 16, r0_milli: 2260, b_milli: 370 }  // Co-S
    } else if i == 116 {
        BvRow { cat: 28, an: 16, r0_milli: 2222, b_milli: 370 }  // Ni-S
    } else if i == 117 {
        BvRow { cat: 29, an: 16, r0_milli: 2205, b_milli: 370 }  // Cu-S
    } else if i == 118 {
        BvRow { cat: 30, an: 16, r0_milli: 2272, b_milli: 370 }  // Zn-S
    } else if i == 119 {
        BvRow { cat: 3, an: 7, r0_milli: 1756, b_milli: 370 }  // Li-N
    } else if i == 120 {
        BvRow { cat: 12, an: 7, r0_milli: 1988, b_milli: 370 }  // Mg-N
    } else if i == 121 {
        BvRow { cat: 13, an: 7, r0_milli: 1869, b_milli: 370 }  // Al-N
    } else if i == 122 {
        BvRow { cat: 14, an: 7, r0_milli: 1879, b_milli: 370 }  // Si-N
    } else if i == 123 {
        BvRow { cat: 22, an: 7, r0_milli: 2041, b_milli: 370 }  // Ti-N
    } else if i == 124 {
        BvRow { cat: 31, an: 7, r0_milli: 1976, b_milli: 370 }  // Ga-N
    } else if i == 125 {
        BvRow { cat: 3, an: 15, r0_milli: 2362, b_milli: 370 }  // Li-P
    } else if i == 126 {
        BvRow { cat: 11, an: 15, r0_milli: 2649, b_milli: 370 }  // Na-P
    } else if i == 127 {
        BvRow { cat: 20, an: 15, r0_milli: 2826, b_milli: 370 }  // Ca-P
    } else if i == 128 {
        BvRow { cat: 31, an: 15, r0_milli: 2265, b_milli: 370 }  // Ga-P
    } else if i == 129 {
        BvRow { cat: 49, an: 15, r0_milli: 2541, b_milli: 370 }  // In-P
    } else if i == 130 {
        BvRow { cat: 90, an: 8, r0_milli: 2167, b_milli: 370 }  // Th-O
    } else if i == 131 {
        BvRow { cat: 92, an: 8, r0_milli: 2051, b_milli: 370 }  // U-O
    } else if i == 132 {
        BvRow { cat: 93, an: 8, r0_milli: 2035, b_milli: 370 }  // Np-O
    } else if i == 133 {
        BvRow { cat: 94, an: 8, r0_milli: 2019, b_milli: 370 }  // Pu-O
    } else {
        BvRow { cat: 0, an: 0, r0_milli: 0, b_milli: 0 }
    }
}

fn bv_row_exec(i: usize) -> (r: BvRow)
    requires
        i < bv_row_count(),
    ensures
        r == bv_row(i as int),
{
    match i {
        0 => BvRow { cat: 1, an: 8, r0_milli: 989, b_milli: 370 },
        1 => BvRow { cat: 3, an: 8, r0_milli: 1466, b_milli: 370 },
        2 => BvRow { cat: 11, an: 8, r0_milli: 1803, b_milli: 370 },
        3 => BvRow { cat: 19, an: 8, r0_milli: 2132, b_milli: 370 },
        4 => BvRow { cat: 37, an: 8, r0_milli: 2263, b_milli: 370 },
        5 => BvRow { cat: 55, an: 8, r0_milli: 2417, b_milli: 370 },
        6 => BvRow { cat: 4, an: 8, r0_milli: 1381, b_milli: 370 },
        7 => BvRow { cat: 12, an: 8, r0_milli: 1693, b_milli: 370 },
        8 => BvRow { cat: 20, an: 8, r0_milli: 1967, b_milli: 370 },
        9 => BvRow { cat: 38, an: 8, r0_milli: 2118, b_milli: 370 },
        10 => BvRow { cat: 56, an: 8, r0_milli: 2285, b_milli: 370 },
        11 => BvRow { cat: 88, an: 8, r0_milli: 2420, b_milli: 370 },
        12 => BvRow { cat: 21, an: 8, r0_milli: 1849, b_milli: 370 },
        13 => BvRow { cat: 22, an: 8, r0_milli: 1815, b_milli: 370 },
        14 => BvRow { cat: 23, an: 8, r0_milli: 1743, b_milli: 370 },
        15 => BvRow { cat: 24, an: 8, r0_milli: 1724, b_milli: 370 },
        16 => BvRow { cat: 25, an: 8, r0_milli: 1790, b_milli: 370 },
        17 => BvRow { cat: 26, an: 8, r0_milli: 1759, b_milli: 370 },
        18 => BvRow { cat: 27, an: 8, r0_milli: 1692, b_milli: 370 },
        19 => BvRow { cat: 28, an: 8, r0_milli: 1654, b_milli: 370 },
        20 => BvRow { cat: 29, an: 8, r0_milli: 1679, b_milli: 370 },
        21 => BvRow { cat: 30, an: 8, r0_milli: 1704, b_milli: 370 },
        22 => BvRow { cat: 39, an: 8, r0_milli: 2019, b_milli: 370 },
        23 => BvRow { cat: 40, an: 8, r0_milli: 1937, b_milli: 370 },
        24 => BvRow { cat: 41, an: 8, r0_milli: 1911, b_milli: 370 },
        25 => BvRow { cat: 42, an: 8, r0_milli: 1907, b_milli: 370 },
        26 => BvRow { cat: 43, an: 8, r0_milli: 1859, b_milli: 370 },
        27 => BvRow { cat: 44, an: 8, r0_milli: 1834, b_milli: 370 },
        28 => BvRow { cat: 45, an: 8, r0_milli: 1812, b_milli: 370 },
        29 => BvRow { cat: 46, an: 8, r0_milli: 1792, b_milli: 370 },
        30 => BvRow { cat: 47, an: 8, r0_milli: 1842, b_milli: 370 },
        31 => BvRow { cat: 48, an: 8, r0_milli: 1904, b_milli: 370 },
        32 => BvRow { cat: 57, an: 8, r0_milli: 2172, b_milli: 370 },
        33 => BvRow { cat: 72, an: 8, r0_milli: 1923, b_milli: 370 },
        34 => BvRow { cat: 73, an: 8, r0_milli: 1920, b_milli: 370 },
        35 => BvRow { cat: 74, an: 8, r0_milli: 1921, b_milli: 370 },
        36 => BvRow { cat: 75, an: 8, r0_milli: 1891, b_milli: 370 },
        37 => BvRow { cat: 76, an: 8, r0_milli: 1856, b_milli: 370 },
        38 => BvRow { cat: 77, an: 8, r0_milli: 1847, b_milli: 370 },
        39 => BvRow { cat: 78, an: 8, r0_milli: 1837, b_milli: 370 },
        40 => BvRow { cat: 79, an: 8, r0_milli: 1833, b_milli: 370 },
        41 => BvRow { cat: 80, an: 8, r0_milli: 1967, b_milli: 370 },
        42 => BvRow { cat: 5, an: 8, r0_milli: 1371, b_milli: 370 },
        43 => BvRow { cat: 13, an: 8, r0_milli: 1651, b_milli: 370 },
        44 => BvRow { cat: 31, an: 8, r0_milli: 1730, b_milli: 370 },
        45 => BvRow { cat: 49, an: 8, r0_milli: 1902, b_milli: 370 },
        46 => BvRow { cat: 81, an: 8, r0_milli: 2042, b_milli: 370 },
        47 => BvRow { cat: 6, an: 8, r0_milli: 1394, b_milli: 370 },
        48 => BvRow { cat: 14, an: 8, r0_milli: 1624, b_milli: 370 },
        49 => BvRow { cat: 32, an: 8, r0_milli: 1748, b_milli: 370 },
        50 => BvRow { cat: 50, an: 8, r0_milli: 1905, b_milli: 370 },
        51 => BvRow { cat: 82, an: 8, r0_milli: 2042, b_milli: 370 },
        52 => BvRow { cat: 7, an: 8, r0_milli: 1432, b_milli: 370 },
        53 => BvRow { cat: 15, an: 8, r0_milli: 1617, b_milli: 370 },
        54 => BvRow { cat: 33, an: 8, r0_milli: 1767, b_milli: 370 },
        55 => BvRow { cat: 51, an: 8, r0_milli: 1973, b_milli: 370 },
        56 => BvRow { cat: 83, an: 8, r0_milli: 2094, b_milli: 370 },
        57 => BvRow { cat: 16, an: 8, r0_milli: 1644, b_milli: 370 },
        58 => BvRow { cat: 34, an: 8, r0_milli: 1811, b_milli: 370 },
        59 => BvRow { cat: 52, an: 8, r0_milli: 1977, b_milli: 370 },
        60 => BvRow { cat: 17, an: 8, r0_milli: 1674, b_milli: 370 },
        61 => BvRow { cat: 35, an: 8, r0_milli: 1849, b_milli: 370 },
        62 => BvRow { cat: 53, an: 8, r0_milli: 2019, b_milli: 370 },
        63 => BvRow { cat: 3, an: 9, r0_milli: 1360, b_milli: 370 },
        64 => BvRow { cat: 11, an: 9, r0_milli: 1677, b_milli: 370 },
        65 => BvRow { cat: 19, an: 9, r0_milli: 1992, b_milli: 370 },
        66 => BvRow { cat: 37, an: 9, r0_milli: 2150, b_milli: 370 },
        67 => BvRow { cat: 55, an: 9, r0_milli: 2304, b_milli: 370 },
        68 => BvRow { cat: 4, an: 9, r0_milli: 1281, b_milli: 370 },
        69 => BvRow { cat: 12, an: 9, r0_milli: 1578, b_milli: 370 },
        70 => BvRow { cat: 20, an: 9, r0_milli: 1842, b_milli: 370 },
        71 => BvRow { cat: 38, an: 9, r0_milli: 1993, b_milli: 370 },
        72 => BvRow { cat: 56, an: 9, r0_milli: 2170, b_milli: 370 },
        73 => BvRow { cat: 13, an: 9, r0_milli: 1545, b_milli: 370 },
        74 => BvRow { cat: 14, an: 9, r0_milli: 1549, b_milli: 370 },
        75 => BvRow { cat: 3, an: 17, r0_milli: 1949, b_milli: 370 },
        76 => BvRow { cat: 11, an: 17, r0_milli: 2237, b_milli: 370 },
        77 => BvRow { cat: 19, an: 17, r0_milli: 2567, b_milli: 370 },
        78 => BvRow { cat: 37, an: 17, r0_milli: 2715, b_milli: 370 },
        79 => BvRow { cat: 55, an: 17, r0_milli: 2871, b_milli: 370 },
        80 => BvRow { cat: 12, an: 17, r0_milli: 2107, b_milli: 370 },
        81 => BvRow { cat: 20, an: 17, r0_milli: 2372, b_milli: 370 },
        82 => BvRow { cat: 38, an: 17, r0_milli: 2527, b_milli: 370 },
        83 => BvRow { cat: 56, an: 17, r0_milli: 2704, b_milli: 370 },
        84 => BvRow { cat: 3, an: 35, r0_milli: 2117, b_milli: 370 },
        85 => BvRow { cat: 11, an: 35, r0_milli: 2405, b_milli: 370 },
        86 => BvRow { cat: 19, an: 35, r0_milli: 2735, b_milli: 370 },
        87 => BvRow { cat: 37, an: 35, r0_milli: 2883, b_milli: 370 },
        88 => BvRow { cat: 55, an: 35, r0_milli: 3039, b_milli: 370 },
        89 => BvRow { cat: 3, an: 53, r0_milli: 2340, b_milli: 370 },
        90 => BvRow { cat: 11, an: 53, r0_milli: 2628, b_milli: 370 },
        91 => BvRow { cat: 19, an: 53, r0_milli: 2958, b_milli: 370 },
        92 => BvRow { cat: 37, an: 53, r0_milli: 3106, b_milli: 370 },
        93 => BvRow { cat: 55, an: 53, r0_milli: 3262, b_milli: 370 },
        94 => BvRow { cat: 57, an: 8, r0_milli: 2172, b_milli: 370 },
        95 => BvRow { cat: 58, an: 8, r0_milli: 2151, b_milli: 370 },
        96 => BvRow { cat: 59, an: 8, r0_milli: 2134, b_milli: 370 },
        97 => BvRow { cat: 60, an: 8, r0_milli: 2105, b_milli: 370 },
        98 => BvRow { cat: 61, an: 8, r0_milli: 2086, b_milli: 370 },
        99 => BvRow { cat: 62, an: 8, r0_milli: 2067, b_milli: 370 },
        100 => BvRow { cat: 63, an: 8, r0_milli: 2074, b_milli: 370 },
        101 => BvRow { cat: 64, an: 8, r0_milli: 2063, b_milli: 370 },
        102 => BvRow { cat: 65, an: 8, r0_milli: 2038, b_milli: 370 },
        103 => BvRow { cat: 66, an: 8, r0_milli: 2027, b_milli: 370 },
        104 => BvRow { cat: 67, an: 8, r0_milli: 2010, b_milli: 370 },
        105 => BvRow { cat: 68, an: 8, r0_milli: 1997, b_milli: 370 },
        106 => BvRow { cat: 69, an: 8, r0_milli: 1981, b_milli: 370 },
        107 => BvRow { cat: 70, an: 8, r0_milli: 1985, b_milli: 370 },
        108 => BvRow { cat: 71, an: 8, r0_milli: 1971, b_milli: 370 },
        109 => BvRow { cat: 3, an: 16, r0_milli: 2126, b_milli: 370 },
        110 => BvRow { cat: 11, an: 16, r0_milli: 2398, b_milli: 370 },
        111 => BvRow { cat: 19, an: 16, r0_milli: 2778, b_milli: 370 },
        112 => BvRow { cat: 12, an: 16, r0_milli: 2321, b_milli: 370 },
        113 => BvRow { cat: 20, an: 16, r0_milli: 2597, b_milli: 370 },
        114 => BvRow { cat: 26, an: 16, r0_milli: 2321, b_milli: 370 },
        115 => BvRow { cat: 27, an: 16, r0_milli: 2260, b_milli: 370 },
        116 => BvRow { cat: 28, an: 16, r0_milli: 2222, b_milli: 370 },
        117 => BvRow { cat: 29, an: 16, r0_milli: 2205, b_milli: 370 },
        118 => BvRow { cat: 30, an: 16, r0_milli: 2272, b_milli: 370 },
        119 => BvRow { cat: 3, an: 7, r0_milli: 1756, b_milli: 370 },
        120 => BvRow { cat: 12, an: 7, r0_milli: 1988, b_milli: 370 },
        121 => BvRow { cat: 13, an: 7, r0_milli: 1869, b_milli: 370 },
        122 => BvRow { cat: 14, an: 7, r0_milli: 1879, b_milli: 370 },
        123 => BvRow { cat: 22, an: 7, r0_milli: 2041, b_milli: 370 },
        124 => BvRow { cat: 31, an: 7, r0_milli: 1976, b_milli: 370 },
        125 => BvRow { cat: 3, an: 15, r0_milli: 2362, b_milli: 370 },
        126 => BvRow { cat: 11, an: 15, r0_milli: 2649, b_milli: 370 },
        127 => BvRow { cat: 20, an: 15, r0_milli: 2826, b_milli: 370 },
        128 => BvRow { cat: 31, an: 15, r0_milli: 2265, b_milli: 370 },
        129 => BvRow { cat: 49, an: 15, r0_milli: 2541, b_milli: 370 },
        130 => BvRow { cat: 90, an: 8, r0_milli: 2167, b_milli: 370 },
        131 => BvRow { cat: 92, an: 8, r0_milli: 2051, b_milli: 370 },
        132 => BvRow { cat: 93, an: 8, r0_milli: 2035, b_milli: 370 },
        133 => BvRow { cat: 94, an: 8, r0_milli: 2019, b_milli: 370 },
        _ => BvRow { cat: 0, an: 0, r0_milli: 0, b_milli: 0 },
    }
}

proof fn lemma_row_elements(i: int)
    requires
        0 <= i < bv_row_count(),
    ensures
        1 <= bv_row(i).cat <= 103,
        1 <= bv_row(i).an <= 103,
        bv_row(i).cat != bv_row(i).an,
        bv_row(i).r0_milli <= 4000,
        bv_row(i).b_milli <= 1000,
{
    if i == 0 {
    } else if i == 1 {
    } else if i == 2 {
    } else if i == 3 {
    } else if i == 4 {
    } else if i == 5 {
    } else if i == 6 {
    } else if i == 7 {
    } else if i == 8 {
    } else if i == 9 {
    } else if i == 10 {
    } else if i == 11 {
    } else if i == 12 {
    } else if i == 13 {
    } else if i == 14 {
    } else if i == 15 {
    } else if i == 16 {
    } else if i == 17 {
    } else if i == 18 {
    } else if i == 19 {
    } else if i == 20 {
    } else if i == 21 {
    } else if i == 22 {
    } else if i == 23 {
    } else if i == 24 {
    } else if i == 25 {
    } else if i == 26 {
    } else if i == 27 {
    } else if i == 28 {
    } else if i == 29 {
    } else if i == 30 {
    } else if i == 31 {
    } else if i == 32 {
    } else if i == 33 {
    } else if i == 34 {
    } else if i == 35 {
    } else if i == 36 {
    } else if i == 37 {
    } else if i == 38 {
    } else if i == 39 {
    } else if i == 40 {
    } else if i == 41 {
    } else if i == 42 {
    } else if i == 43 {
    } else if i == 44 {
    } else if i == 45 {
    } else if i == 46 {
    } else if i == 47 {
    } else if i == 48 {
    } else if i == 49 {
    } else if i == 50 {
    } else if i == 51 {
    } else if i == 52 {
    } else if i == 53 {
    } else if i == 54 {
    } else if i == 55 {
    } else if i == 56 {
    } else if i == 57 {
    } else if i == 58 {
    } else if i == 59 {
    } else if i == 60 {
    } else if i == 61 {
    } else if i == 62 {
    } else if i == 63 {
    } else if i == 64 {
    } else if i == 65 {
    } else if i == 66 {
    } else if i == 67 {
    } else if i == 68 {
    } else if i == 69 {
    } else if i == 70 {
    } else if i == 71 {
    } else if i == 72 {
    } else if i == 73 {
    } else if i == 74 {
    } else if i == 75 {
    } else if i == 76 {
    } else if i == 77 {
    } else if i == 78 {
    } else if i == 79 {
    } else if i == 80 {
    } else if i == 81 {
    } else if i == 82 {
    } else if i == 83 {
    } else if i == 84 {
    } else if i == 85 {
    } else if i == 86 {
    } else if i == 87 {
    } else if i == 88 {
    } else if i == 89 {
    } else if i == 90 {
    } else if i == 91 {
    } else if i == 92 {
    } else if i == 93 {
    } else if i == 94 {
    } else if i == 95 {
    } else if i == 96 {
    } else if i == 97 {
    } else if i == 98 {
    } else if i == 99 {
    } else if i == 100 {
    } else if i == 101 {
    } else if i == 102 {
    } else if i == 103 {
    } else if i == 104 {
    } else if i == 105 {
    } else if i == 106 {
    } else if i == 107 {
    } else if i == 108 {
    } else if i == 109 {
    } else if i == 110 {
    } else if i == 111 {
    } else if i == 112 {
    } else if i == 113 {
    } else if i == 114 {
    } else if i == 115 {
    } else if i == 116 {
    } else if i == 117 {
    } else if i == 118 {
    } else if i == 119 {
    } else if i == 120 {
    } else if i == 121 {
    } else if i == 122 {
    } else if i == 123 {
    } else if i == 124 {
    } else if i == 125 {
    } else if i == 126 {
    } else if i == 127 {
    } else if i == 128 {
    } else if i == 129 {
    } else if i == 130 {
    } else if i == 131 {
    } else if i == 132 {
    } else if i == 133 {
    }
}

/// Row `row` is the pair `{a, b}` (in either order), by element symbol.
pub open spec fn pair_matches(row: BvRow, a: Seq<char>, b: Seq<char>) -> bool {
    ||| (symbol_of(row.cat as int) == a && symbol_of(row.an as int) == b)
    ||| (symbol_of(row.an as int) == a && symbol_of(row.cat as int) == b)
}

/// The last of the first `n` rows that is the pair `{a, b}`: the table is a
/// map filled in row order with both orientations of each pair, so a later
/// row for the same pair replaces an earlier one.
pub open spec fn bv_lookup(a: Seq<char>, b: Seq<char>, n: int) -> Option<BvRow>
    decreases n,
{
    if n <= 0 {
        None
    } else if pair_matches(bv_row(n - 1), a, b) {
        Some(bv_row(n - 1))
    } else {
        bv_lookup(a, b, n - 1)
    }
}

/// The tabulated parameters of the pair `(a, b)`, if the table has them.
pub open spec fn experimental_row(a: Seq<char>, b: Seq<char>) -> Option<BvRow> {
    bv_lookup(a, b, bv_row_count())
}

proof fn lemma_matches_by_number(row: BvRow, a: Seq<char>, b: Seq<char>)
    requires
        1 <= row.cat <= 103,
        1 <= row.an <= 103,
    ensures
        pair_matches(row, a, b) <==> ((atomic_number(a) == row.cat && atomic_number(b) == row.an) || (
        atomic_number(a) == row.an && atomic_number(b) == row.cat)),
{
    lemma_atomic_number_roundtrip(row.cat as int, a);
    lemma_atomic_number_roundtrip(row.an as int, b);
    lemma_atomic_number_roundtrip(row.an as int, a);
    lemma_atomic_number_roundtrip(row.cat as int, b);
}

/// The tabulated row for the pair `(elem_a, elem_b)`.
pub fn experimental_lookup(elem_a: &str, elem_b: &str) -> (r: Option<BvRow>)
    ensures
        r == experimental_row(elem_a@, elem_b@),
{
    let za = get_atomic_number(elem_a);
    let zb = get_atomic_number(elem_b);
    let mut found: Option<BvRow> = None;
    let mut i: usize = 0;
    while i < 134
        invariant
            i <= bv_row_count(),
            za == atomic_number(elem_a@),
            zb == atomic_number(elem_b@),
            found == bv_lookup(elem_a@, elem_b@, i as int),
        decreases 134 - i,
    {
        let row = bv_row_exec(i);
        proof {
            lemma_row_elements(i as int);
            lemma_matches_by_number(row, elem_a@, elem_b@);
        }
        if (za == row.cat && zb == row.an) || (za == row.an && zb == row.cat) {
            found = Some(row);
        }
        i = i + 1;
    }
    found
}

/// Whether the table has parameters for the pair `(elem_a, elem_b)`.
pub fn has_experimental_param(elem_a: &str, elem_b: &str) -> (r: bool)
    ensures
        r == experimental_row(elem_a@, elem_b@) is Some,
{
    experimental_lookup(elem_a, elem_b).is_some()
}

/// The parameter of a tabulated row.
pub open spec fn row_param(row: BvRow) -> BVParam {
    BVParam { r0_micro: (row.r0_milli * 1000) as u32, b_milli: row.b_milli, source: ParamSource::Experimental }
}

/// Bond valence parameters of the pair: the tabulated ones when the pair is
/// in the table, otherwise the estimate of `predict_param_ml`.
pub open spec fn bv_param(a: Seq<char>, b: Seq<char>) -> BVParam {
    match experimental_row(a, b) {
        Some(row) => row_param(row),
        None => predicted_param(a, b),
    }
}

proof fn lemma_lookup_row(a: Seq<char>, b: Seq<char>, n: int)
    requires
        0 <= n <= bv_row_count(),
    ensures
        bv_lookup(a, b, n) matches Some(row) ==> exists|i: int| 0 <= i < n && bv_row(i) == row && pair_matches(row, a, b),
    decreases n,
{
    if n > 0 {
        lemma_lookup_row(a, b, n - 1);
        if pair_matches(bv_row(n - 1), a, b) {
            assert(bv_row(n - 1) == bv_row(n - 1));
        }
    }
}

/// Bond valence parameters of the pair `(elem_a, elem_b)`: tabulated when
/// available, estimated otherwise.
pub fn get_param(elem_a: &str, elem_b: &str) -> (r: BVParam)
    ensures
        r == bv_param(elem_a@, elem_b@),
{
    match experimental_lookup(elem_a, elem_b) {
        Some(row) => {
            proof {
                lemma_lookup_row(elem_a@, elem_b@, bv_row_count());
                let i = choose|i: int| 0 <= i < bv_row_count() && bv_row(i) == row && pair_matches(row, elem_a@, elem_b@);
                lemma_row_elements(i);
            }
            BVParam { r0_micro: row.r0_milli * 1000, b_milli: row.b_milli, source: ParamSource::Experimental }
        },
        None => predict_param_ml(elem_a, elem_b),
    }
}

// ---------------------------------------------------------------------------
// Estimation for pairs that are not tabulated.
// ---------------------------------------------------------------------------

/// 2^60: the scale of the `chi_exact` electronegativities.
pub open spec fn chi_unit() -> int {
    1152921504606846976
}

/// The `f64` value of 0.01, scaled by 2^60.
pub open spec fn chi_hundredth() -> int {
    11529215046068470
}

pub open spec fn abs_diff(x: int, y: int) -> int {
    if x >= y {
        x - y
    } else {
        y - x
    }
}

/// Softness `B` (thousandths) from bond character, given the two
/// electronegativities on the `chi_exact` scale: 0.37 for noble gases and
/// unknown elements and for ionic bonds (difference above 1.5), 0.35 for
/// polar covalent bonds (above 0.5), 0.40 between two metals (both below 2.0)
/// and 0.32 for other covalent bonds.
pub open spec fn b_estimate(chi_a: int, chi_b: int) -> int {
    let d = abs_diff(chi_a, chi_b);
    if chi_a < chi_hundredth() || chi_b < chi_hundredth() {
        370
    } else if d > 3 * chi_unit() / 2 {
        370
    } else if d > chi_unit() / 2 {
        350
    } else if chi_a < 2 * chi_unit() && chi_b < 2 * chi_unit() {
        400
    } else {
        320
    }
}

pub open spec fn chi_of(s: Seq<char>) -> int {
    element_table(atomic_number(s)).chi_exact as int
}

/// Estimated `R0` (millionths of an ångström) by the linear regression
/// `R0 = 0.684 (r_cov,A + r_cov,B) - 0.032 |chi_A - chi_B| + 0.312 (r_ion,A + r_ion,B) + 0.142`,
/// clamped to [0.8, 3.5] Å.
pub open spec fn predicted_r0(a: Seq<char>, b: Seq<char>) -> int {
    let ea = element_table(atomic_number(a));
    let eb = element_table(atomic_number(b));
    let raw = 684 * (ea.covalent_milli + eb.covalent_milli) - 320 * abs_diff(ea.chi_centi as int, eb.chi_centi as int)
        + 312 * (ea.ionic_milli + eb.ionic_milli) + 142000;
    if raw < 800000 {
        800000
    } else if raw > 3500000 {
        3500000
    } else {
        raw
    }
}

pub open spec fn predicted_param(a: Seq<char>, b: Seq<char>) -> BVParam {
    BVParam {
        r0_micro: predicted_r0(a, b) as u32,
        b_milli: b_estimate(chi_of(a), chi_of(b)) as u32,
        source: ParamSource::Predicted,
    }
}

/// The estimated `R0` of a pair is the regression on the two elements'
/// table values, in millionths of an ångström: 684 per thousandth of
/// covalent radius, 312 per thousandth of ionic radius, minus 320 per
/// hundredth of electronegativity difference, plus 142000; then held within
/// 0.8 to 3.5 Å.
pub proof fn lemma_predicted_r0_regression(a: Seq<char>, b: Seq<char>)
    ensures
        ({
            let ea = element_table(atomic_number(a));
            let eb = element_table(atomic_number(b));
            let cov = ea.covalent_milli as int + eb.covalent_milli as int;
            let ion = ea.ionic_milli as int + eb.ionic_milli as int;
            let dchi = if ea.chi_centi >= eb.chi_centi {
                ea.chi_centi - eb.chi_centi
            } else {
                eb.chi_centi - ea.chi_centi
            };
            let raw = 684 * cov + 312 * ion - 320 * dchi + 142000;
            &&& 800000 <= predicted_param(a, b).r0_micro <= 3500000
            &&& (800000 <= raw <= 3500000 ==> predicted_param(a, b).r0_micro == raw)
            &&& (raw < 800000 ==> predicted_param(a, b).r0_micro == 800000)
            &&& (raw > 3500000 ==> predicted_param(a, b).r0_micro == 3500000)
        }),
{
}

/// Sum of the ionic radii of a pair, in thousandths of an ångström.
pub open spec fn ionic_sum(a: Seq<char>, b: Seq<char>) -> int {
    element_table(atomic_number(a)).ionic_milli as int + element_table(atomic_number(b)).ionic_milli as int
}

/// Sum of the covalent radii of a pair, in thousandths of an ångström.
pub open spec fn covalent_sum(a: Seq<char>, b: Seq<char>) -> int {
    element_table(atomic_number(a)).covalent_milli as int + element_table(atomic_number(b)).covalent_milli as int
}

/// Electronegativity difference of a pair, in hundredths.
pub open spec fn chi_gap(a: Seq<char>, b: Seq<char>) -> int {
    abs_diff(
        element_table(atomic_number(a)).chi_centi as int,
        element_table(atomic_number(b)).chi_centi as int,
    )
}

/// Between two pairs that differ only in their ionic radii, the estimated
/// `R0` grows with the ionic radii by 0.312 Å per ångström, as long as it
/// stays within the clamp; likewise by 0.684 Å per ångström of covalent
/// radius, and it shrinks by 0.032 Å per unit of electronegativity
/// difference.
pub proof fn lemma_predicted_r0_sensitivity(a: Seq<char>, b: Seq<char>, c: Seq<char>, d: Seq<char>)
    requires
        800000 < predicted_param(a, b).r0_micro < 3500000,
        800000 < predicted_param(c, d).r0_micro < 3500000,
    ensures
        predicted_param(c, d).r0_micro - predicted_param(a, b).r0_micro == 684 * (covalent_sum(c, d) - covalent_sum(
            a,
            b,
        )) + 312 * (ionic_sum(c, d) - ionic_sum(a, b)) - 320 * (chi_gap(c, d) - chi_gap(a, b)),
{
    lemma_predicted_r0_regression(a, b);
    lemma_predicted_r0_regression(c, d);
}

/// A pair whose ionic radii are larger, the rest being equal, has an
/// estimated `R0` that is no smaller, and strictly larger unless it is held
/// at a bound of the clamp.
pub proof fn lemma_predicted_r0_grows_with_ionic_radii(a: Seq<char>, b: Seq<char>, c: Seq<char>, d: Seq<char>)
    requires
        covalent_sum(a, b) == covalent_sum(c, d),
        chi_gap(a, b) == chi_gap(c, d),
        ionic_sum(a, b) < ionic_sum(c, d),
    ensures
        predicted_param(a, b).r0_micro <= predicted_param(c, d).r0_micro,
        800000 < predicted_param(a, b).r0_micro < 3500000 ==> predicted_param(a, b).r0_micro
            < predicted_param(c, d).r0_micro,
{
    lemma_predicted_r0_regression(a, b);
    lemma_predicted_r0_regression(c, d);
}

proof fn lemma_lookup_symmetric(a: Seq<char>, b: Seq<char>, n: int)
    ensures
        bv_lookup(a, b, n) == bv_lookup(b, a, n),
    decreases n,
{
    if n > 0 {
        lemma_lookup_symmetric(a, b, n - 1);
    }
}

/// Bond valence parameters do not depend on the order of the two elements,
/// whether they come from the table or from the estimate, and neither do the
/// confidence and uncertainty of the estimate.
pub proof fn lemma_param_symmetric(a: Seq<char>, b: Seq<char>)
    ensures
        bv_param(a, b) == bv_param(b, a),
        experimental_row(a, b) == experimental_row(b, a),
        confidence(a, b) == confidence(b, a),
        uncertainty_milli(a, b) == uncertainty_milli(b, a),
{
    lemma_lookup_symmetric(a, b, bv_row_count());
    assert(predicted_r0(a, b) == predicted_r0(b, a));
    assert(b_estimate(chi_of(a), chi_of(b)) == b_estimate(chi_of(b), chi_of(a)));
}

/// Softness `B` (thousandths) estimated from the bond character. The
/// electronegativities are on the `chi_exact` scale of `ElementData`; the
/// element names do not enter the estimate.
pub fn estimate_b_parameter(elem_a: &str, elem_b: &str, chi_a: u64, chi_b: u64) -> (r: u32)
    ensures
        r == b_estimate(chi_a as int, chi_b as int),
{
    let d = if chi_a >= chi_b { chi_a - chi_b } else { chi_b - chi_a };
    if chi_a < 11529215046068470 || chi_b < 11529215046068470 {
        return 370;
    }
    if d > 1729382256910270464 {
        370
    } else if d > 576460752303423488 {
        350
    } else if chi_a < 2305843009213693952 && chi_b < 2305843009213693952 {
        400
    } else {
        320
    }
}

fn abs_diff_u32(x: u32, y: u32) -> (r: u32)
    ensures
        r == abs_diff(x as int, y as int),
{
    if x >= y { x - y } else { y - x }
}

/// Estimated parameters for a pair that the table lacks.
pub fn predict_param_ml(elem_a: &str, elem_b: &str) -> (r: BVParam)
    ensures
        r == predicted_param(elem_a@, elem_b@),
{
    let ea = element_properties(elem_a);
    let eb = element_properties(elem_b);
    proof {
        lemma_table_bounds(atomic_number(elem_a@));
        lemma_table_bounds(atomic_number(elem_b@));
    }
    let plus: u64 = 684 * (ea.covalent_milli as u64 + eb.covalent_milli as u64)
        + 312 * (ea.ionic_milli as u64 + eb.ionic_milli as u64) + 142000;
    let minus: u64 = 320 * (abs_diff_u32(ea.chi_centi, eb.chi_centi) as u64);
    let r0: u64 = if plus < minus + 800000 {
        800000
    } else if plus - minus > 3500000 {
        3500000
    } else {
        plus - minus
    };
    let b = estimate_b_parameter(elem_a, elem_b, ea.chi_exact, eb.chi_exact);
    BVParam { r0_micro: r0 as u32, b_milli: b, source: ParamSource::Predicted }
}

proof fn lemma_table_bounds(z: int)
    ensures
        element_table(z).covalent_milli <= 3000,
        element_table(z).ionic_milli <= 3000,
        element_table(z).chi_centi <= 400,
        element_table(z).chi_exact <= 4 * chi_unit(),
{
}

/// The elements for which estimates are least reliable: actinides other than
/// Th and U, the unstable Tc, Pm, Po, At, Rn, Fr, Ra, Ac, and the noble gases.
pub open spec fn rare_z(z: int) -> bool {
    ||| 93 <= z <= 103
    ||| z == 43 || z == 61
    ||| 84 <= z <= 89
    ||| z == 2 || z == 10 || z == 18 || z == 36 || z == 54
}

/// Whether `elem` is one of the rare elements (by exact symbol).
pub fn is_rare_element(elem: &str) -> (r: bool)
    ensures
        r == rare_z(atomic_number(elem@)),
{
    let z = get_atomic_number(elem);
    (93 <= z && z <= 103) || z == 43 || z == 61 || (84 <= z && z <= 89) || z == 2 || z == 10 || z == 18
        || z == 36 || z == 54
}

/// Confidence of an estimate, in ten-thousandths: 0.10 when either element has
/// no electronegativity; otherwise 0.90 / 0.85 / 0.70 / 0.55 / 0.35 for an
/// electronegativity difference above 2.0 / above 1.5 / above 1.0 / above 0.5 /
/// at most 0.5, times 0.85 when either element is rare.
pub open spec fn confidence(a: Seq<char>, b: Seq<char>) -> int {
    let ca = chi_of(a);
    let cb = chi_of(b);
    let d = abs_diff(ca, cb);
    if ca < chi_hundredth() || cb < chi_hundredth() {
        1000
    } else {
        let base = if d > 2 * chi_unit() {
            9000int
        } else if d > 3 * chi_unit() / 2 {
            8500int
        } else if d > chi_unit() {
            7000int
        } else if d > chi_unit() / 2 {
            5500int
        } else {
            3500int
        };
        if rare_z(atomic_number(a)) || rare_z(atomic_number(b)) {
            base * 85 / 100
        } else {
            base
        }
    }
}

/// Confidence score of the estimate for the pair, in ten-thousandths.
pub fn prediction_confidence(elem_a: &str, elem_b: &str) -> (r: u32)
    ensures
        r == confidence(elem_a@, elem_b@),
{
    let ea = element_properties(elem_a);
    let eb = element_properties(elem_b);
    proof {
        lemma_table_bounds(atomic_number(elem_a@));
        lemma_table_bounds(atomic_number(elem_b@));
    }
    let ca = ea.chi_exact;
    let cb = eb.chi_exact;
    let d = if ca >= cb { ca - cb } else { cb - ca };
    if ca < 11529215046068470 || cb < 11529215046068470 {
        return 1000;
    }
    let base: u32 = if d > 2305843009213693952 {
        9000
    } else if d > 1729382256910270464 {
        8500
    } else if d > 1152921504606846976 {
        7000
    } else if d > 576460752303423488 {
        5500
    } else {
        3500
    };
    if is_rare_element(elem_a) || is_rare_element(elem_b) {
        base * 85 / 100
    } else {
        base
    }
}

/// Uncertainty of an estimated `R0`: 0.08 Å divided by the confidence (at
/// least 0.1), in thousandths of an ångström, rounded half to even.
pub open spec fn uncertainty_milli(a: Seq<char>, b: Seq<char>) -> int {
    let c = if confidence(a, b) < 1000 { 1000 } else { confidence(a, b) };
    round_half_even(800000, c as nat) as int
}

/// Estimated uncertainty of `R0` for the pair, in thousandths of an ångström.
pub fn prediction_uncertainty_milli(elem_a: &str, elem_b: &str) -> (r: u32)
    ensures
        r == uncertainty_milli(elem_a@, elem_b@),
{
    let c = prediction_confidence(elem_a, elem_b);
    let c = if c < 1000 { 1000 } else { c };
    round_half_even_exec(800000, c as u64) as u32
}

/// The bond character shown in explanations: ionic above an electronegativity
/// difference of 1.5, polar covalent above 0.5, covalent otherwise.
pub open spec fn bond_type(a: Seq<char>, b: Seq<char>) -> Seq<char> {
    let d = abs_diff(chi_of(a), chi_of(b));
    if d > 3 * chi_unit() / 2 {
        "ionic"@
    } else if d > chi_unit() / 2 {
        "polar covalent"@
    } else {
        "covalent"@
    }
}

/// The text of `explain_prediction`.
pub open spec fn explanation(a: Seq<char>, b: Seq<char>) -> Seq<char> {
    let p = predicted_param(a, b);
    "ML Prediction for "@ + a + "-"@ + b + " bond:\nR\u{2080} = "@ + fixed3(round_half_even(p.r0_micro as nat, 1000))
        + " \u{b1} "@ + fixed3(uncertainty_milli(a, b) as nat) + " \u{c5}\nB = "@ + fixed3(p.b_milli as nat)
        + "\nBond character: "@ + bond_type(a, b) + "\nConfidence: "@ + decimal(round_half_even(confidence(a, b) as nat, 100))
        + "%\n\nNote: No experimental data available. Using ML regression based on atomic properties."@
}

/// Human-readable explanation of the estimate for the pair: the estimated
/// `R0` with its uncertainty, `B`, the bond character and the confidence.
pub fn explain_prediction(elem_a: &str, elem_b: &str) -> (r: String)
    ensures
        r@ == explanation(elem_a@, elem_b@),
{
    let conf = prediction_confidence(elem_a, elem_b);
    let unc = prediction_uncertainty_milli(elem_a, elem_b);
    let p = predict_param_ml(elem_a, elem_b);
    let ea = element_properties(elem_a);
    let eb = element_properties(elem_b);
    let d = if ea.chi_exact >= eb.chi_exact { ea.chi_exact - eb.chi_exact } else { eb.chi_exact - ea.chi_exact };
    let bond = if d > 1729382256910270464 {
        "ionic"
    } else if d > 576460752303423488 {
        "polar covalent"
    } else {
        "covalent"
    };
    let mut s = String::new();
    push_str(&mut s, "ML Prediction for ");
    push_str(&mut s, elem_a);
    push_str(&mut s, "-");
    push_str(&mut s, elem_b);
    push_str(&mut s, " bond:\nR\u{2080} = ");
    push_fixed3(&mut s, round_half_even_exec(p.r0_micro as u64, 1000));
    push_str(&mut s, " \u{b1} ");
    push_fixed3(&mut s, unc as u64);
    push_str(&mut s, " \u{c5}\nB = ");
    push_fixed3(&mut s, p.b_milli as u64);
    push_str(&mut s, "\nBond character: ");
    push_str(&mut s, bond);
    push_str(&mut s, "\nConfidence: ");
    push_decimal(&mut s, round_half_even_exec(conf as u64, 100));
    push_str(&mut s, "%\n\nNote: No experimental data available. Using ML regression based on atomic properties.");
    s
}


/// The table holds parameters for the pair `{x, y}`.
pub open spec fn in_table(x: Seq<char>, y: Seq<char>) -> bool {
    exists|i: int| 0 <= i < bv_row_count() && #[trigger] pair_matches(bv_row(i), x, y)
}

pub open spec fn pair_views(v: Seq<(String, String)>) -> Seq<(Seq<char>, Seq<char>)> {
    v.map_values(|p: (String, String)| (p.0@, p.1@))
}

/// The pair of row `row` with its symbols in alphabetical order.
pub open spec fn ordered_pair(row: BvRow) -> (Seq<char>, Seq<char>) {
    let a = symbol_of(row.cat as int);
    let b = symbol_of(row.an as int);
    if lex_lt(a, b) {
        (a, b)
    } else {
        (b, a)
    }
}

fn pair_present(v: &Vec<(String, String)>, a: &Vec<char>, b: &Vec<char>) -> (r: bool)
    ensures
        r == exists|k: int| 0 <= k < v@.len() && #[trigger] pair_views(v@)[k] == (a@, b@),
{
    let mut k: usize = 0;
    while k < v.len()
        invariant
            k <= v.len(),
            forall|j: int| 0 <= j < k ==> #[trigger] pair_views(v@)[j] != (a@, b@),
        decreases v.len() - k,
    {
        let x = chars_of(v[k].0.as_str());
        let y = chars_of(v[k].1.as_str());
        let eq = same_chars(&x, a) && same_chars(&y, b);
        if eq {
            assert(pair_views(v@)[k as int] == (a@, b@));
            return true;
        }
        k = k + 1;
    }
    false
}

/// All pairs the table holds parameters for, each once, with its symbols in
/// alphabetical order.
pub fn get_available_pairs() -> (r: Vec<(String, String)>)
    ensures
        forall|k: int|
            0 <= k < r@.len() ==> in_table(#[trigger] pair_views(r@)[k].0, pair_views(r@)[k].1) && lex_lt(
                pair_views(r@)[k].0,
                pair_views(r@)[k].1,
            ),
        forall|x: Seq<char>, y: Seq<char>|
            in_table(x, y) && lex_lt(x, y) ==> exists|k: int| 0 <= k < r@.len() && #[trigger] pair_views(r@)[k] == (x, y),
        forall|a: int, b: int| 0 <= a < b < r@.len() ==> pair_views(r@)[a] != pair_views(r@)[b],
{
    let mut r: Vec<(String, String)> = Vec::new();
    let mut i: usize = 0;
    while i < 134
        invariant
            i <= bv_row_count(),
            forall|k: int|
                0 <= k < r@.len() ==> in_table(#[trigger] pair_views(r@)[k].0, pair_views(r@)[k].1) && lex_lt(
                    pair_views(r@)[k].0,
                    pair_views(r@)[k].1,
                ),
            forall|j: int|
                0 <= j < i ==> exists|k: int| 0 <= k < r@.len() && #[trigger] pair_views(r@)[k] == ordered_pair(#[trigger] bv_row(j)),
            forall|a: int, b: int| 0 <= a < b < r@.len() ==> pair_views(r@)[a] != pair_views(r@)[b],
        decreases 134 - i,
    {
        let row = bv_row_exec(i);
        proof {
            lemma_row_elements(i as int);
        }
        let sa = element_symbol(row.cat);
        let sb = element_symbol(row.an);
        let ca = chars_of(sa.as_str());
        let cb = chars_of(sb.as_str());
        let a_first = lex_less(&ca, &cb);
        let (lo, hi, slo, shi) = if a_first { (ca, cb, sa, sb) } else { (cb, ca, sb, sa) };
        assert((lo@, hi@) == ordered_pair(row));
        proof {
            assert(pair_matches(bv_row(i as int), lo@, hi@));
            assert(in_table(lo@, hi@));
            if !a_first {
                if symbol_of(row.cat as int) == symbol_of(row.an as int) {
                    crate::elements::lemma_symbols_distinct(row.cat as int, row.an as int);
                }
                lemma_lex_total(symbol_of(row.cat as int), symbol_of(row.an as int));
            }
        }
        if !pair_present(&r, &lo, &hi) {
            let ghost before = pair_views(r@);
            r.push((slo, shi));
            proof {
                assert(pair_views(r@) =~= before.push((lo@, hi@)));
                assert(pair_views(r@)[before.len() as int] == ordered_pair(bv_row(i as int)));
                assert forall|j: int| 0 <= j < i + 1 implies exists|k: int|
                    0 <= k < r@.len() && #[trigger] pair_views(r@)[k] == ordered_pair(#[trigger] bv_row(j)) by {
                    if j < i {
                        let k = choose|k: int| 0 <= k < before.len() && #[trigger] before[k] == ordered_pair(bv_row(j));
                        assert(pair_views(r@)[k] == before[k]);
                    } else {
                        assert(pair_views(r@)[before.len() as int] == ordered_pair(bv_row(j)));
                    }
                }
            }
        }
        i = i + 1;
    }
    proof {
        assert forall|x: Seq<char>, y: Seq<char>| in_table(x, y) && lex_lt(x, y) implies exists|k: int|
            0 <= k < r@.len() && #[trigger] pair_views(r@)[k] == (x, y) by {
            let j = choose|j: int| 0 <= j < bv_row_count() && #[trigger] pair_matches(bv_row(j), x, y);
            let row = bv_row(j);
            lemma_row_elements(j);
            lemma_lex_irreflexive(x);
            if lex_lt(y, x) {
                lemma_lex_transitive(x, y, x);
            }
            assert(ordered_pair(row) == (x, y));
            assert(exists|k: int| 0 <= k < r@.len() && #[trigger] pair_views(r@)[k] == ordered_pair(#[trigger] bv_row(j)));
        }
    }
    r
}

/// `get_param` reports tabulated parameters exactly when
/// `has_experimental_param` holds for the pair, and then gives the table's
/// values; otherwise it gives the estimate.
pub proof fn lemma_param_source(a: Seq<char>, b: Seq<char>)
    ensures
        (bv_param(a, b).source == ParamSource::Experimental) <==> experimental_row(a, b) is Some,
        (bv_param(a, b).source == ParamSource::Predicted) <==> experimental_row(a, b) is None,
        experimental_row(a, b) is None ==> bv_param(a, b) == predicted_param(a, b),
        experimental_row(a, b) matches Some(row) ==> bv_param(a, b).b_milli == row.b_milli,
{
}

/// The estimated softness `B` is one of 0.32, 0.35, 0.37 and 0.40, does not
/// depend on the order of the pair, and is 0.37 when either element has no
/// electronegativity (noble gases, unknown elements) or the bond is ionic.
pub proof fn lemma_b_estimate_range(x: int, y: int)
    requires
        x >= 0,
        y >= 0,
    ensures
        b_estimate(x, y) == b_estimate(y, x),
        b_estimate(x, y) == 320 || b_estimate(x, y) == 350 || b_estimate(x, y) == 370 || b_estimate(x, y) == 400,
        x < chi_hundredth() || y < chi_hundredth() ==> b_estimate(x, y) == 370,
        abs_diff(x, y) > 3 * chi_unit() / 2 ==> b_estimate(x, y) == 370,
        x >= chi_hundredth() && y >= chi_hundredth() && chi_unit() / 2 < abs_diff(x, y) <= 3 * chi_unit() / 2
            ==> b_estimate(x, y) == 350,
{
}

} // verus!
