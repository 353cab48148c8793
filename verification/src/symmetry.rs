use vstd::prelude::*;

use crate::bravais::{system_of, CrystalSystem};

verus! {

/// Space group of a structure: its number, Hermann-Mauguin symbol and crystal
/// system name.
pub struct SymmetryInfo {
    pub number: i32,
    pub symbol: String,
    pub system: String,
}

/// Structures are periodic unless a reader says otherwise.
pub fn default_periodic() -> (r: bool)
    ensures
        r,
{
    true
}

/// The Hermann-Mauguin symbol listed for space group `n` (1 to 230).
pub open spec fn sg_symbol(n: i32) -> Seq<char> {
    match n {
        1 => "P1"@,
        2 => "P-1"@,
        3 => "P121"@,
        4 => "P12_11"@,
        5 => "C121"@,
        6 => "P1m1"@,
        7 => "P1c1"@,
        8 => "C1m1"@,
        9 => "C1c1"@,
        10 => "P12/m1"@,
        11 => "P12_1/m1"@,
        12 => "C12/m1"@,
        13 => "P12/c1"@,
        14 => "P12_1/c1"@,
        15 => "C12/c1"@,
        16 => "P222"@,
        17 => "P222_1"@,
        18 => "P2_12_12"@,
        19 => "P2_12_12_1"@,
        20 => "C222_1"@,
        21 => "C222"@,
        22 => "F222"@,
        23 => "I222"@,
        24 => "I2_12_12_1"@,
        25 => "Pmm2"@,
        26 => "Pmc2_1"@,
        27 => "Pcc2"@,
        28 => "Pma2"@,
        29 => "Pca2_1"@,
        30 => "Pnc2"@,
        31 => "Pmn2_1"@,
        32 => "Pba2"@,
        33 => "Pna2_1"@,
        34 => "Pnn2"@,
        35 => "Cmm2"@,
        36 => "Cmc2_1"@,
        37 => "Ccc2"@,
        38 => "Amm2"@,
        39 => "Aem2"@,
        40 => "Ama2"@,
        41 => "Aea2"@,
        42 => "Fmm2"@,
        43 => "Fdd2"@,
        44 => "Imm2"@,
        45 => "Iba2"@,
        46 => "Ima2"@,
        47 => "Pmmm"@,
        48 => "Pnnn"@,
        49 => "Pccm"@,
        50 => "Pban"@,
        51 => "Pmma"@,
        52 => "Pnna"@,
        53 => "Pmna"@,
        54 => "Pcca"@,
        55 => "Pbam"@,
        56 => "Pccn"@,
        57 => "Pbcm"@,
        58 => "Pnnm"@,
        59 => "Pmmn"@,
        60 => "Pbcn"@,
        61 => "Pbca"@,
        62 => "Pnma"@,
        63 => "Cmcm"@,
        64 => "Cmce"@,
        65 => "Cmmm"@,
        66 => "Cccm"@,
        67 => "Cmme"@,
        68 => "Ccce"@,
        69 => "Fmmm"@,
        70 => "Fddd"@,
        71 => "Immm"@,
        72 => "Ibam"@,
        73 => "Ibca"@,
        74 => "Imma"@,
        75 => "P4"@,
        76 => "P4_1"@,
        77 => "P4_2"@,
        78 => "P4_3"@,
        79 => "I4"@,
        80 => "I4_1"@,
        81 => "P-4"@,
        82 => "I-4"@,
        83 => "P4/m"@,
        84 => "P4_2/m"@,
        85 => "P4/n"@,
        86 => "P4_2/n"@,
        87 => "I4/m"@,
        88 => "I4_1/a"@,
        89 => "P422"@,
        90 => "P42_12"@,
        91 => "P4_122"@,
        92 => "P4_12_12"@,
        93 => "P4_222"@,
        94 => "P4_22_12"@,
        95 => "P4_322"@,
        96 => "P4_32_12"@,
        97 => "I422"@,
        98 => "I4_122"@,
        99 => "P4mm"@,
        100 => "P4bm"@,
        101 => "P4_2cm"@,
        102 => "P4_2nm"@,
        103 => "P4cc"@,
        104 => "P4nc"@,
        105 => "P4_2mc"@,
        106 => "P4_2bc"@,
        107 => "I4mm"@,
        108 => "I4cm"@,
        109 => "I4_1md"@,
        110 => "I4_1cd"@,
        111 => "P-42m"@,
        112 => "P42c"@,
        113 => "P-42_1m"@,
        114 => "P-42_1c"@,
        115 => "P-4m2"@,
        116 => "P-4c2"@,
        117 => "P-4b2"@,
        118 => "P-4n2"@,
        119 => "I-4m2"@,
        120 => "I-4c2"@,
        121 => "I-42m"@,
        122 => "I-42d"@,
        123 => "P4/mmm"@,
        124 => "P4/mcc"@,
        125 => "P4/nbm"@,
        126 => "P4/nnc"@,
        127 => "P4/mbm"@,
        128 => "P4/mnc"@,
        129 => "P4/nmm"@,
        130 => "P4/ncc"@,
        131 => "P4_2/mmc"@,
        132 => "P4_2/mcm"@,
        133 => "P4_2/nbc"@,
        134 => "P4_2/nnm"@,
        135 => "P4_2/mbc"@,
        136 => "P4_2/mnm"@,
        137 => "P4_2/nmc"@,
        138 => "P4_2/ncm"@,
        139 => "I4/mmm"@,
        140 => "I4/mcm"@,
        141 => "I4_1/amd"@,
        142 => "I4_1/acd"@,
        143 => "P3"@,
        144 => "P3_1"@,
        145 => "P3_2"@,
        146 => "R3"@,
        147 => "P-3"@,
        148 => "R-3"@,
        149 => "P312"@,
        150 => "P321"@,
        151 => "P3_112"@,
        152 => "P3_121"@,
        153 => "P3_212"@,
        154 => "P3_221"@,
        155 => "R32"@,
        156 => "P3m1"@,
        157 => "P31m"@,
        158 => "P3c1"@,
        159 => "P31c"@,
        160 => "R3m"@,
        161 => "R3c"@,
        162 => "P-31m"@,
        163 => "P-31c"@,
        164 => "P-3m1"@,
        165 => "P-3c1"@,
        166 => "R-3m"@,
        167 => "R-3c"@,
        168 => "P6"@,
        169 => "P6_1"@,
        170 => "P6_5"@,
        171 => "P6_2"@,
        172 => "P6_4"@,
        173 => "P6_3"@,
        174 => "P-6"@,
        175 => "P6/m"@,
        176 => "P6_3/m"@,
        177 => "P622"@,
        178 => "P6_122"@,
        179 => "P6_522"@,
        180 => "P6_222"@,
        181 => "P6_422"@,
        182 => "P6_322"@,
        183 => "P6mm"@,
        184 => "P6cc"@,
        185 => "P6_3cm"@,
        186 => "P6_3mc"@,
        187 => "P-6m2"@,
        188 => "P-6c2"@,
        189 => "P-62m"@,
        190 => "P-62c"@,
        191 => "P6/mmm"@,
        192 => "P6/mcc"@,
        193 => "P6_3/mcm"@,
        194 => "P6_3/mmc"@,
        195 => "P23"@,
        196 => "F23"@,
        197 => "I23"@,
        198 => "P2_13"@,
        199 => "I2_13"@,
        200 => "Pm-3"@,
        201 => "Pn-3"@,
        202 => "Fm-3"@,
        203 => "Fd-3"@,
        204 => "Im-3"@,
        205 => "Pa-3"@,
        206 => "Ia-3"@,
        207 => "P432"@,
        208 => "P4_232"@,
        209 => "F432"@,
        210 => "F4_132"@,
        211 => "I432"@,
        212 => "P4_332"@,
        213 => "P4_132"@,
        214 => "I4_132"@,
        215 => "P4_132"@,
        216 => "P-43m"@,
        217 => "F-43m"@,
        218 => "I-43m"@,
        219 => "P-43n"@,
        220 => "F-43c"@,
        221 => "I-43d"@,
        222 => "Pm-3m"@,
        223 => "Pn-3n"@,
        224 => "Pm-3n"@,
        225 => "Pn-3m"@,
        226 => "Fm-3m"@,
        227 => "Fm-3c"@,
        228 => "Fd-3m"@,
        229 => "Fd-3c"@,
        230 => "Im-3m"@,
        _ => "Unknown"@,
    }
}

/// The crystal system name of space group `n`.
pub open spec fn system_name(n: int) -> Seq<char> {
    if 1 <= n <= 2 {
        "Triclinic"@
    } else if 3 <= n <= 15 {
        "Monoclinic"@
    } else if 16 <= n <= 74 {
        "Orthorhombic"@
    } else if 75 <= n <= 142 {
        "Tetragonal"@
    } else if 143 <= n <= 167 {
        "Trigonal"@
    } else if 168 <= n <= 194 {
        "Hexagonal"@
    } else if 195 <= n <= 230 {
        "Cubic"@
    } else {
        "Unknown"@
    }
}

fn symbol_text(n: i32) -> (r: &'static str)
    ensures
        r@ == sg_symbol(n),
{
    match n {
        1 => "P1",
        2 => "P-1",
        3 => "P121",
        4 => "P12_11",
        5 => "C121",
        6 => "P1m1",
        7 => "P1c1",
        8 => "C1m1",
        9 => "C1c1",
        10 => "P12/m1",
        11 => "P12_1/m1",
        12 => "C12/m1",
        13 => "P12/c1",
        14 => "P12_1/c1",
        15 => "C12/c1",
        16 => "P222",
        17 => "P222_1",
        18 => "P2_12_12",
        19 => "P2_12_12_1",
        20 => "C222_1",
        21 => "C222",
        22 => "F222",
        23 => "I222",
        24 => "I2_12_12_1",
        25 => "Pmm2",
        26 => "Pmc2_1",
        27 => "Pcc2",
        28 => "Pma2",
        29 => "Pca2_1",
        30 => "Pnc2",
        31 => "Pmn2_1",
        32 => "Pba2",
        33 => "Pna2_1",
        34 => "Pnn2",
        35 => "Cmm2",
        36 => "Cmc2_1",
        37 => "Ccc2",
        38 => "Amm2",
        39 => "Aem2",
        40 => "Ama2",
        41 => "Aea2",
        42 => "Fmm2",
        43 => "Fdd2",
        44 => "Imm2",
        45 => "Iba2",
        46 => "Ima2",
        47 => "Pmmm",
        48 => "Pnnn",
        49 => "Pccm",
        50 => "Pban",
        51 => "Pmma",
        52 => "Pnna",
        53 => "Pmna",
        54 => "Pcca",
        55 => "Pbam",
        56 => "Pccn",
        57 => "Pbcm",
        58 => "Pnnm",
        59 => "Pmmn",
        60 => "Pbcn",
        61 => "Pbca",
        62 => "Pnma",
        63 => "Cmcm",
        64 => "Cmce",
        65 => "Cmmm",
        66 => "Cccm",
        67 => "Cmme",
        68 => "Ccce",
        69 => "Fmmm",
        70 => "Fddd",
        71 => "Immm",
        72 => "Ibam",
        73 => "Ibca",
        74 => "Imma",
        75 => "P4",
        76 => "P4_1",
        77 => "P4_2",
        78 => "P4_3",
        79 => "I4",
        80 => "I4_1",
        81 => "P-4",
        82 => "I-4",
        83 => "P4/m",
        84 => "P4_2/m",
        85 => "P4/n",
        86 => "P4_2/n",
        87 => "I4/m",
        88 => "I4_1/a",
        89 => "P422",
        90 => "P42_12",
        91 => "P4_122",
        92 => "P4_12_12",
        93 => "P4_222",
        94 => "P4_22_12",
        95 => "P4_322",
        96 => "P4_32_12",
        97 => "I422",
        98 => "I4_122",
        99 => "P4mm",
        100 => "P4bm",
        101 => "P4_2cm",
        102 => "P4_2nm",
        103 => "P4cc",
        104 => "P4nc",
        105 => "P4_2mc",
        106 => "P4_2bc",
        107 => "I4mm",
        108 => "I4cm",
        109 => "I4_1md",
        110 => "I4_1cd",
        111 => "P-42m",
        112 => "P42c",
        113 => "P-42_1m",
        114 => "P-42_1c",
        115 => "P-4m2",
        116 => "P-4c2",
        117 => "P-4b2",
        118 => "P-4n2",
        119 => "I-4m2",
        120 => "I-4c2",
        121 => "I-42m",
        122 => "I-42d",
        123 => "P4/mmm",
        124 => "P4/mcc",
        125 => "P4/nbm",
        126 => "P4/nnc",
        127 => "P4/mbm",
        128 => "P4/mnc",
        129 => "P4/nmm",
        130 => "P4/ncc",
        131 => "P4_2/mmc",
        132 => "P4_2/mcm",
        133 => "P4_2/nbc",
        134 => "P4_2/nnm",
        135 => "P4_2/mbc",
        136 => "P4_2/mnm",
        137 => "P4_2/nmc",
        138 => "P4_2/ncm",
        139 => "I4/mmm",
        140 => "I4/mcm",
        141 => "I4_1/amd",
        142 => "I4_1/acd",
        143 => "P3",
        144 => "P3_1",
        145 => "P3_2",
        146 => "R3",
        147 => "P-3",
        148 => "R-3",
        149 => "P312",
        150 => "P321",
        151 => "P3_112",
        152 => "P3_121",
        153 => "P3_212",
        154 => "P3_221",
        155 => "R32",
        156 => "P3m1",
        157 => "P31m",
        158 => "P3c1",
        159 => "P31c",
        160 => "R3m",
        161 => "R3c",
        162 => "P-31m",
        163 => "P-31c",
        164 => "P-3m1",
        165 => "P-3c1",
        166 => "R-3m",
        167 => "R-3c",
        168 => "P6",
        169 => "P6_1",
        170 => "P6_5",
        171 => "P6_2",
        172 => "P6_4",
        173 => "P6_3",
        174 => "P-6",
        175 => "P6/m",
        176 => "P6_3/m",
        177 => "P622",
        178 => "P6_122",
        179 => "P6_522",
        180 => "P6_222",
        181 => "P6_422",
        182 => "P6_322",
        183 => "P6mm",
        184 => "P6cc",
        185 => "P6_3cm",
        186 => "P6_3mc",
        187 => "P-6m2",
        188 => "P-6c2",
        189 => "P-62m",
        190 => "P-62c",
        191 => "P6/mmm",
        192 => "P6/mcc",
        193 => "P6_3/mcm",
        194 => "P6_3/mmc",
        195 => "P23",
        196 => "F23",
        197 => "I23",
        198 => "P2_13",
        199 => "I2_13",
        200 => "Pm-3",
        201 => "Pn-3",
        202 => "Fm-3",
        203 => "Fd-3",
        204 => "Im-3",
        205 => "Pa-3",
        206 => "Ia-3",
        207 => "P432",
        208 => "P4_232",
        209 => "F432",
        210 => "F4_132",
        211 => "I432",
        212 => "P4_332",
        213 => "P4_132",
        214 => "I4_132",
        215 => "P4_132",
        216 => "P-43m",
        217 => "F-43m",
        218 => "I-43m",
        219 => "P-43n",
        220 => "F-43c",
        221 => "I-43d",
        222 => "Pm-3m",
        223 => "Pn-3n",
        224 => "Pm-3n",
        225 => "Pn-3m",
        226 => "Fm-3m",
        227 => "Fm-3c",
        228 => "Fd-3m",
        229 => "Fd-3c",
        230 => "Im-3m",
        _ => "Unknown",
    }
}

fn system_text(n: i32) -> (r: &'static str)
    ensures
        r@ == system_name(n as int),
{
    if 1 <= n && n <= 2 {
        "Triclinic"
    } else if 3 <= n && n <= 15 {
        "Monoclinic"
    } else if 16 <= n && n <= 74 {
        "Orthorhombic"
    } else if 75 <= n && n <= 142 {
        "Tetragonal"
    } else if 143 <= n && n <= 167 {
        "Trigonal"
    } else if 168 <= n && n <= 194 {
        "Hexagonal"
    } else if 195 <= n && n <= 230 {
        "Cubic"
    } else {
        "Unknown"
    }
}

/// The symmetry report for a structure whose space group the search found to
/// be number `number`.
pub fn symmetry_info(number: i32) -> (r: SymmetryInfo)
    ensures
        r.number == number,
        r.symbol@ == sg_symbol(number),
        r.system@ == system_name(number as int),
{
    SymmetryInfo {
        number,
        symbol: String::from_str(symbol_text(number)),
        system: String::from_str(system_text(number)),
    }
}

/// The English name of a crystal system.
pub open spec fn system_label(c: CrystalSystem) -> Seq<char> {
    match c {
        CrystalSystem::Triclinic => "Triclinic"@,
        CrystalSystem::Monoclinic => "Monoclinic"@,
        CrystalSystem::Orthorhombic => "Orthorhombic"@,
        CrystalSystem::Tetragonal => "Tetragonal"@,
        CrystalSystem::Trigonal => "Trigonal"@,
        CrystalSystem::Hexagonal => "Hexagonal"@,
        CrystalSystem::Cubic => "Cubic"@,
    }
}

/// The crystal system a symmetry report names for a space group is the one
/// the Bravais classification uses for it; numbers outside 1 to 230 are
/// reported as unknown.
pub proof fn lemma_system_matches_classification(n: int)
    ensures
        1 <= n <= 230 ==> system_name(n) == system_label(system_of(n)),
        !(1 <= n <= 230) ==> system_name(n) == "Unknown"@,
{
}

} // verus!
