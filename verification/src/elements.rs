use vstd::prelude::*;

use crate::text::chars_of;

verus! {

/// Tabulated properties of a chemical element, held as exact integers.
///
/// Lengths are in thousandths of an ångström, the Pauling electronegativity
/// in hundredths, colour channels in hundredths, and the Cromer-Mann
/// coefficients `a1, b1, a2, b2, a3, b3, a4, b4, c` in millionths.
/// `chi_exact` is the electronegativity once more, as the `f64` nearest to
/// the tabulated decimal, scaled by 2^60: comparisons of electronegativity
/// differences against fixed thresholds are decided on these values.
///
/// Sources: Cromer-Mann, Int. Tab. Cryst. Vol C, Table 6.1.1.4 (1992);
/// ionic radii, Shannon, Acta Cryst. A 32, 751 (1976); van der Waals radii,
/// Alvarez, Dalton Trans. 42, 8617 (2013); covalent radii, Cordero et al.,
/// Dalton Trans. 2832 (2008); electronegativity, Pauling scale; colours from
/// the Material Design palette adapted for CPK distinctness.
#[derive(Clone, Copy)]
pub struct ElementData {
    pub covalent_milli: u32,
    pub ionic_milli: u32,
    pub vdw_milli: u32,
    pub chi_centi: u32,
    pub chi_exact: u64,
    pub rgb_centi: (u32, u32, u32),
    pub cromer_mann_micro: [i64; 9],
}

/// The symbol of element `z` (1 to 103), packed as `first * 256 + second`
/// with `second` zero for one-letter symbols; 0 for any other `z`.
pub open spec fn symbol_code(z: int) -> int {
    if z == 1 {
        18432
    } else if z == 2 {
        18533
    } else if z == 3 {
        19561
    } else if z == 4 {
        16997
    } else if z == 5 {
        16896
    } else if z == 6 {
        17152
    } else if z == 7 {
        19968
    } else if z == 8 {
        20224
    } else if z == 9 {
        17920
    } else if z == 10 {
        20069
    } else if z == 11 {
        20065
    } else if z == 12 {
        19815
    } else if z == 13 {
        16748
    } else if z == 14 {
        21353
    } else if z == 15 {
        20480
    } else if z == 16 {
        21248
    } else if z == 17 {
        17260
    } else if z == 18 {
        16754
    } else if z == 19 {
        19200
    } else if z == 20 {
        17249
    } else if z == 21 {
        21347
    } else if z == 22 {
        21609
    } else if z == 23 {
        22016
    } else if z == 24 {
        17266
    } else if z == 25 {
        19822
    } else if z == 26 {
        18021
    } else if z == 27 {
        17263
    } else if z == 28 {
        20073
    } else if z == 29 {
        17269
    } else if z == 30 {
        23150
    } else if z == 31 {
        18273
    } else if z == 32 {
        18277
    } else if z == 33 {
        16755
    } else if z == 34 {
        21349
    } else if z == 35 {
        17010
    } else if z == 36 {
        19314
    } else if z == 37 {
        21090
    } else if z == 38 {
        21362
    } else if z == 39 {
        22784
    } else if z == 40 {
        23154
    } else if z == 41 {
        20066
    } else if z == 42 {
        19823
    } else if z == 43 {
        21603
    } else if z == 44 {
        21109
    } else if z == 45 {
        21096
    } else if z == 46 {
        20580
    } else if z == 47 {
        16743
    } else if z == 48 {
        17252
    } else if z == 49 {
        18798
    } else if z == 50 {
        21358
    } else if z == 51 {
        21346
    } else if z == 52 {
        21605
    } else if z == 53 {
        18688
    } else if z == 54 {
        22629
    } else if z == 55 {
        17267
    } else if z == 56 {
        16993
    } else if z == 57 {
        19553
    } else if z == 58 {
        17253
    } else if z == 59 {
        20594
    } else if z == 60 {
        20068
    } else if z == 61 {
        20589
    } else if z == 62 {
        21357
    } else if z == 63 {
        17781
    } else if z == 64 {
        18276
    } else if z == 65 {
        21602
    } else if z == 66 {
        17529
    } else if z == 67 {
        18543
    } else if z == 68 {
        17778
    } else if z == 69 {
        21613
    } else if z == 70 {
        22882
    } else if z == 71 {
        19573
    } else if z == 72 {
        18534
    } else if z == 73 {
        21601
    } else if z == 74 {
        22272
    } else if z == 75 {
        21093
    } else if z == 76 {
        20339
    } else if z == 77 {
        18802
    } else if z == 78 {
        20596
    } else if z == 79 {
        16757
    } else if z == 80 {
        18535
    } else if z == 81 {
        21612
    } else if z == 82 {
        20578
    } else if z == 83 {
        17001
    } else if z == 84 {
        20591
    } else if z == 85 {
        16756
    } else if z == 86 {
        21102
    } else if z == 87 {
        18034
    } else if z == 88 {
        21089
    } else if z == 89 {
        16739
    } else if z == 90 {
        21608
    } else if z == 91 {
        20577
    } else if z == 92 {
        21760
    } else if z == 93 {
        20080
    } else if z == 94 {
        20597
    } else if z == 95 {
        16749
    } else if z == 96 {
        17261
    } else if z == 97 {
        17003
    } else if z == 98 {
        17254
    } else if z == 99 {
        17779
    } else if z == 100 {
        18029
    } else if z == 101 {
        19812
    } else if z == 102 {
        20079
    } else if z == 103 {
        19570
    } else {
        0
    }
}

/// The element whose packed symbol is `c`, or 0.
pub open spec fn z_of_code(c: int) -> int {
    if c == 18432 {
        1
    } else if c == 18533 {
        2
    } else if c == 19561 {
        3
    } else if c == 16997 {
        4
    } else if c == 16896 {
        5
    } else if c == 17152 {
        6
    } else if c == 19968 {
        7
    } else if c == 20224 {
        8
    } else if c == 17920 {
        9
    } else if c == 20069 {
        10
    } else if c == 20065 {
        11
    } else if c == 19815 {
        12
    } else if c == 16748 {
        13
    } else if c == 21353 {
        14
    } else if c == 20480 {
        15
    } else if c == 21248 {
        16
    } else if c == 17260 {
        17
    } else if c == 16754 {
        18
    } else if c == 19200 {
        19
    } else if c == 17249 {
        20
    } else if c == 21347 {
        21
    } else if c == 21609 {
        22
    } else if c == 22016 {
        23
    } else if c == 17266 {
        24
    } else if c == 19822 {
        25
    } else if c == 18021 {
        26
    } else if c == 17263 {
        27
    } else if c == 20073 {
        28
    } else if c == 17269 {
        29
    } else if c == 23150 {
        30
    } else if c == 18273 {
        31
    } else if c == 18277 {
        32
    } else if c == 16755 {
        33
    } else if c == 21349 {
        34
    } else if c == 17010 {
        35
    } else if c == 19314 {
        36
    } else if c == 21090 {
        37
    } else if c == 21362 {
        38
    } else if c == 22784 {
        39
    } else if c == 23154 {
        40
    } else if c == 20066 {
        41
    } else if c == 19823 {
        42
    } else if c == 21603 {
        43
    } else if c == 21109 {
        44
    } else if c == 21096 {
        45
    } else if c == 20580 {
        46
    } else if c == 16743 {
        47
    } else if c == 17252 {
        48
    } else if c == 18798 {
        49
    } else if c == 21358 {
        50
    } else if c == 21346 {
        51
    } else if c == 21605 {
        52
    } else if c == 18688 {
        53
    } else if c == 22629 {
        54
    } else if c == 17267 {
        55
    } else if c == 16993 {
        56
    } else if c == 19553 {
        57
    } else if c == 17253 {
        58
    } else if c == 20594 {
        59
    } else if c == 20068 {
        60
    } else if c == 20589 {
        61
    } else if c == 21357 {
        62
    } else if c == 17781 {
        63
    } else if c == 18276 {
        64
    } else if c == 21602 {
        65
    } else if c == 17529 {
        66
    } else if c == 18543 {
        67
    } else if c == 17778 {
        68
    } else if c == 21613 {
        69
    } else if c == 22882 {
        70
    } else if c == 19573 {
        71
    } else if c == 18534 {
        72
    } else if c == 21601 {
        73
    } else if c == 22272 {
        74
    } else if c == 21093 {
        75
    } else if c == 20339 {
        76
    } else if c == 18802 {
        77
    } else if c == 20596 {
        78
    } else if c == 16757 {
        79
    } else if c == 18535 {
        80
    } else if c == 21612 {
        81
    } else if c == 20578 {
        82
    } else if c == 17001 {
        83
    } else if c == 20591 {
        84
    } else if c == 16756 {
        85
    } else if c == 21102 {
        86
    } else if c == 18034 {
        87
    } else if c == 21089 {
        88
    } else if c == 16739 {
        89
    } else if c == 21608 {
        90
    } else if c == 20577 {
        91
    } else if c == 21760 {
        92
    } else if c == 20080 {
        93
    } else if c == 20597 {
        94
    } else if c == 16749 {
        95
    } else if c == 17261 {
        96
    } else if c == 17003 {
        97
    } else if c == 17254 {
        98
    } else if c == 17779 {
        99
    } else if c == 18029 {
        100
    } else if c == 19812 {
        101
    } else if c == 20079 {
        102
    } else if c == 19570 {
        103
    } else {
        0
    }
}

/// The characters of a packed symbol.
pub open spec fn chars_of_code(c: int) -> Seq<char> {
    if c % 256 == 0 {
        seq![(c / 256) as char]
    } else {
        seq![(c / 256) as char, (c % 256) as char]
    }
}

/// The chemical symbol of element `z`, for `1 <= z <= 103`.
pub open spec fn symbol_of(z: int) -> Seq<char> {
    chars_of_code(symbol_code(z))
}

/// The atomic number of the element with symbol `s`; 0 when no element of the
/// table has that symbol (symbols are case-sensitive).
pub open spec fn atomic_number(s: Seq<char>) -> int {
    if exists|z: int| 1 <= z <= 103 && symbol_of(z) == s {
        choose|z: int| 1 <= z <= 103 && symbol_of(z) == s
    } else {
        0
    }
}

/// Properties of element `z`; the row of an unknown element for any `z`
/// outside 1..=103.
pub open spec fn element_table(z: int) -> ElementData {
    if z == 1 {
        ElementData { covalent_milli: 370, ionic_milli: 600, vdw_milli: 1200, chi_centi: 220, chi_exact: 2536427310135063552, rgb_centi: (76, 88, 62), cromer_mann_micro: [493002, 10510900, 322912, 26125700, 140191, 3142360, 40810, 57799700, 3038] }
    } else if z == 2 {
        ElementData { covalent_milli: 320, ionic_milli: 0, vdw_milli: 1400, chi_centi: 0, chi_exact: 0, rgb_centi: (70, 89, 96), cromer_mann_micro: [873400, 9103700, 630900, 3356800, 311200, 22927600, 178000, 982100, 6400] }
    } else if z == 3 {
        ElementData { covalent_milli: 1340, ionic_milli: 760, vdw_milli: 1820, chi_centi: 98, chi_exact: 1129863074514710016, rgb_centi: (94, 33, 31), cromer_mann_micro: [1128200, 3954600, 750800, 1052400, 617500, 85390500, 465300, 168261000, 37700] }
    } else if z == 4 {
        ElementData { covalent_milli: 900, ionic_milli: 450, vdw_milli: 1530, chi_centi: 157, chi_exact: 1810086762232749824, rgb_centi: (100, 70, 35), cromer_mann_micro: [1591900, 43642700, 1127800, 1862300, 539100, 103483000, 702900, 542000, 38500] }
    } else if z == 5 {
        ElementData { covalent_milli: 820, ionic_milli: 270, vdw_milli: 1920, chi_centi: 204, chi_exact: 2351959869397967872, rgb_centi: (30, 69, 60), cromer_mann_micro: [2054500, 23218500, 1332600, 1021000, 1097900, 60349800, 706800, 140300, -193200i64] }
    } else if z == 6 {
        ElementData { covalent_milli: 770, ionic_milli: 160, vdw_milli: 1700, chi_centi: 255, chi_exact: 2939949836747459584, rgb_centi: (56, 76, 29), cromer_mann_micro: [2310000, 20843900, 1020000, 10207500, 1588600, 568700, 865000, 51651200, 215600] }
    } else if z == 7 {
        ElementData { covalent_milli: 750, ionic_milli: 130, vdw_milli: 1550, chi_centi: 304, chi_exact: 3504881374004814848, rgb_centi: (41, 73, 39), cromer_mann_micro: [12212600, 5700, 3132200, 9893300, 2012500, 28997500, 1166300, 582600, -11529000i64] }
    } else if z == 8 {
        ElementData { covalent_milli: 730, ionic_milli: 1400, vdw_milli: 1520, chi_centi: 344, chi_exact: 3966049975847553536, rgb_centi: (30, 69, 31), cromer_mann_micro: [3048500, 13277100, 2286800, 5701100, 1546300, 323900, 867000, 32908900, 250800] }
    } else if z == 9 {
        ElementData { covalent_milli: 710, ionic_milli: 1330, vdw_milli: 1470, chi_centi: 398, chi_exact: 4588627588335250944, rgb_centi: (51, 78, 33), cromer_mann_micro: [3539200, 10282500, 2641200, 4294400, 1517000, 261500, 1024300, 26147600, 277600] }
    } else if z == 10 {
        ElementData { covalent_milli: 690, ionic_milli: 0, vdw_milli: 1540, chi_centi: 0, chi_exact: 0, rgb_centi: (38, 80, 85), cromer_mann_micro: [3955300, 8404200, 3112500, 3426200, 1454600, 230600, 1125100, 21718400, 351500] }
    } else if z == 11 {
        ElementData { covalent_milli: 1540, ionic_milli: 1020, vdw_milli: 2270, chi_centi: 93, chi_exact: 1072216999284367744, rgb_centi: (92, 26, 21), cromer_mann_micro: [4762600, 3285000, 3173600, 8842200, 1267400, 313600, 1112800, 129424000, 676000] }
    } else if z == 12 {
        ElementData { covalent_milli: 1300, ionic_milli: 720, vdw_milli: 1730, chi_centi: 131, chi_exact: 1510327171034969600, rgb_centi: (100, 60, 20), cromer_mann_micro: [5420400, 2827500, 2173500, 79261100, 1226900, 380800, 2307300, 7193700, 858400] }
    } else if z == 13 {
        ElementData { covalent_milli: 1180, ionic_milli: 540, vdw_milli: 1840, chi_centi: 161, chi_exact: 1856203622417023744, rgb_centi: (33, 59, 82), cromer_mann_micro: [6420200, 3038700, 1900200, 742600, 1593600, 31547200, 1964600, 85088600, 1115100] }
    } else if z == 14 {
        ElementData { covalent_milli: 1110, ionic_milli: 400, vdw_milli: 2100, chi_centi: 190, chi_exact: 2190550858753009152, rgb_centi: (30, 69, 60), cromer_mann_micro: [6291500, 2438600, 3035300, 32333000, 1989100, 678500, 1541000, 81693700, 1140700] }
    } else if z == 15 {
        ElementData { covalent_milli: 1060, ionic_milli: 380, vdw_milli: 1800, chi_centi: 219, chi_exact: 2524898095088994816, rgb_centi: (56, 76, 29), cromer_mann_micro: [6434500, 1906700, 4179100, 27157000, 1780000, 526000, 1490800, 68164500, 1114900] }
    } else if z == 16 {
        ElementData { covalent_milli: 1020, ionic_milli: 1840, vdw_milli: 1800, chi_centi: 258, chi_exact: 2974537481885665280, rgb_centi: (69, 82, 24), cromer_mann_micro: [6905300, 1467900, 5203400, 22215100, 1437900, 253600, 1586300, 56172000, 866900] }
    } else if z == 17 {
        ElementData { covalent_milli: 990, ionic_milli: 1810, vdw_milli: 1750, chi_centi: 316, chi_exact: 3643231954557636608, rgb_centi: (51, 78, 33), cromer_mann_micro: [11460400, 10400, 7196400, 1166200, 6255600, 18519400, 1645500, 47778400, -9557400i64] }
    } else if z == 18 {
        ElementData { covalent_milli: 970, ionic_milli: 0, vdw_milli: 1880, chi_centi: 0, chi_exact: 0, rgb_centi: (18, 75, 83), cromer_mann_micro: [7484500, 907200, 6772300, 14840700, 653900, 43898300, 1644200, 33392900, 1444500] }
    } else if z == 19 {
        ElementData { covalent_milli: 1960, ionic_milli: 1380, vdw_milli: 2750, chi_centi: 82, chi_exact: 945395633777614464, rgb_centi: (85, 20, 19), cromer_mann_micro: [8218600, 12794900, 7439800, 774800, 1051900, 213187000, 865900, 41684100, 1422800] }
    } else if z == 20 {
        ElementData { covalent_milli: 1740, ionic_milli: 1000, vdw_milli: 2310, chi_centi: 100, chi_exact: 1152921504606846976, rgb_centi: (96, 55, 19), cromer_mann_micro: [8626600, 10442100, 7387300, 659900, 1589900, 85748400, 1021100, 178437000, 1375100] }
    } else if z == 21 {
        ElementData { covalent_milli: 1440, ionic_milli: 745, vdw_milli: 2300, chi_centi: 136, chi_exact: 1567973246265312000, rgb_centi: (47, 53, 60), cromer_mann_micro: [9189000, 9021300, 7367900, 572900, 1640900, 136108000, 1468000, 51353100, 1332900] }
    } else if z == 22 {
        ElementData { covalent_milli: 1360, ionic_milli: 605, vdw_milli: 2150, chi_centi: 154, chi_exact: 1775499117094544384, rgb_centi: (55, 61, 67), cromer_mann_micro: [9759500, 7850800, 7355800, 500000, 1699100, 35633800, 1902100, 116105000, 1280700] }
    } else if z == 23 {
        ElementData { covalent_milli: 1250, ionic_milli: 590, vdw_milli: 2050, chi_centi: 163, chi_exact: 1879262052509160448, rgb_centi: (38, 45, 53), cromer_mann_micro: [10297100, 6865700, 7351100, 438500, 2070300, 26893800, 2057100, 102478000, 1219900] }
    } else if z == 24 {
        ElementData { covalent_milli: 1270, ionic_milli: 615, vdw_milli: 2050, chi_centi: 166, chi_exact: 1913849697647365888, rgb_centi: (33, 39, 45), cromer_mann_micro: [10640600, 6103800, 7353700, 392000, 3324000, 20262600, 1492200, 98739900, 1183200] }
    } else if z == 25 {
        ElementData { covalent_milli: 1390, ionic_milli: 830, vdw_milli: 2050, chi_centi: 155, chi_exact: 1787028332140612864, rgb_centi: (26, 32, 36), cromer_mann_micro: [11281900, 5340900, 7357300, 343200, 3019300, 17867400, 2244100, 83754300, 1089600] }
    } else if z == 26 {
        ElementData { covalent_milli: 1250, ionic_milli: 780, vdw_milli: 2000, chi_centi: 183, chi_exact: 2109846353430530048, rgb_centi: (21, 27, 31), cromer_mann_micro: [11769500, 4761100, 7357300, 307200, 3522200, 15353500, 2304500, 76880500, 1036900] }
    } else if z == 27 {
        ElementData { covalent_milli: 1260, ionic_milli: 745, vdw_milli: 2000, chi_centi: 188, chi_exact: 2167492428660872192, rgb_centi: (38, 45, 53), cromer_mann_micro: [12284100, 4279100, 7340900, 278400, 4003400, 13535900, 2348800, 71169200, 1011800] }
    } else if z == 28 {
        ElementData { covalent_milli: 1210, ionic_milli: 690, vdw_milli: 1970, chi_centi: 191, chi_exact: 2202080073799077632, rgb_centi: (47, 53, 60), cromer_mann_micro: [12837600, 3878500, 7292000, 256500, 4443800, 12176300, 2380000, 66342100, 1034100] }
    } else if z == 29 {
        ElementData { covalent_milli: 1380, ionic_milli: 730, vdw_milli: 1960, chi_centi: 190, chi_exact: 2190550858753009152, rgb_centi: (55, 61, 67), cromer_mann_micro: [13338000, 3582800, 7167600, 247000, 5615800, 11396600, 1673500, 64812600, 1191000] }
    } else if z == 30 {
        ElementData { covalent_milli: 1310, ionic_milli: 740, vdw_milli: 2010, chi_centi: 165, chi_exact: 1902320482601297408, rgb_centi: (69, 75, 78), cromer_mann_micro: [14074300, 3265500, 7031800, 233300, 5165200, 10316300, 2410000, 58709700, 1304100] }
    } else if z == 31 {
        ElementData { covalent_milli: 1260, ionic_milli: 620, vdw_milli: 1870, chi_centi: 181, chi_exact: 2086787923338393088, rgb_centi: (33, 59, 82), cromer_mann_micro: [15235400, 3066900, 6700600, 241200, 4359100, 10780500, 2962300, 61413500, 1718900] }
    } else if z == 32 {
        ElementData { covalent_milli: 1220, ionic_milli: 530, vdw_milli: 2110, chi_centi: 201, chi_exact: 2317372224259762176, rgb_centi: (30, 69, 60), cromer_mann_micro: [16081600, 2850900, 6374700, 251600, 3706800, 11446800, 3683000, 54762500, 2131300] }
    } else if z == 33 {
        ElementData { covalent_milli: 1190, ionic_milli: 580, vdw_milli: 1850, chi_centi: 218, chi_exact: 2513368880042926592, rgb_centi: (30, 69, 60), cromer_mann_micro: [16672300, 2634500, 6070100, 264700, 3431300, 12947900, 4277900, 47797200, 2531000] }
    } else if z == 34 {
        ElementData { covalent_milli: 1160, ionic_milli: 1980, vdw_milli: 1900, chi_centi: 255, chi_exact: 2939949836747459584, rgb_centi: (56, 76, 29), cromer_mann_micro: [17000600, 2409800, 5819600, 272600, 3973100, 15237200, 4354300, 43816300, 2840900] }
    } else if z == 35 {
        ElementData { covalent_milli: 1140, ionic_milli: 1960, vdw_milli: 1850, chi_centi: 296, chi_exact: 3412647653636267008, rgb_centi: (69, 82, 24), cromer_mann_micro: [17178900, 2172300, 5235800, 16579600, 5637700, 260900, 3985100, 41432800, 2955700] }
    } else if z == 36 {
        ElementData { covalent_milli: 1100, ionic_milli: 0, vdw_milli: 2020, chi_centi: 300, chi_exact: 3458764513820540928, rgb_centi: (18, 75, 83), cromer_mann_micro: [17355500, 1938400, 6728600, 16562300, 5549300, 226100, 3537500, 39397200, 2825000] }
    } else if z == 37 {
        ElementData { covalent_milli: 2110, ionic_milli: 1520, vdw_milli: 3030, chi_centi: 82, chi_exact: 945395633777614464, rgb_centi: (78, 17, 16), cromer_mann_micro: [17178400, 1788800, 9643500, 17315100, 5139900, 274800, 1529200, 164934000, 3487300] }
    } else if z == 38 {
        ElementData { covalent_milli: 1920, ionic_milli: 1180, vdw_milli: 2490, chi_centi: 95, chi_exact: 1095275429376504576, rgb_centi: (94, 50, 20), cromer_mann_micro: [17566300, 1556400, 9818400, 14098800, 5422000, 166400, 2669400, 132376000, 2506400] }
    } else if z == 39 {
        ElementData { covalent_milli: 1620, ionic_milli: 900, vdw_milli: 2400, chi_centi: 122, chi_exact: 1406564235620353280, rgb_centi: (47, 53, 60), cromer_mann_micro: [17776000, 1402900, 10294600, 12800600, 5726290, 125599, 3265880, 104354000, 1912130] }
    } else if z == 40 {
        ElementData { covalent_milli: 1480, ionic_milli: 720, vdw_milli: 2300, chi_centi: 133, chi_exact: 1533385601127106560, rgb_centi: (55, 61, 67), cromer_mann_micro: [17876500, 1276180, 10948000, 11916000, 5417320, 117622, 3657210, 87662700, 2069290] }
    } else if z == 41 {
        ElementData { covalent_milli: 1370, ionic_milli: 640, vdw_milli: 2150, chi_centi: 160, chi_exact: 1844674407370955264, rgb_centi: (38, 45, 53), cromer_mann_micro: [17614200, 1188650, 12014400, 11766000, 4041830, 204785, 3533460, 69795700, 3755910] }
    } else if z == 42 {
        ElementData { covalent_milli: 1450, ionic_milli: 590, vdw_milli: 2100, chi_centi: 216, chi_exact: 2490310449950789632, rgb_centi: (33, 39, 45), cromer_mann_micro: [3702500, 277200, 17235600, 1095800, 12887600, 11004000, 3742900, 61658400, 4387500] }
    } else if z == 43 {
        ElementData { covalent_milli: 1560, ionic_milli: 560, vdw_milli: 2050, chi_centi: 190, chi_exact: 2190550858753009152, rgb_centi: (26, 32, 36), cromer_mann_micro: [19130100, 864132, 11094800, 8144870, 4649010, 21570700, 2712630, 86847200, 5404280] }
    } else if z == 44 {
        ElementData { covalent_milli: 1260, ionic_milli: 620, vdw_milli: 2050, chi_centi: 220, chi_exact: 2536427310135063552, rgb_centi: (21, 27, 31), cromer_mann_micro: [19267400, 808520, 12918200, 8434670, 4863370, 24799700, 1567560, 94292800, 5378740] }
    } else if z == 45 {
        ElementData { covalent_milli: 1350, ionic_milli: 665, vdw_milli: 2000, chi_centi: 228, chi_exact: 2628661030503610880, rgb_centi: (38, 45, 53), cromer_mann_micro: [19295700, 751536, 14350100, 8217580, 4734250, 25874900, 1289180, 98606200, 5328000] }
    } else if z == 46 {
        ElementData { covalent_milli: 1310, ionic_milli: 860, vdw_milli: 2050, chi_centi: 220, chi_exact: 2536427310135063552, rgb_centi: (47, 53, 60), cromer_mann_micro: [19331900, 698655, 15501700, 7989290, 5295370, 25205200, 605844, 76898600, 5265930] }
    } else if z == 47 {
        ElementData { covalent_milli: 1530, ionic_milli: 1150, vdw_milli: 2030, chi_centi: 193, chi_exact: 2225138503891214592, rgb_centi: (69, 75, 78), cromer_mann_micro: [19280800, 644600, 16688500, 7472600, 4804500, 24660500, 1046300, 99815600, 5179000] }
    } else if z == 48 {
        ElementData { covalent_milli: 1480, ionic_milli: 950, vdw_milli: 2180, chi_centi: 169, chi_exact: 1948437342785571328, rgb_centi: (33, 59, 82), cromer_mann_micro: [19221400, 594600, 17644400, 6908900, 4461000, 24700800, 1602900, 87482500, 5069400] }
    } else if z == 49 {
        ElementData { covalent_milli: 1440, ionic_milli: 800, vdw_milli: 1930, chi_centi: 178, chi_exact: 2052200278200187648, rgb_centi: (33, 59, 82), cromer_mann_micro: [19162400, 547600, 18559600, 6377600, 4294800, 25849900, 2039600, 92802900, 4939100] }
    } else if z == 50 {
        ElementData { covalent_milli: 1410, ionic_milli: 690, vdw_milli: 2170, chi_centi: 196, chi_exact: 2259726149029420032, rgb_centi: (30, 69, 60), cromer_mann_micro: [19188900, 5830300, 19100500, 503100, 4458500, 26890900, 2466300, 83957100, 4782100] }
    } else if z == 51 {
        ElementData { covalent_milli: 1380, ionic_milli: 760, vdw_milli: 2060, chi_centi: 205, chi_exact: 2363489084444036096, rgb_centi: (30, 69, 60), cromer_mann_micro: [19641800, 5303400, 19045500, 460700, 5037100, 27907400, 2682700, 75282500, 4590900] }
    } else if z == 52 {
        ElementData { covalent_milli: 1350, ionic_milli: 2210, vdw_milli: 2060, chi_centi: 210, chi_exact: 2421135159674378752, rgb_centi: (56, 76, 29), cromer_mann_micro: [19964400, 4817420, 19013800, 420885, 6144870, 28528400, 2523900, 70840300, 4352000] }
    } else if z == 53 {
        ElementData { covalent_milli: 1330, ionic_milli: 2200, vdw_milli: 1980, chi_centi: 266, chi_exact: 3066771202254213120, rgb_centi: (69, 82, 24), cromer_mann_micro: [20147200, 4347000, 18994900, 381400, 7513800, 27766000, 2273500, 66877600, 4071200] }
    } else if z == 54 {
        ElementData { covalent_milli: 1300, ionic_milli: 0, vdw_milli: 2160, chi_centi: 260, chi_exact: 2997595911977802240, rgb_centi: (18, 75, 83), cromer_mann_micro: [20293300, 3928200, 19029800, 344000, 8976700, 26465900, 1990000, 64265800, 3711800] }
    } else if z == 55 {
        ElementData { covalent_milli: 2250, ionic_milli: 1670, vdw_milli: 3430, chi_centi: 79, chi_exact: 910807988639409152, rgb_centi: (72, 11, 11), cromer_mann_micro: [20389200, 3569000, 19106200, 310700, 10662000, 24387900, 1495300, 213904000, 3335200] }
    } else if z == 56 {
        ElementData { covalent_milli: 1980, ionic_milli: 1350, vdw_milli: 2680, chi_centi: 89, chi_exact: 1026100139100093824, rgb_centi: (90, 49, 13), cromer_mann_micro: [20336100, 3216000, 19297000, 275600, 10888000, 20207300, 2695990, 167202000, 2773100] }
    } else if z == 57 {
        ElementData { covalent_milli: 1690, ionic_milli: 1030, vdw_milli: 2500, chi_centi: 110, chi_exact: 1268213655067531776, rgb_centi: (58, 46, 80), cromer_mann_micro: [20578000, 2948170, 19599000, 244475, 11372700, 18772600, 3287190, 133124000, 2146780] }
    } else if z == 58 {
        ElementData { covalent_milli: 1630, ionic_milli: 1010, vdw_milli: 2480, chi_centi: 112, chi_exact: 1291272085159668736, rgb_centi: (49, 34, 76), cromer_mann_micro: [21167100, 2812190, 19769500, 226836, 11851300, 17608300, 3330490, 127113000, 1862640] }
    } else if z == 59 {
        ElementData { covalent_milli: 1760, ionic_milli: 990, vdw_milli: 2470, chi_centi: 113, chi_exact: 1302801300205736960, rgb_centi: (40, 28, 71), cromer_mann_micro: [22044000, 2773930, 19669700, 222087, 12385600, 16766900, 2824280, 143644000, 2058300] }
    } else if z == 60 {
        ElementData { covalent_milli: 1740, ionic_milli: 980, vdw_milli: 2450, chi_centi: 114, chi_exact: 1314330515251805440, rgb_centi: (31, 23, 64), cromer_mann_micro: [22684500, 2662480, 19684700, 210628, 12774000, 15885000, 2851370, 137903000, 1984860] }
    } else if z == 61 {
        ElementData { covalent_milli: 1730, ionic_milli: 970, vdw_milli: 2430, chi_centi: 113, chi_exact: 1302801300205736960, rgb_centi: (26, 20, 59), cromer_mann_micro: [23340500, 2562700, 19609500, 202088, 13123500, 15100900, 2875160, 132721000, 2028760] }
    } else if z == 62 {
        ElementData { covalent_milli: 1720, ionic_milli: 960, vdw_milli: 2420, chi_centi: 117, chi_exact: 1348918160390010880, rgb_centi: (21, 18, 53), cromer_mann_micro: [24004200, 2472740, 19425800, 196451, 13439600, 14399600, 2896040, 128007000, 2209630] }
    } else if z == 63 {
        ElementData { covalent_milli: 1680, ionic_milli: 1090, vdw_milli: 2400, chi_centi: 120, chi_exact: 1383505805528216320, rgb_centi: (18, 16, 49), cromer_mann_micro: [24627400, 2387900, 19088600, 194200, 13760300, 13754600, 2922700, 123174000, 2574500] }
    } else if z == 64 {
        ElementData { covalent_milli: 1690, ionic_milli: 940, vdw_milli: 2380, chi_centi: 120, chi_exact: 1383505805528216320, rgb_centi: (16, 14, 45), cromer_mann_micro: [25070900, 2253410, 19079800, 181951, 13851800, 12933100, 3545450, 101398000, 2419600] }
    } else if z == 65 {
        ElementData { covalent_milli: 1680, ionic_milli: 920, vdw_milli: 2370, chi_centi: 120, chi_exact: 1383505805528216320, rgb_centi: (14, 12, 41), cromer_mann_micro: [25897600, 2242560, 18218500, 196143, 14316700, 12664800, 2953540, 115362000, 3583240] }
    } else if z == 66 {
        ElementData { covalent_milli: 1670, ionic_milli: 910, vdw_milli: 2350, chi_centi: 122, chi_exact: 1406564235620353280, rgb_centi: (12, 10, 37), cromer_mann_micro: [26507000, 2180200, 17638300, 202172, 14559600, 12189900, 2965770, 111874000, 4297280] }
    } else if z == 67 {
        ElementData { covalent_milli: 1660, ionic_milli: 900, vdw_milli: 2330, chi_centi: 123, chi_exact: 1418093450666421760, rgb_centi: (10, 9, 34), cromer_mann_micro: [26904900, 2070510, 17294000, 197940, 14558300, 11440700, 3638370, 92656600, 4567960] }
    } else if z == 68 {
        ElementData { covalent_milli: 1650, ionic_milli: 890, vdw_milli: 2320, chi_centi: 124, chi_exact: 1429622665712490240, rgb_centi: (9, 8, 31), cromer_mann_micro: [27656300, 2073560, 16428500, 223545, 14977900, 11360400, 2982330, 105703000, 5920460] }
    } else if z == 69 {
        ElementData { covalent_milli: 1640, ionic_milli: 880, vdw_milli: 2300, chi_centi: 125, chi_exact: 1441151880758558720, rgb_centi: (8, 7, 28), cromer_mann_micro: [28181900, 2028590, 15885100, 238849, 15154200, 10997500, 2987060, 102961000, 6756210] }
    } else if z == 70 {
        ElementData { covalent_milli: 1630, ionic_milli: 860, vdw_milli: 2280, chi_centi: 110, chi_exact: 1268213655067531776, rgb_centi: (7, 6, 25), cromer_mann_micro: [28664100, 1988900, 15434500, 257119, 15308700, 10664700, 2989630, 100417000, 7566720] }
    } else if z == 71 {
        ElementData { covalent_milli: 1620, ionic_milli: 850, vdw_milli: 2270, chi_centi: 127, chi_exact: 1464210310850695680, rgb_centi: (6, 5, 22), cromer_mann_micro: [28947600, 1901820, 15220800, 9985190, 15100000, 261033, 3716010, 84329800, 7976280] }
    } else if z == 72 {
        ElementData { covalent_milli: 1520, ionic_milli: 710, vdw_milli: 2250, chi_centi: 130, chi_exact: 1498797955988901120, rgb_centi: (29, 35, 38), cromer_mann_micro: [29144000, 1832620, 15172600, 9599900, 14758600, 275116, 4300130, 72029000, 8581540] }
    } else if z == 73 {
        ElementData { covalent_milli: 1460, ionic_milli: 640, vdw_milli: 2200, chi_centi: 150, chi_exact: 1729382256910270464, rgb_centi: (29, 35, 38), cromer_mann_micro: [29202400, 1773330, 15229300, 9370460, 14513500, 295977, 4764920, 63364400, 9243540] }
    } else if z == 74 {
        ElementData { covalent_milli: 1370, ionic_milli: 600, vdw_milli: 2100, chi_centi: 236, chi_exact: 2720894750872158720, rgb_centi: (29, 35, 38), cromer_mann_micro: [29081800, 1720290, 15430000, 9225900, 14432700, 321703, 5119820, 57056000, 9887500] }
    } else if z == 75 {
        ElementData { covalent_milli: 1310, ionic_milli: 630, vdw_milli: 2050, chi_centi: 190, chi_exact: 2190550858753009152, rgb_centi: (29, 35, 38), cromer_mann_micro: [28762100, 1671910, 15718900, 9092270, 14556400, 350500, 5441740, 52086100, 10472000] }
    } else if z == 76 {
        ElementData { covalent_milli: 1290, ionic_milli: 630, vdw_milli: 2000, chi_centi: 220, chi_exact: 2536427310135063552, rgb_centi: (29, 35, 38), cromer_mann_micro: [28189400, 1629030, 16155000, 8979480, 14930500, 382661, 5675890, 48164700, 11000500] }
    } else if z == 77 {
        ElementData { covalent_milli: 1220, ionic_milli: 680, vdw_milli: 2000, chi_centi: 220, chi_exact: 2536427310135063552, rgb_centi: (29, 35, 38), cromer_mann_micro: [27304900, 1592790, 16729600, 8865530, 15611500, 417916, 5833770, 45001100, 11472200] }
    } else if z == 78 {
        ElementData { covalent_milli: 1230, ionic_milli: 860, vdw_milli: 2050, chi_centi: 228, chi_exact: 2628661030503610880, rgb_centi: (29, 35, 38), cromer_mann_micro: [27005900, 1512930, 17763900, 8811740, 15713100, 424593, 5783700, 38610300, 11688300] }
    } else if z == 79 {
        ElementData { covalent_milli: 1240, ionic_milli: 1370, vdw_milli: 2100, chi_centi: 254, chi_exact: 2928420621701391360, rgb_centi: (100, 82, 14), cromer_mann_micro: [16881900, 461100, 18591300, 8621600, 25558200, 1482600, 5860000, 36395600, 12065800] }
    } else if z == 80 {
        ElementData { covalent_milli: 1330, ionic_milli: 1020, vdw_milli: 2050, chi_centi: 200, chi_exact: 2305843009213693952, rgb_centi: (72, 72, 73), cromer_mann_micro: [20680900, 545000, 19041700, 8448400, 21657500, 1572900, 5967600, 38324600, 12608900] }
    } else if z == 81 {
        ElementData { covalent_milli: 1440, ionic_milli: 1500, vdw_milli: 1960, chi_centi: 162, chi_exact: 1867732837463092224, rgb_centi: (65, 33, 33), cromer_mann_micro: [27544600, 655150, 19158400, 8707510, 15538000, 1963470, 5525930, 45814900, 13174600] }
    } else if z == 82 {
        ElementData { covalent_milli: 1440, ionic_milli: 1190, vdw_milli: 2020, chi_centi: 233, chi_exact: 2686307105733953536, rgb_centi: (34, 35, 38), cromer_mann_micro: [31061700, 690200, 13063700, 2357600, 18442000, 8618000, 5969600, 47257900, 13411800] }
    } else if z == 83 {
        ElementData { covalent_milli: 1510, ionic_milli: 1030, vdw_milli: 2070, chi_centi: 202, chi_exact: 2328901439305830912, rgb_centi: (62, 31, 71), cromer_mann_micro: [33368900, 704000, 12951000, 2923800, 16587700, 8793700, 6469200, 48009300, 13578200] }
    } else if z == 84 {
        ElementData { covalent_milli: 1450, ionic_milli: 940, vdw_milli: 1970, chi_centi: 200, chi_exact: 2305843009213693952, rgb_centi: (67, 33, 0), cromer_mann_micro: [34672600, 700999, 15473300, 3550780, 13113800, 9556420, 7025880, 47004500, 13677000] }
    } else if z == 85 {
        ElementData { covalent_milli: 1470, ionic_milli: 620, vdw_milli: 2020, chi_centi: 220, chi_exact: 2536427310135063552, rgb_centi: (46, 31, 27), cromer_mann_micro: [35316300, 685870, 19021100, 3974580, 9498870, 11382400, 7425180, 45471500, 13710800] }
    } else if z == 86 {
        ElementData { covalent_milli: 1420, ionic_milli: 0, vdw_milli: 2200, chi_centi: 220, chi_exact: 2536427310135063552, rgb_centi: (26, 51, 59), cromer_mann_micro: [35563100, 663100, 21281600, 4069100, 8003700, 14042200, 7443300, 44247300, 13690500] }
    } else if z == 87 {
        ElementData { covalent_milli: 2600, ionic_milli: 1800, vdw_milli: 3480, chi_centi: 70, chi_exact: 807045053224792832, rgb_centi: (62, 8, 8), cromer_mann_micro: [35929900, 646453, 23054700, 4176190, 12143900, 23105200, 2112530, 150645000, 13724700] }
    } else if z == 88 {
        ElementData { covalent_milli: 2210, ionic_milli: 1480, vdw_milli: 2830, chi_centi: 90, chi_exact: 1037629354146162304, rgb_centi: (85, 40, 11), cromer_mann_micro: [35763000, 616341, 22906400, 3871350, 12473900, 19988700, 3210970, 142325000, 13621100] }
    } else if z == 89 {
        ElementData { covalent_milli: 2150, ionic_milli: 1120, vdw_milli: 2000, chi_centi: 110, chi_exact: 1268213655067531776, rgb_centi: (49, 54, 80), cromer_mann_micro: [35659700, 589092, 23103200, 3651550, 12597700, 18599000, 4086550, 117020000, 13526600] }
    } else if z == 90 {
        ElementData { covalent_milli: 2060, ionic_milli: 1050, vdw_milli: 2400, chi_centi: 130, chi_exact: 1498797955988901120, rgb_centi: (39, 44, 75), cromer_mann_micro: [35564500, 563359, 23421900, 3462040, 12747300, 17830900, 4807030, 99172200, 13431400] }
    } else if z == 91 {
        ElementData { covalent_milli: 2000, ionic_milli: 990, vdw_milli: 2000, chi_centi: 150, chi_exact: 1729382256910270464, rgb_centi: (30, 34, 71), cromer_mann_micro: [35884700, 547751, 23294800, 3415190, 14189100, 16923500, 4172870, 105251000, 13428700] }
    } else if z == 92 {
        ElementData { covalent_milli: 1960, ionic_milli: 1000, vdw_milli: 1860, chi_centi: 138, chi_exact: 1591031676357448704, rgb_centi: (25, 30, 67), cromer_mann_micro: [36022800, 529300, 23412800, 3325300, 14949100, 16092700, 4188000, 100613000, 13396600] }
    } else if z == 93 {
        ElementData { covalent_milli: 1900, ionic_milli: 980, vdw_milli: 2000, chi_centi: 136, chi_exact: 1567973246265312000, rgb_centi: (21, 26, 63), cromer_mann_micro: [36187400, 511929, 23596400, 3253960, 15640200, 15362200, 4185500, 97490800, 13357300] }
    } else if z == 94 {
        ElementData { covalent_milli: 1870, ionic_milli: 960, vdw_milli: 2000, chi_centi: 128, chi_exact: 1475739525896764160, rgb_centi: (18, 23, 59), cromer_mann_micro: [35510300, 498626, 22578700, 2966270, 12776600, 11948400, 4921590, 22750200, 13211600] }
    } else if z == 95 {
        ElementData { covalent_milli: 1800, ionic_milli: 950, vdw_milli: 2000, chi_centi: 113, chi_exact: 1302801300205736960, rgb_centi: (16, 20, 55), cromer_mann_micro: [36670600, 483629, 24099200, 3206470, 17341500, 14313600, 3493310, 102273000, 13359200] }
    } else if z == 96 {
        ElementData { covalent_milli: 1690, ionic_milli: 940, vdw_milli: 2000, chi_centi: 128, chi_exact: 1475739525896764160, rgb_centi: (14, 18, 51), cromer_mann_micro: [36648800, 465154, 24409600, 3089970, 17399000, 13434600, 4216650, 88483400, 13288700] }
    } else if z == 97 {
        ElementData { covalent_milli: 1660, ionic_milli: 930, vdw_milli: 2000, chi_centi: 130, chi_exact: 1498797955988901120, rgb_centi: (12, 16, 47), cromer_mann_micro: [36788100, 451018, 24773600, 3046190, 17891900, 12894600, 4232840, 86003000, 13275400] }
    } else if z == 98 {
        ElementData { covalent_milli: 1630, ionic_milli: 920, vdw_milli: 2000, chi_centi: 130, chi_exact: 1498797955988901120, rgb_centi: (10, 14, 43), cromer_mann_micro: [36918500, 437533, 25199500, 3007750, 18331700, 12404400, 4243910, 83788100, 13267400] }
    } else if z == 99 {
        ElementData { covalent_milli: 1620, ionic_milli: 910, vdw_milli: 2000, chi_centi: 130, chi_exact: 1498797955988901120, rgb_centi: (9, 12, 39), cromer_mann_micro: [2310000, 20843900, 1020000, 10207500, 1588600, 568700, 865000, 51651200, 215600] }
    } else if z == 100 {
        ElementData { covalent_milli: 1610, ionic_milli: 900, vdw_milli: 2000, chi_centi: 130, chi_exact: 1498797955988901120, rgb_centi: (8, 11, 35), cromer_mann_micro: [2310000, 20843900, 1020000, 10207500, 1588600, 568700, 865000, 51651200, 215600] }
    } else if z == 101 {
        ElementData { covalent_milli: 1600, ionic_milli: 890, vdw_milli: 2000, chi_centi: 130, chi_exact: 1498797955988901120, rgb_centi: (7, 10, 32), cromer_mann_micro: [2310000, 20843900, 1020000, 10207500, 1588600, 568700, 865000, 51651200, 215600] }
    } else if z == 102 {
        ElementData { covalent_milli: 1590, ionic_milli: 880, vdw_milli: 2000, chi_centi: 130, chi_exact: 1498797955988901120, rgb_centi: (6, 9, 29), cromer_mann_micro: [2310000, 20843900, 1020000, 10207500, 1588600, 568700, 865000, 51651200, 215600] }
    } else if z == 103 {
        ElementData { covalent_milli: 1580, ionic_milli: 870, vdw_milli: 2000, chi_centi: 130, chi_exact: 1498797955988901120, rgb_centi: (5, 8, 26), cromer_mann_micro: [2310000, 20843900, 1020000, 10207500, 1588600, 568700, 865000, 51651200, 215600] }
    } else {
        ElementData { covalent_milli: 1500, ionic_milli: 0, vdw_milli: 2000, chi_centi: 0, chi_exact: 0, rgb_centi: (100, 8, 58), cromer_mann_micro: [2310000, 20843900, 1020000, 10207500, 1588600, 568700, 865000, 51651200, 215600] }
    }
}

/// A capital letter, optionally followed by a small letter.
pub open spec fn symbol_shaped(s: Seq<char>) -> bool {
    &&& 1 <= s.len() <= 2
    &&& 'A' <= s[0] <= 'Z'
    &&& s.len() == 2 ==> 'a' <= s[1] <= 'z'
}

pub open spec fn code_of(s: Seq<char>) -> int {
    if s.len() == 2 {
        s[0] as int * 256 + s[1] as int
    } else {
        s[0] as int * 256
    }
}

proof fn lemma_symbol_table(z: int)
    requires
        1 <= z <= 103,
    ensures
        z_of_code(symbol_code(z)) == z,
        symbol_shaped(symbol_of(z)),
        code_of(symbol_of(z)) == symbol_code(z),
{
    if z == 1 {
    } else if z == 2 {
    } else if z == 3 {
    } else if z == 4 {
    } else if z == 5 {
    } else if z == 6 {
    } else if z == 7 {
    } else if z == 8 {
    } else if z == 9 {
    } else if z == 10 {
    } else if z == 11 {
    } else if z == 12 {
    } else if z == 13 {
    } else if z == 14 {
    } else if z == 15 {
    } else if z == 16 {
    } else if z == 17 {
    } else if z == 18 {
    } else if z == 19 {
    } else if z == 20 {
    } else if z == 21 {
    } else if z == 22 {
    } else if z == 23 {
    } else if z == 24 {
    } else if z == 25 {
    } else if z == 26 {
    } else if z == 27 {
    } else if z == 28 {
    } else if z == 29 {
    } else if z == 30 {
    } else if z == 31 {
    } else if z == 32 {
    } else if z == 33 {
    } else if z == 34 {
    } else if z == 35 {
    } else if z == 36 {
    } else if z == 37 {
    } else if z == 38 {
    } else if z == 39 {
    } else if z == 40 {
    } else if z == 41 {
    } else if z == 42 {
    } else if z == 43 {
    } else if z == 44 {
    } else if z == 45 {
    } else if z == 46 {
    } else if z == 47 {
    } else if z == 48 {
    } else if z == 49 {
    } else if z == 50 {
    } else if z == 51 {
    } else if z == 52 {
    } else if z == 53 {
    } else if z == 54 {
    } else if z == 55 {
    } else if z == 56 {
    } else if z == 57 {
    } else if z == 58 {
    } else if z == 59 {
    } else if z == 60 {
    } else if z == 61 {
    } else if z == 62 {
    } else if z == 63 {
    } else if z == 64 {
    } else if z == 65 {
    } else if z == 66 {
    } else if z == 67 {
    } else if z == 68 {
    } else if z == 69 {
    } else if z == 70 {
    } else if z == 71 {
    } else if z == 72 {
    } else if z == 73 {
    } else if z == 74 {
    } else if z == 75 {
    } else if z == 76 {
    } else if z == 77 {
    } else if z == 78 {
    } else if z == 79 {
    } else if z == 80 {
    } else if z == 81 {
    } else if z == 82 {
    } else if z == 83 {
    } else if z == 84 {
    } else if z == 85 {
    } else if z == 86 {
    } else if z == 87 {
    } else if z == 88 {
    } else if z == 89 {
    } else if z == 90 {
    } else if z == 91 {
    } else if z == 92 {
    } else if z == 93 {
    } else if z == 94 {
    } else if z == 95 {
    } else if z == 96 {
    } else if z == 97 {
    } else if z == 98 {
    } else if z == 99 {
    } else if z == 100 {
    } else if z == 101 {
    } else if z == 102 {
    } else if z == 103 {
    }
}

proof fn lemma_code_table(c: int)
    requires
        z_of_code(c) != 0,
    ensures
        1 <= z_of_code(c) <= 103,
        symbol_code(z_of_code(c)) == c,
{
}

proof fn lemma_code_injective(s: Seq<char>, t: Seq<char>)
    requires
        symbol_shaped(s),
        symbol_shaped(t),
        code_of(s) == code_of(t),
    ensures
        s == t,
{
    assert(s.len() == t.len());
    assert(s =~= t);
}

/// Distinct elements have distinct symbols.
pub proof fn lemma_symbols_distinct(y: int, z: int)
    requires
        1 <= y <= 103,
        1 <= z <= 103,
        symbol_of(y) == symbol_of(z),
    ensures
        y == z,
{
    lemma_symbol_table(y);
    lemma_symbol_table(z);
}

/// The atomic number of an element's symbol is that element's number, and
/// the symbol of a nonzero atomic number is the name it was looked up by.
pub proof fn lemma_atomic_number_roundtrip(z: int, s: Seq<char>)
    ensures
        1 <= z <= 103 ==> atomic_number(symbol_of(z)) == z,
        atomic_number(s) != 0 ==> 1 <= atomic_number(s) <= 103 && symbol_of(atomic_number(s)) == s,
        atomic_number(s) == 0 ==> forall|y: int| 1 <= y <= 103 ==> symbol_of(y) != s,
{
    if 1 <= z <= 103 {
        assert(1 <= z <= 103 && symbol_of(z) == symbol_of(z));
        let c = choose|y: int| 1 <= y <= 103 && symbol_of(y) == symbol_of(z);
        lemma_symbols_distinct(c, z);
    }
}

fn z_of_code_exec(c: u32) -> (r: i32)
    ensures
        r == z_of_code(c as int),
{
    match c {
        18432 => 1,
        18533 => 2,
        19561 => 3,
        16997 => 4,
        16896 => 5,
        17152 => 6,
        19968 => 7,
        20224 => 8,
        17920 => 9,
        20069 => 10,
        20065 => 11,
        19815 => 12,
        16748 => 13,
        21353 => 14,
        20480 => 15,
        21248 => 16,
        17260 => 17,
        16754 => 18,
        19200 => 19,
        17249 => 20,
        21347 => 21,
        21609 => 22,
        22016 => 23,
        17266 => 24,
        19822 => 25,
        18021 => 26,
        17263 => 27,
        20073 => 28,
        17269 => 29,
        23150 => 30,
        18273 => 31,
        18277 => 32,
        16755 => 33,
        21349 => 34,
        17010 => 35,
        19314 => 36,
        21090 => 37,
        21362 => 38,
        22784 => 39,
        23154 => 40,
        20066 => 41,
        19823 => 42,
        21603 => 43,
        21109 => 44,
        21096 => 45,
        20580 => 46,
        16743 => 47,
        17252 => 48,
        18798 => 49,
        21358 => 50,
        21346 => 51,
        21605 => 52,
        18688 => 53,
        22629 => 54,
        17267 => 55,
        16993 => 56,
        19553 => 57,
        17253 => 58,
        20594 => 59,
        20068 => 60,
        20589 => 61,
        21357 => 62,
        17781 => 63,
        18276 => 64,
        21602 => 65,
        17529 => 66,
        18543 => 67,
        17778 => 68,
        21613 => 69,
        22882 => 70,
        19573 => 71,
        18534 => 72,
        21601 => 73,
        22272 => 74,
        21093 => 75,
        20339 => 76,
        18802 => 77,
        20596 => 78,
        16757 => 79,
        18535 => 80,
        21612 => 81,
        20578 => 82,
        17001 => 83,
        20591 => 84,
        16756 => 85,
        21102 => 86,
        18034 => 87,
        21089 => 88,
        16739 => 89,
        21608 => 90,
        20577 => 91,
        21760 => 92,
        20080 => 93,
        20597 => 94,
        16749 => 95,
        17261 => 96,
        17003 => 97,
        17254 => 98,
        17779 => 99,
        18029 => 100,
        19812 => 101,
        20079 => 102,
        19570 => 103,
        _ => 0,
    }
}

/// Properties of element `z`.
pub fn element_row(z: i32) -> (r: ElementData)
    ensures
        r == element_table(z as int),
{
        match z {
            1 => ElementData { covalent_milli: 370, ionic_milli: 600, vdw_milli: 1200, chi_centi: 220, chi_exact: 2536427310135063552, rgb_centi: (76, 88, 62), cromer_mann_micro: [493002, 10510900, 322912, 26125700, 140191, 3142360, 40810, 57799700, 3038] },
            2 => ElementData { covalent_milli: 320, ionic_milli: 0, vdw_milli: 1400, chi_centi: 0, chi_exact: 0, rgb_centi: (70, 89, 96), cromer_mann_micro: [873400, 9103700, 630900, 3356800, 311200, 22927600, 178000, 982100, 6400] },
            3 => ElementData { covalent_milli: 1340, ionic_milli: 760, vdw_milli: 1820, chi_centi: 98, chi_exact: 1129863074514710016, rgb_centi: (94, 33, 31), cromer_mann_micro: [1128200, 3954600, 750800, 1052400, 617500, 85390500, 465300, 168261000, 37700] },
            4 => ElementData { covalent_milli: 900, ionic_milli: 450, vdw_milli: 1530, chi_centi: 157, chi_exact: 1810086762232749824, rgb_centi: (100, 70, 35), cromer_mann_micro: [1591900, 43642700, 1127800, 1862300, 539100, 103483000, 702900, 542000, 38500] },
            5 => ElementData { covalent_milli: 820, ionic_milli: 270, vdw_milli: 1920, chi_centi: 204, chi_exact: 2351959869397967872, rgb_centi: (30, 69, 60), cromer_mann_micro: [2054500, 23218500, 1332600, 1021000, 1097900, 60349800, 706800, 140300, -193200i64] },
            6 => ElementData { covalent_milli: 770, ionic_milli: 160, vdw_milli: 1700, chi_centi: 255, chi_exact: 2939949836747459584, rgb_centi: (56, 76, 29), cromer_mann_micro: [2310000, 20843900, 1020000, 10207500, 1588600, 568700, 865000, 51651200, 215600] },
            7 => ElementData { covalent_milli: 750, ionic_milli: 130, vdw_milli: 1550, chi_centi: 304, chi_exact: 3504881374004814848, rgb_centi: (41, 73, 39), cromer_mann_micro: [12212600, 5700, 3132200, 9893300, 2012500, 28997500, 1166300, 582600, -11529000i64] },
            8 => ElementData { covalent_milli: 730, ionic_milli: 1400, vdw_milli: 1520, chi_centi: 344, chi_exact: 3966049975847553536, rgb_centi: (30, 69, 31), cromer_mann_micro: [3048500, 13277100, 2286800, 5701100, 1546300, 323900, 867000, 32908900, 250800] },
            9 => ElementData { covalent_milli: 710, ionic_milli: 1330, vdw_milli: 1470, chi_centi: 398, chi_exact: 4588627588335250944, rgb_centi: (51, 78, 33), cromer_mann_micro: [3539200, 10282500, 2641200, 4294400, 1517000, 261500, 1024300, 26147600, 277600] },
            10 => ElementData { covalent_milli: 690, ionic_milli: 0, vdw_milli: 1540, chi_centi: 0, chi_exact: 0, rgb_centi: (38, 80, 85), cromer_mann_micro: [3955300, 8404200, 3112500, 3426200, 1454600, 230600, 1125100, 21718400, 351500] },
            11 => ElementData { covalent_milli: 1540, ionic_milli: 1020, vdw_milli: 2270, chi_centi: 93, chi_exact: 1072216999284367744, rgb_centi: (92, 26, 21), cromer_mann_micro: [4762600, 3285000, 3173600, 8842200, 1267400, 313600, 1112800, 129424000, 676000] },
            12 => ElementData { covalent_milli: 1300, ionic_milli: 720, vdw_milli: 1730, chi_centi: 131, chi_exact: 1510327171034969600, rgb_centi: (100, 60, 20), cromer_mann_micro: [5420400, 2827500, 2173500, 79261100, 1226900, 380800, 2307300, 7193700, 858400] },
            13 => ElementData { covalent_milli: 1180, ionic_milli: 540, vdw_milli: 1840, chi_centi: 161, chi_exact: 1856203622417023744, rgb_centi: (33, 59, 82), cromer_mann_micro: [6420200, 3038700, 1900200, 742600, 1593600, 31547200, 1964600, 85088600, 1115100] },
            14 => ElementData { covalent_milli: 1110, ionic_milli: 400, vdw_milli: 2100, chi_centi: 190, chi_exact: 2190550858753009152, rgb_centi: (30, 69, 60), cromer_mann_micro: [6291500, 2438600, 3035300, 32333000, 1989100, 678500, 1541000, 81693700, 1140700] },
            15 => ElementData { covalent_milli: 1060, ionic_milli: 380, vdw_milli: 1800, chi_centi: 219, chi_exact: 2524898095088994816, rgb_centi: (56, 76, 29), cromer_mann_micro: [6434500, 1906700, 4179100, 27157000, 1780000, 526000, 1490800, 68164500, 1114900] },
            16 => ElementData { covalent_milli: 1020, ionic_milli: 1840, vdw_milli: 1800, chi_centi: 258, chi_exact: 2974537481885665280, rgb_centi: (69, 82, 24), cromer_mann_micro: [6905300, 1467900, 5203400, 22215100, 1437900, 253600, 1586300, 56172000, 866900] },
            17 => ElementData { covalent_milli: 990, ionic_milli: 1810, vdw_milli: 1750, chi_centi: 316, chi_exact: 3643231954557636608, rgb_centi: (51, 78, 33), cromer_mann_micro: [11460400, 10400, 7196400, 1166200, 6255600, 18519400, 1645500, 47778400, -9557400i64] },
            18 => ElementData { covalent_milli: 970, ionic_milli: 0, vdw_milli: 1880, chi_centi: 0, chi_exact: 0, rgb_centi: (18, 75, 83), cromer_mann_micro: [7484500, 907200, 6772300, 14840700, 653900, 43898300, 1644200, 33392900, 1444500] },
            19 => ElementData { covalent_milli: 1960, ionic_milli: 1380, vdw_milli: 2750, chi_centi: 82, chi_exact: 945395633777614464, rgb_centi: (85, 20, 19), cromer_mann_micro: [8218600, 12794900, 7439800, 774800, 1051900, 213187000, 865900, 41684100, 1422800] },
            20 => ElementData { covalent_milli: 1740, ionic_milli: 1000, vdw_milli: 2310, chi_centi: 100, chi_exact: 1152921504606846976, rgb_centi: (96, 55, 19), cromer_mann_micro: [8626600, 10442100, 7387300, 659900, 1589900, 85748400, 1021100, 178437000, 1375100] },
            21 => ElementData { covalent_milli: 1440, ionic_milli: 745, vdw_milli: 2300, chi_centi: 136, chi_exact: 1567973246265312000, rgb_centi: (47, 53, 60), cromer_mann_micro: [9189000, 9021300, 7367900, 572900, 1640900, 136108000, 1468000, 51353100, 1332900] },
            22 => ElementData { covalent_milli: 1360, ionic_milli: 605, vdw_milli: 2150, chi_centi: 154, chi_exact: 1775499117094544384, rgb_centi: (55, 61, 67), cromer_mann_micro: [9759500, 7850800, 7355800, 500000, 1699100, 35633800, 1902100, 116105000, 1280700] },
            23 => ElementData { covalent_milli: 1250, ionic_milli: 590, vdw_milli: 2050, chi_centi: 163, chi_exact: 1879262052509160448, rgb_centi: (38, 45, 53), cromer_mann_micro: [10297100, 6865700, 7351100, 438500, 2070300, 26893800, 2057100, 102478000, 1219900] },
            24 => ElementData { covalent_milli: 1270, ionic_milli: 615, vdw_milli: 2050, chi_centi: 166, chi_exact: 1913849697647365888, rgb_centi: (33, 39, 45), cromer_mann_micro: [10640600, 6103800, 7353700, 392000, 3324000, 20262600, 1492200, 98739900, 1183200] },
            25 => ElementData { covalent_milli: 1390, ionic_milli: 830, vdw_milli: 2050, chi_centi: 155, chi_exact: 1787028332140612864, rgb_centi: (26, 32, 36), cromer_mann_micro: [11281900, 5340900, 7357300, 343200, 3019300, 17867400, 2244100, 83754300, 1089600] },
            26 => ElementData { covalent_milli: 1250, ionic_milli: 780, vdw_milli: 2000, chi_centi: 183, chi_exact: 2109846353430530048, rgb_centi: (21, 27, 31), cromer_mann_micro: [11769500, 4761100, 7357300, 307200, 3522200, 15353500, 2304500, 76880500, 1036900] },
            27 => ElementData { covalent_milli: 1260, ionic_milli: 745, vdw_milli: 2000, chi_centi: 188, chi_exact: 2167492428660872192, rgb_centi: (38, 45, 53), cromer_mann_micro: [12284100, 4279100, 7340900, 278400, 4003400, 13535900, 2348800, 71169200, 1011800] },
            28 => ElementData { covalent_milli: 1210, ionic_milli: 690, vdw_milli: 1970, chi_centi: 191, chi_exact: 2202080073799077632, rgb_centi: (47, 53, 60), cromer_mann_micro: [12837600, 3878500, 7292000, 256500, 4443800, 12176300, 2380000, 66342100, 1034100] },
            29 => ElementData { covalent_milli: 1380, ionic_milli: 730, vdw_milli: 1960, chi_centi: 190, chi_exact: 2190550858753009152, rgb_centi: (55, 61, 67), cromer_mann_micro: [13338000, 3582800, 7167600, 247000, 5615800, 11396600, 1673500, 64812600, 1191000] },
            30 => ElementData { covalent_milli: 1310, ionic_milli: 740, vdw_milli: 2010, chi_centi: 165, chi_exact: 1902320482601297408, rgb_centi: (69, 75, 78), cromer_mann_micro: [14074300, 3265500, 7031800, 233300, 5165200, 10316300, 2410000, 58709700, 1304100] },
            31 => ElementData { covalent_milli: 1260, ionic_milli: 620, vdw_milli: 1870, chi_centi: 181, chi_exact: 2086787923338393088, rgb_centi: (33, 59, 82), cromer_mann_micro: [15235400, 3066900, 6700600, 241200, 4359100, 10780500, 2962300, 61413500, 1718900] },
            32 => ElementData { covalent_milli: 1220, ionic_milli: 530, vdw_milli: 2110, chi_centi: 201, chi_exact: 2317372224259762176, rgb_centi: (30, 69, 60), cromer_mann_micro: [16081600, 2850900, 6374700, 251600, 3706800, 11446800, 3683000, 54762500, 2131300] },
            33 => ElementData { covalent_milli: 1190, ionic_milli: 580, vdw_milli: 1850, chi_centi: 218, chi_exact: 2513368880042926592, rgb_centi: (30, 69, 60), cromer_mann_micro: [16672300, 2634500, 6070100, 264700, 3431300, 12947900, 4277900, 47797200, 2531000] },
            34 => ElementData { covalent_milli: 1160, ionic_milli: 1980, vdw_milli: 1900, chi_centi: 255, chi_exact: 2939949836747459584, rgb_centi: (56, 76, 29), cromer_mann_micro: [17000600, 2409800, 5819600, 272600, 3973100, 15237200, 4354300, 43816300, 2840900] },
            35 => ElementData { covalent_milli: 1140, ionic_milli: 1960, vdw_milli: 1850, chi_centi: 296, chi_exact: 3412647653636267008, rgb_centi: (69, 82, 24), cromer_mann_micro: [17178900, 2172300, 5235800, 16579600, 5637700, 260900, 3985100, 41432800, 2955700] },
            36 => ElementData { covalent_milli: 1100, ionic_milli: 0, vdw_milli: 2020, chi_centi: 300, chi_exact: 3458764513820540928, rgb_centi: (18, 75, 83), cromer_mann_micro: [17355500, 1938400, 6728600, 16562300, 5549300, 226100, 3537500, 39397200, 2825000] },
            37 => ElementData { covalent_milli: 2110, ionic_milli: 1520, vdw_milli: 3030, chi_centi: 82, chi_exact: 945395633777614464, rgb_centi: (78, 17, 16), cromer_mann_micro: [17178400, 1788800, 9643500, 17315100, 5139900, 274800, 1529200, 164934000, 3487300] },
            38 => ElementData { covalent_milli: 1920, ionic_milli: 1180, vdw_milli: 2490, chi_centi: 95, chi_exact: 1095275429376504576, rgb_centi: (94, 50, 20), cromer_mann_micro: [17566300, 1556400, 9818400, 14098800, 5422000, 166400, 2669400, 132376000, 2506400] },
            39 => ElementData { covalent_milli: 1620, ionic_milli: 900, vdw_milli: 2400, chi_centi: 122, chi_exact: 1406564235620353280, rgb_centi: (47, 53, 60), cromer_mann_micro: [17776000, 1402900, 10294600, 12800600, 5726290, 125599, 3265880, 104354000, 1912130] },
            40 => ElementData { covalent_milli: 1480, ionic_milli: 720, vdw_milli: 2300, chi_centi: 133, chi_exact: 1533385601127106560, rgb_centi: (55, 61, 67), cromer_mann_micro: [17876500, 1276180, 10948000, 11916000, 5417320, 117622, 3657210, 87662700, 2069290] },
            41 => ElementData { covalent_milli: 1370, ionic_milli: 640, vdw_milli: 2150, chi_centi: 160, chi_exact: 1844674407370955264, rgb_centi: (38, 45, 53), cromer_mann_micro: [17614200, 1188650, 12014400, 11766000, 4041830, 204785, 3533460, 69795700, 3755910] },
            42 => ElementData { covalent_milli: 1450, ionic_milli: 590, vdw_milli: 2100, chi_centi: 216, chi_exact: 2490310449950789632, rgb_centi: (33, 39, 45), cromer_mann_micro: [3702500, 277200, 17235600, 1095800, 12887600, 11004000, 3742900, 61658400, 4387500] },
            43 => ElementData { covalent_milli: 1560, ionic_milli: 560, vdw_milli: 2050, chi_centi: 190, chi_exact: 2190550858753009152, rgb_centi: (26, 32, 36), cromer_mann_micro: [19130100, 864132, 11094800, 8144870, 4649010, 21570700, 2712630, 86847200, 5404280] },
            44 => ElementData { covalent_milli: 1260, ionic_milli: 620, vdw_milli: 2050, chi_centi: 220, chi_exact: 2536427310135063552, rgb_centi: (21, 27, 31), cromer_mann_micro: [19267400, 808520, 12918200, 8434670, 4863370, 24799700, 1567560, 94292800, 5378740] },
            45 => ElementData { covalent_milli: 1350, ionic_milli: 665, vdw_milli: 2000, chi_centi: 228, chi_exact: 2628661030503610880, rgb_centi: (38, 45, 53), cromer_mann_micro: [19295700, 751536, 14350100, 8217580, 4734250, 25874900, 1289180, 98606200, 5328000] },
            46 => ElementData { covalent_milli: 1310, ionic_milli: 860, vdw_milli: 2050, chi_centi: 220, chi_exact: 2536427310135063552, rgb_centi: (47, 53, 60), cromer_mann_micro: [19331900, 698655, 15501700, 7989290, 5295370, 25205200, 605844, 76898600, 5265930] },
            47 => ElementData { covalent_milli: 1530, ionic_milli: 1150, vdw_milli: 2030, chi_centi: 193, chi_exact: 2225138503891214592, rgb_centi: (69, 75, 78), cromer_mann_micro: [19280800, 644600, 16688500, 7472600, 4804500, 24660500, 1046300, 99815600, 5179000] },
            48 => ElementData { covalent_milli: 1480, ionic_milli: 950, vdw_milli: 2180, chi_centi: 169, chi_exact: 1948437342785571328, rgb_centi: (33, 59, 82), cromer_mann_micro: [19221400, 594600, 17644400, 6908900, 4461000, 24700800, 1602900, 87482500, 5069400] },
            49 => ElementData { covalent_milli: 1440, ionic_milli: 800, vdw_milli: 1930, chi_centi: 178, chi_exact: 2052200278200187648, rgb_centi: (33, 59, 82), cromer_mann_micro: [19162400, 547600, 18559600, 6377600, 4294800, 25849900, 2039600, 92802900, 4939100] },
            50 => ElementData { covalent_milli: 1410, ionic_milli: 690, vdw_milli: 2170, chi_centi: 196, chi_exact: 2259726149029420032, rgb_centi: (30, 69, 60), cromer_mann_micro: [19188900, 5830300, 19100500, 503100, 4458500, 26890900, 2466300, 83957100, 4782100] },
            51 => ElementData { covalent_milli: 1380, ionic_milli: 760, vdw_milli: 2060, chi_centi: 205, chi_exact: 2363489084444036096, rgb_centi: (30, 69, 60), cromer_mann_micro: [19641800, 5303400, 19045500, 460700, 5037100, 27907400, 2682700, 75282500, 4590900] },
            52 => ElementData { covalent_milli: 1350, ionic_milli: 2210, vdw_milli: 2060, chi_centi: 210, chi_exact: 2421135159674378752, rgb_centi: (56, 76, 29), cromer_mann_micro: [19964400, 4817420, 19013800, 420885, 6144870, 28528400, 2523900, 70840300, 4352000] },
            53 => ElementData { covalent_milli: 1330, ionic_milli: 2200, vdw_milli: 1980, chi_centi: 266, chi_exact: 3066771202254213120, rgb_centi: (69, 82, 24), cromer_mann_micro: [20147200, 4347000, 18994900, 381400, 7513800, 27766000, 2273500, 66877600, 4071200] },
            54 => ElementData { covalent_milli: 1300, ionic_milli: 0, vdw_milli: 2160, chi_centi: 260, chi_exact: 2997595911977802240, rgb_centi: (18, 75, 83), cromer_mann_micro: [20293300, 3928200, 19029800, 344000, 8976700, 26465900, 1990000, 64265800, 3711800] },
            55 => ElementData { covalent_milli: 2250, ionic_milli: 1670, vdw_milli: 3430, chi_centi: 79, chi_exact: 910807988639409152, rgb_centi: (72, 11, 11), cromer_mann_micro: [20389200, 3569000, 19106200, 310700, 10662000, 24387900, 1495300, 213904000, 3335200] },
            56 => ElementData { covalent_milli: 1980, ionic_milli: 1350, vdw_milli: 2680, chi_centi: 89, chi_exact: 1026100139100093824, rgb_centi: (90, 49, 13), cromer_mann_micro: [20336100, 3216000, 19297000, 275600, 10888000, 20207300, 2695990, 167202000, 2773100] },
            57 => ElementData { covalent_milli: 1690, ionic_milli: 1030, vdw_milli: 2500, chi_centi: 110, chi_exact: 1268213655067531776, rgb_centi: (58, 46, 80), cromer_mann_micro: [20578000, 2948170, 19599000, 244475, 11372700, 18772600, 3287190, 133124000, 2146780] },
            58 => ElementData { covalent_milli: 1630, ionic_milli: 1010, vdw_milli: 2480, chi_centi: 112, chi_exact: 1291272085159668736, rgb_centi: (49, 34, 76), cromer_mann_micro: [21167100, 2812190, 19769500, 226836, 11851300, 17608300, 3330490, 127113000, 1862640] },
            59 => ElementData { covalent_milli: 1760, ionic_milli: 990, vdw_milli: 2470, chi_centi: 113, chi_exact: 1302801300205736960, rgb_centi: (40, 28, 71), cromer_mann_micro: [22044000, 2773930, 19669700, 222087, 12385600, 16766900, 2824280, 143644000, 2058300] },
            60 => ElementData { covalent_milli: 1740, ionic_milli: 980, vdw_milli: 2450, chi_centi: 114, chi_exact: 1314330515251805440, rgb_centi: (31, 23, 64), cromer_mann_micro: [22684500, 2662480, 19684700, 210628, 12774000, 15885000, 2851370, 137903000, 1984860] },
            61 => ElementData { covalent_milli: 1730, ionic_milli: 970, vdw_milli: 2430, chi_centi: 113, chi_exact: 1302801300205736960, rgb_centi: (26, 20, 59), cromer_mann_micro: [23340500, 2562700, 19609500, 202088, 13123500, 15100900, 2875160, 132721000, 2028760] },
            62 => ElementData { covalent_milli: 1720, ionic_milli: 960, vdw_milli: 2420, chi_centi: 117, chi_exact: 1348918160390010880, rgb_centi: (21, 18, 53), cromer_mann_micro: [24004200, 2472740, 19425800, 196451, 13439600, 14399600, 2896040, 128007000, 2209630] },
            63 => ElementData { covalent_milli: 1680, ionic_milli: 1090, vdw_milli: 2400, chi_centi: 120, chi_exact: 1383505805528216320, rgb_centi: (18, 16, 49), cromer_mann_micro: [24627400, 2387900, 19088600, 194200, 13760300, 13754600, 2922700, 123174000, 2574500] },
            64 => ElementData { covalent_milli: 1690, ionic_milli: 940, vdw_milli: 2380, chi_centi: 120, chi_exact: 1383505805528216320, rgb_centi: (16, 14, 45), cromer_mann_micro: [25070900, 2253410, 19079800, 181951, 13851800, 12933100, 3545450, 101398000, 2419600] },
            65 => ElementData { covalent_milli: 1680, ionic_milli: 920, vdw_milli: 2370, chi_centi: 120, chi_exact: 1383505805528216320, rgb_centi: (14, 12, 41), cromer_mann_micro: [25897600, 2242560, 18218500, 196143, 14316700, 12664800, 2953540, 115362000, 3583240] },
            66 => ElementData { covalent_milli: 1670, ionic_milli: 910, vdw_milli: 2350, chi_centi: 122, chi_exact: 1406564235620353280, rgb_centi: (12, 10, 37), cromer_mann_micro: [26507000, 2180200, 17638300, 202172, 14559600, 12189900, 2965770, 111874000, 4297280] },
            67 => ElementData { covalent_milli: 1660, ionic_milli: 900, vdw_milli: 2330, chi_centi: 123, chi_exact: 1418093450666421760, rgb_centi: (10, 9, 34), cromer_mann_micro: [26904900, 2070510, 17294000, 197940, 14558300, 11440700, 3638370, 92656600, 4567960] },
            68 => ElementData { covalent_milli: 1650, ionic_milli: 890, vdw_milli: 2320, chi_centi: 124, chi_exact: 1429622665712490240, rgb_centi: (9, 8, 31), cromer_mann_micro: [27656300, 2073560, 16428500, 223545, 14977900, 11360400, 2982330, 105703000, 5920460] },
            69 => ElementData { covalent_milli: 1640, ionic_milli: 880, vdw_milli: 2300, chi_centi: 125, chi_exact: 1441151880758558720, rgb_centi: (8, 7, 28), cromer_mann_micro: [28181900, 2028590, 15885100, 238849, 15154200, 10997500, 2987060, 102961000, 6756210] },
            70 => ElementData { covalent_milli: 1630, ionic_milli: 860, vdw_milli: 2280, chi_centi: 110, chi_exact: 1268213655067531776, rgb_centi: (7, 6, 25), cromer_mann_micro: [28664100, 1988900, 15434500, 257119, 15308700, 10664700, 2989630, 100417000, 7566720] },
            71 => ElementData { covalent_milli: 1620, ionic_milli: 850, vdw_milli: 2270, chi_centi: 127, chi_exact: 1464210310850695680, rgb_centi: (6, 5, 22), cromer_mann_micro: [28947600, 1901820, 15220800, 9985190, 15100000, 261033, 3716010, 84329800, 7976280] },
            72 => ElementData { covalent_milli: 1520, ionic_milli: 710, vdw_milli: 2250, chi_centi: 130, chi_exact: 1498797955988901120, rgb_centi: (29, 35, 38), cromer_mann_micro: [29144000, 1832620, 15172600, 9599900, 14758600, 275116, 4300130, 72029000, 8581540] },
            73 => ElementData { covalent_milli: 1460, ionic_milli: 640, vdw_milli: 2200, chi_centi: 150, chi_exact: 1729382256910270464, rgb_centi: (29, 35, 38), cromer_mann_micro: [29202400, 1773330, 15229300, 9370460, 14513500, 295977, 4764920, 63364400, 9243540] },
            74 => ElementData { covalent_milli: 1370, ionic_milli: 600, vdw_milli: 2100, chi_centi: 236, chi_exact: 2720894750872158720, rgb_centi: (29, 35, 38), cromer_mann_micro: [29081800, 1720290, 15430000, 9225900, 14432700, 321703, 5119820, 57056000, 9887500] },
            75 => ElementData { covalent_milli: 1310, ionic_milli: 630, vdw_milli: 2050, chi_centi: 190, chi_exact: 2190550858753009152, rgb_centi: (29, 35, 38), cromer_mann_micro: [28762100, 1671910, 15718900, 9092270, 14556400, 350500, 5441740, 52086100, 10472000] },
            76 => ElementData { covalent_milli: 1290, ionic_milli: 630, vdw_milli: 2000, chi_centi: 220, chi_exact: 2536427310135063552, rgb_centi: (29, 35, 38), cromer_mann_micro: [28189400, 1629030, 16155000, 8979480, 14930500, 382661, 5675890, 48164700, 11000500] },
            77 => ElementData { covalent_milli: 1220, ionic_milli: 680, vdw_milli: 2000, chi_centi: 220, chi_exact: 2536427310135063552, rgb_centi: (29, 35, 38), cromer_mann_micro: [27304900, 1592790, 16729600, 8865530, 15611500, 417916, 5833770, 45001100, 11472200] },
            78 => ElementData { covalent_milli: 1230, ionic_milli: 860, vdw_milli: 2050, chi_centi: 228, chi_exact: 2628661030503610880, rgb_centi: (29, 35, 38), cromer_mann_micro: [27005900, 1512930, 17763900, 8811740, 15713100, 424593, 5783700, 38610300, 11688300] },
            79 => ElementData { covalent_milli: 1240, ionic_milli: 1370, vdw_milli: 2100, chi_centi: 254, chi_exact: 2928420621701391360, rgb_centi: (100, 82, 14), cromer_mann_micro: [16881900, 461100, 18591300, 8621600, 25558200, 1482600, 5860000, 36395600, 12065800] },
            80 => ElementData { covalent_milli: 1330, ionic_milli: 1020, vdw_milli: 2050, chi_centi: 200, chi_exact: 2305843009213693952, rgb_centi: (72, 72, 73), cromer_mann_micro: [20680900, 545000, 19041700, 8448400, 21657500, 1572900, 5967600, 38324600, 12608900] },
            81 => ElementData { covalent_milli: 1440, ionic_milli: 1500, vdw_milli: 1960, chi_centi: 162, chi_exact: 1867732837463092224, rgb_centi: (65, 33, 33), cromer_mann_micro: [27544600, 655150, 19158400, 8707510, 15538000, 1963470, 5525930, 45814900, 13174600] },
            82 => ElementData { covalent_milli: 1440, ionic_milli: 1190, vdw_milli: 2020, chi_centi: 233, chi_exact: 2686307105733953536, rgb_centi: (34, 35, 38), cromer_mann_micro: [31061700, 690200, 13063700, 2357600, 18442000, 8618000, 5969600, 47257900, 13411800] },
            83 => ElementData { covalent_milli: 1510, ionic_milli: 1030, vdw_milli: 2070, chi_centi: 202, chi_exact: 2328901439305830912, rgb_centi: (62, 31, 71), cromer_mann_micro: [33368900, 704000, 12951000, 2923800, 16587700, 8793700, 6469200, 48009300, 13578200] },
            84 => ElementData { covalent_milli: 1450, ionic_milli: 940, vdw_milli: 1970, chi_centi: 200, chi_exact: 2305843009213693952, rgb_centi: (67, 33, 0), cromer_mann_micro: [34672600, 700999, 15473300, 3550780, 13113800, 9556420, 7025880, 47004500, 13677000] },
            85 => ElementData { covalent_milli: 1470, ionic_milli: 620, vdw_milli: 2020, chi_centi: 220, chi_exact: 2536427310135063552, rgb_centi: (46, 31, 27), cromer_mann_micro: [35316300, 685870, 19021100, 3974580, 9498870, 11382400, 7425180, 45471500, 13710800] },
            86 => ElementData { covalent_milli: 1420, ionic_milli: 0, vdw_milli: 2200, chi_centi: 220, chi_exact: 2536427310135063552, rgb_centi: (26, 51, 59), cromer_mann_micro: [35563100, 663100, 21281600, 4069100, 8003700, 14042200, 7443300, 44247300, 13690500] },
            87 => ElementData { covalent_milli: 2600, ionic_milli: 1800, vdw_milli: 3480, chi_centi: 70, chi_exact: 807045053224792832, rgb_centi: (62, 8, 8), cromer_mann_micro: [35929900, 646453, 23054700, 4176190, 12143900, 23105200, 2112530, 150645000, 13724700] },
            88 => ElementData { covalent_milli: 2210, ionic_milli: 1480, vdw_milli: 2830, chi_centi: 90, chi_exact: 1037629354146162304, rgb_centi: (85, 40, 11), cromer_mann_micro: [35763000, 616341, 22906400, 3871350, 12473900, 19988700, 3210970, 142325000, 13621100] },
            89 => ElementData { covalent_milli: 2150, ionic_milli: 1120, vdw_milli: 2000, chi_centi: 110, chi_exact: 1268213655067531776, rgb_centi: (49, 54, 80), cromer_mann_micro: [35659700, 589092, 23103200, 3651550, 12597700, 18599000, 4086550, 117020000, 13526600] },
            90 => ElementData { covalent_milli: 2060, ionic_milli: 1050, vdw_milli: 2400, chi_centi: 130, chi_exact: 1498797955988901120, rgb_centi: (39, 44, 75), cromer_mann_micro: [35564500, 563359, 23421900, 3462040, 12747300, 17830900, 4807030, 99172200, 13431400] },
            91 => ElementData { covalent_milli: 2000, ionic_milli: 990, vdw_milli: 2000, chi_centi: 150, chi_exact: 1729382256910270464, rgb_centi: (30, 34, 71), cromer_mann_micro: [35884700, 547751, 23294800, 3415190, 14189100, 16923500, 4172870, 105251000, 13428700] },
            92 => ElementData { covalent_milli: 1960, ionic_milli: 1000, vdw_milli: 1860, chi_centi: 138, chi_exact: 1591031676357448704, rgb_centi: (25, 30, 67), cromer_mann_micro: [36022800, 529300, 23412800, 3325300, 14949100, 16092700, 4188000, 100613000, 13396600] },
            93 => ElementData { covalent_milli: 1900, ionic_milli: 980, vdw_milli: 2000, chi_centi: 136, chi_exact: 1567973246265312000, rgb_centi: (21, 26, 63), cromer_mann_micro: [36187400, 511929, 23596400, 3253960, 15640200, 15362200, 4185500, 97490800, 13357300] },
            94 => ElementData { covalent_milli: 1870, ionic_milli: 960, vdw_milli: 2000, chi_centi: 128, chi_exact: 1475739525896764160, rgb_centi: (18, 23, 59), cromer_mann_micro: [35510300, 498626, 22578700, 2966270, 12776600, 11948400, 4921590, 22750200, 13211600] },
            95 => ElementData { covalent_milli: 1800, ionic_milli: 950, vdw_milli: 2000, chi_centi: 113, chi_exact: 1302801300205736960, rgb_centi: (16, 20, 55), cromer_mann_micro: [36670600, 483629, 24099200, 3206470, 17341500, 14313600, 3493310, 102273000, 13359200] },
            96 => ElementData { covalent_milli: 1690, ionic_milli: 940, vdw_milli: 2000, chi_centi: 128, chi_exact: 1475739525896764160, rgb_centi: (14, 18, 51), cromer_mann_micro: [36648800, 465154, 24409600, 3089970, 17399000, 13434600, 4216650, 88483400, 13288700] },
            97 => ElementData { covalent_milli: 1660, ionic_milli: 930, vdw_milli: 2000, chi_centi: 130, chi_exact: 1498797955988901120, rgb_centi: (12, 16, 47), cromer_mann_micro: [36788100, 451018, 24773600, 3046190, 17891900, 12894600, 4232840, 86003000, 13275400] },
            98 => ElementData { covalent_milli: 1630, ionic_milli: 920, vdw_milli: 2000, chi_centi: 130, chi_exact: 1498797955988901120, rgb_centi: (10, 14, 43), cromer_mann_micro: [36918500, 437533, 25199500, 3007750, 18331700, 12404400, 4243910, 83788100, 13267400] },
            99 => ElementData { covalent_milli: 1620, ionic_milli: 910, vdw_milli: 2000, chi_centi: 130, chi_exact: 1498797955988901120, rgb_centi: (9, 12, 39), cromer_mann_micro: [2310000, 20843900, 1020000, 10207500, 1588600, 568700, 865000, 51651200, 215600] },
            100 => ElementData { covalent_milli: 1610, ionic_milli: 900, vdw_milli: 2000, chi_centi: 130, chi_exact: 1498797955988901120, rgb_centi: (8, 11, 35), cromer_mann_micro: [2310000, 20843900, 1020000, 10207500, 1588600, 568700, 865000, 51651200, 215600] },
            101 => ElementData { covalent_milli: 1600, ionic_milli: 890, vdw_milli: 2000, chi_centi: 130, chi_exact: 1498797955988901120, rgb_centi: (7, 10, 32), cromer_mann_micro: [2310000, 20843900, 1020000, 10207500, 1588600, 568700, 865000, 51651200, 215600] },
            102 => ElementData { covalent_milli: 1590, ionic_milli: 880, vdw_milli: 2000, chi_centi: 130, chi_exact: 1498797955988901120, rgb_centi: (6, 9, 29), cromer_mann_micro: [2310000, 20843900, 1020000, 10207500, 1588600, 568700, 865000, 51651200, 215600] },
            103 => ElementData { covalent_milli: 1580, ionic_milli: 870, vdw_milli: 2000, chi_centi: 130, chi_exact: 1498797955988901120, rgb_centi: (5, 8, 26), cromer_mann_micro: [2310000, 20843900, 1020000, 10207500, 1588600, 568700, 865000, 51651200, 215600] },
            _ => ElementData { covalent_milli: 1500, ionic_milli: 0, vdw_milli: 2000, chi_centi: 0, chi_exact: 0, rgb_centi: (100, 8, 58), cromer_mann_micro: [2310000, 20843900, 1020000, 10207500, 1588600, 568700, 865000, 51651200, 215600] },
        }
}

/// The atomic number (Z) of the element with symbol `element`, 0 when the
/// symbol is unknown. Symbols are matched exactly: "Fe", not "FE" or "fe".
pub fn get_atomic_number(element: &str) -> (r: i32)
    ensures
        r == atomic_number(element@),
{
    let s = chars_of(element);
    let n = s.len();
    if n < 1 || n > 2 {
        proof {
            lemma_atomic_number_roundtrip(0, element@);
            if atomic_number(element@) != 0 {
                lemma_symbol_table(atomic_number(element@));
            }
        }
        return 0;
    }
    let c0 = s[0];
    if !('A' <= c0 && c0 <= 'Z') {
        proof {
            lemma_atomic_number_roundtrip(0, element@);
            if atomic_number(element@) != 0 {
                lemma_symbol_table(atomic_number(element@));
            }
        }
        return 0;
    }
    let mut code: u32 = (c0 as u32) * 256;
    if n == 2 {
        let c1 = s[1];
        if !('a' <= c1 && c1 <= 'z') {
            proof {
                lemma_atomic_number_roundtrip(0, element@);
                if atomic_number(element@) != 0 {
                    lemma_symbol_table(atomic_number(element@));
                }
            }
            return 0;
        }
        code = code + (c1 as u32);
    }
    let z = z_of_code_exec(code);
    proof {
        assert(symbol_shaped(element@));
        assert(code == code_of(element@));
        lemma_atomic_number_roundtrip(0, element@);
        if z != 0 {
            lemma_code_table(code as int);
            lemma_symbol_table(z as int);
            lemma_code_injective(symbol_of(z as int), element@);
            lemma_atomic_number_roundtrip(z as int, element@);
        } else if atomic_number(element@) != 0 {
            let y = atomic_number(element@);
            lemma_symbol_table(y);
        }
    }
    z
}

/// The tabulated properties of the element with symbol `element`; those of
/// the unknown element when the symbol is not in the table.
pub fn element_properties(element: &str) -> (r: ElementData)
    ensures
        r == element_table(atomic_number(element@)),
{
    let z = get_atomic_number(element);
    element_row(z)
}

fn symbol_code_exec(z: i32) -> (r: u32)
    ensures
        r == symbol_code(z as int),
{
    match z {
        1 => 18432,
        2 => 18533,
        3 => 19561,
        4 => 16997,
        5 => 16896,
        6 => 17152,
        7 => 19968,
        8 => 20224,
        9 => 17920,
        10 => 20069,
        11 => 20065,
        12 => 19815,
        13 => 16748,
        14 => 21353,
        15 => 20480,
        16 => 21248,
        17 => 17260,
        18 => 16754,
        19 => 19200,
        20 => 17249,
        21 => 21347,
        22 => 21609,
        23 => 22016,
        24 => 17266,
        25 => 19822,
        26 => 18021,
        27 => 17263,
        28 => 20073,
        29 => 17269,
        30 => 23150,
        31 => 18273,
        32 => 18277,
        33 => 16755,
        34 => 21349,
        35 => 17010,
        36 => 19314,
        37 => 21090,
        38 => 21362,
        39 => 22784,
        40 => 23154,
        41 => 20066,
        42 => 19823,
        43 => 21603,
        44 => 21109,
        45 => 21096,
        46 => 20580,
        47 => 16743,
        48 => 17252,
        49 => 18798,
        50 => 21358,
        51 => 21346,
        52 => 21605,
        53 => 18688,
        54 => 22629,
        55 => 17267,
        56 => 16993,
        57 => 19553,
        58 => 17253,
        59 => 20594,
        60 => 20068,
        61 => 20589,
        62 => 21357,
        63 => 17781,
        64 => 18276,
        65 => 21602,
        66 => 17529,
        67 => 18543,
        68 => 17778,
        69 => 21613,
        70 => 22882,
        71 => 19573,
        72 => 18534,
        73 => 21601,
        74 => 22272,
        75 => 21093,
        76 => 20339,
        77 => 18802,
        78 => 20596,
        79 => 16757,
        80 => 18535,
        81 => 21612,
        82 => 20578,
        83 => 17001,
        84 => 20591,
        85 => 16756,
        86 => 21102,
        87 => 18034,
        88 => 21089,
        89 => 16739,
        90 => 21608,
        91 => 20577,
        92 => 21760,
        93 => 20080,
        94 => 20597,
        95 => 16749,
        96 => 17261,
        97 => 17003,
        98 => 17254,
        99 => 17779,
        100 => 18029,
        101 => 19812,
        102 => 20079,
        103 => 19570,
        _ => 0,
    }
}

/// The chemical symbol of element `z` (1 to 103).
pub fn element_symbol(z: i32) -> (r: String)
    requires
        1 <= z <= 103,
    ensures
        r@ == symbol_of(z as int),
{
    let c = symbol_code_exec(z);
    proof {
        lemma_symbol_table(z as int);
    }
    let mut r = String::new();
    let hi = (c / 256) as u8;
    let lo = (c % 256) as u8;
    crate::text::push_char(&mut r, hi as char);
    if lo != 0 {
        crate::text::push_char(&mut r, lo as char);
    }
    proof {
        if lo == 0 {
            assert(r@ =~= chars_of_code(c as int));
        } else {
            assert(r@ =~= chars_of_code(c as int));
        }
    }
    r
}

} // verus!
