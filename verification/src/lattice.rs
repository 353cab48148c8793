use vstd::prelude::*;

verus! {

pub open spec fn neg_part(x: int) -> int {
    if x < 0 { x } else { 0 }
}

pub open spec fn pos_part(x: int) -> int {
    if x > 0 { x } else { 0 }
}

/// Component `ax` of `M n` for a corner `n` of the unit cube, `M` given by
/// its rows.
pub open spec fn corner_value(row: [i32; 3], n0: bool, n1: bool, n2: bool) -> int {
    (if n0 { row[0] as int } else { 0 }) + (if n1 { row[1] as int } else { 0 }) + (if n2 { row[2] as int } else { 0 })
}

/// The rows are small enough that every corner sum, one more and one less,
/// fits in an `i32`.
pub open spec fn small_rows(m: [[i32; 3]; 3]) -> bool {
    forall|ax: int| 0 <= ax < 3 ==> {
        &&& neg_part(m[ax][0] as int) + neg_part(m[ax][1] as int) + neg_part(m[ax][2] as int) - 1 >= i32::MIN
        &&& pos_part(m[ax][0] as int) + pos_part(m[ax][1] as int) + pos_part(m[ax][2] as int) + 1 <= i32::MAX
    }
}

/// The integer box, padded by one on each side, that holds the images
/// `M n` of the eight corners `n` of the unit cube: lattice translations
/// in it reach every point of the cell that `M` defines. Axis `ax` spans
/// from the sum of the negative entries of row `ax` minus one to the sum of
/// its positive entries plus one.
pub fn corner_bounds(m: [[i32; 3]; 3]) -> (r: ([i32; 3], [i32; 3]))
    requires
        small_rows(m),
    ensures
        forall|ax: int| 0 <= ax < 3 ==> r.0[ax] == neg_part(m[ax][0] as int) + neg_part(m[ax][1] as int) + neg_part(
            m[ax][2] as int,
        ) - 1,
        forall|ax: int| 0 <= ax < 3 ==> r.1[ax] == pos_part(m[ax][0] as int) + pos_part(m[ax][1] as int) + pos_part(
            m[ax][2] as int,
        ) + 1,
{
    let mut lo: [i32; 3] = [0, 0, 0];
    let mut hi: [i32; 3] = [0, 0, 0];
    let mut ax: usize = 0;
    while ax < 3
        invariant
            ax <= 3,
            small_rows(m),
            forall|a: int| 0 <= a < ax ==> lo[a] == neg_part(m[a][0] as int) + neg_part(m[a][1] as int) + neg_part(
                m[a][2] as int,
            ) - 1,
            forall|a: int| 0 <= a < ax ==> hi[a] == pos_part(m[a][0] as int) + pos_part(m[a][1] as int) + pos_part(
                m[a][2] as int,
            ) + 1,
        decreases 3 - ax,
    {
        assert(0 <= ax < 3);
        let row = m[ax];
        let mut l: i64 = -1;
        let mut h: i64 = 1;
        let mut j: usize = 0;
        while j < 3
            invariant
                j <= 3,
                l == (if j > 0 { neg_part(row[0] as int) } else { 0 }) + (if j > 1 { neg_part(row[1] as int) } else { 0 }) - 1
                    + (if j > 2 { neg_part(row[2] as int) } else { 0 }),
                h == (if j > 0 { pos_part(row[0] as int) } else { 0 }) + (if j > 1 { pos_part(row[1] as int) } else { 0 }) + 1
                    + (if j > 2 { pos_part(row[2] as int) } else { 0 }),
            decreases 3 - j,
        {
            let x = row[j] as i64;
            if x < 0 {
                l = l + x;
            } else {
                h = h + x;
            }
            j = j + 1;
        }
        lo.set(ax, l as i32);
        hi.set(ax, h as i32);
        ax = ax + 1;
    }
    (lo, hi)
}

/// The search box is tight and covers the cell: every corner image lies
/// strictly inside it, and its bounds, one in from each side, are corner
/// images themselves.
pub proof fn lemma_corner_bounds_cover(row: [i32; 3])
    ensures
        forall|n0: bool, n1: bool, n2: bool| #[trigger] corner_value(row, n0, n1, n2) >= neg_part(row[0] as int)
            + neg_part(row[1] as int) + neg_part(row[2] as int),
        forall|n0: bool, n1: bool, n2: bool| #[trigger] corner_value(row, n0, n1, n2) <= pos_part(row[0] as int)
            + pos_part(row[1] as int) + pos_part(row[2] as int),
        corner_value(row, row[0] < 0, row[1] < 0, row[2] < 0) == neg_part(row[0] as int) + neg_part(row[1] as int)
            + neg_part(row[2] as int),
        corner_value(row, row[0] > 0, row[1] > 0, row[2] > 0) == pos_part(row[0] as int) + pos_part(row[1] as int)
            + pos_part(row[2] as int),
{
}

} // verus!
