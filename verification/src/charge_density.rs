use vstd::prelude::*;

verus! {

/// Which density channel to visualize.
#[derive(Clone, Copy, Debug, PartialEq, Eq, Structural)]
pub enum DensityChannel {
    Total,
    SpinUp,
    SpinDown,
    Magnetization,
}

pub open spec fn channel_label(c: DensityChannel) -> Seq<char> {
    match c {
        DensityChannel::Total => "Total"@,
        DensityChannel::SpinUp => "Spin-up"@,
        DensityChannel::SpinDown => "Spin-down"@,
        DensityChannel::Magnetization => "Magnetization"@,
    }
}

impl DensityChannel {
    /// The name of the channel shown in the interface.
    pub fn label(&self) -> (r: &'static str)
        ensures
            r@ == channel_label(*self),
    {
        match self {
            Self::Total => "Total",
            Self::SpinUp => "Spin-up",
            Self::SpinDown => "Spin-down",
            Self::Magnetization => "Magnetization",
        }
    }

    /// Whether the channel takes both signs, and so wants a diverging colormap.
    pub fn is_diverging(&self) -> (r: bool)
        ensures
            r == (*self == DensityChannel::Magnetization),
    {
        *self == Self::Magnetization
    }
}

/// Which crystallographic plane to slice along.
#[derive(Clone, Copy, Debug, PartialEq, Eq, Structural)]
pub enum SlicePlane {
    /// Perpendicular to the c axis (constant fractional z).
    XY,
    /// Perpendicular to the b axis (constant fractional y).
    XZ,
    /// Perpendicular to the a axis (constant fractional x).
    YZ,
}

/// Spacing of isoline thresholds.
#[derive(Clone, Copy, Debug, PartialEq, Eq, Structural)]
pub enum ThresholdMode {
    Linear,
    Logarithmic,
}


/// A side of a grid cell, where an isoline enters or leaves it.
#[derive(Clone, Copy, Debug, PartialEq, Eq, Structural)]
pub enum CellEdge {
    /// Between the corners (row, col) and (row, col + 1).
    Top,
    /// Between the corners (row + 1, col) and (row + 1, col + 1).
    Bottom,
    /// Between the corners (row, col) and (row + 1, col).
    Left,
    /// Between the corners (row, col + 1) and (row + 1, col + 1).
    Right,
}

/// The marching-squares case of a cell: bit 0 for the corner (row, col)
/// above the threshold, bit 1 for (row, col + 1), bit 2 for
/// (row + 1, col + 1), bit 3 for (row + 1, col).
pub open spec fn case_of(a00: bool, a01: bool, a11: bool, a10: bool) -> int {
    (if a00 { 1int } else { 0 }) + (if a01 { 2int } else { 0 }) + (if a11 { 4int } else { 0 }) + (if a10 { 8int } else { 0 })
}

/// The isoline segments through a cell, as pairs of edges, by case. The
/// two saddle cases are resolved by whether the mean of the corners lies
/// above the threshold (`centre`).
pub open spec fn segments_of(case: int, centre: bool) -> Seq<(CellEdge, CellEdge)> {
    if case == 1 || case == 14 {
        seq![(CellEdge::Top, CellEdge::Left)]
    } else if case == 2 || case == 13 {
        seq![(CellEdge::Top, CellEdge::Right)]
    } else if case == 3 || case == 12 {
        seq![(CellEdge::Left, CellEdge::Right)]
    } else if case == 4 || case == 11 {
        seq![(CellEdge::Bottom, CellEdge::Right)]
    } else if case == 6 || case == 9 {
        seq![(CellEdge::Top, CellEdge::Bottom)]
    } else if case == 7 || case == 8 {
        seq![(CellEdge::Bottom, CellEdge::Left)]
    } else if case == 5 {
        if centre {
            seq![(CellEdge::Top, CellEdge::Right), (CellEdge::Bottom, CellEdge::Left)]
        } else {
            seq![(CellEdge::Top, CellEdge::Left), (CellEdge::Bottom, CellEdge::Right)]
        }
    } else if case == 10 {
        if centre {
            seq![(CellEdge::Top, CellEdge::Left), (CellEdge::Bottom, CellEdge::Right)]
        } else {
            seq![(CellEdge::Top, CellEdge::Right), (CellEdge::Bottom, CellEdge::Left)]
        }
    } else {
        seq![]
    }
}

/// The isoline segments through one grid cell, given which corners lie above
/// the threshold and, for the saddle cases, whether the cell's mean does.
pub fn cell_segments(a00: bool, a01: bool, a11: bool, a10: bool, centre: bool) -> (r: Vec<(CellEdge, CellEdge)>)
    ensures
        r@ == segments_of(case_of(a00, a01, a11, a10), centre),
{
    let case: u8 = (if a00 { 1 } else { 0 }) + (if a01 { 2 } else { 0 }) + (if a11 { 4 } else { 0 }) + (if a10 { 8 } else { 0 });
    let r = if case == 1 || case == 14 {
        vec![(CellEdge::Top, CellEdge::Left)]
    } else if case == 2 || case == 13 {
        vec![(CellEdge::Top, CellEdge::Right)]
    } else if case == 3 || case == 12 {
        vec![(CellEdge::Left, CellEdge::Right)]
    } else if case == 4 || case == 11 {
        vec![(CellEdge::Bottom, CellEdge::Right)]
    } else if case == 6 || case == 9 {
        vec![(CellEdge::Top, CellEdge::Bottom)]
    } else if case == 7 || case == 8 {
        vec![(CellEdge::Bottom, CellEdge::Left)]
    } else if case == 5 {
        if centre {
            vec![(CellEdge::Top, CellEdge::Right), (CellEdge::Bottom, CellEdge::Left)]
        } else {
            vec![(CellEdge::Top, CellEdge::Left), (CellEdge::Bottom, CellEdge::Right)]
        }
    } else if case == 10 {
        if centre {
            vec![(CellEdge::Top, CellEdge::Left), (CellEdge::Bottom, CellEdge::Right)]
        } else {
            vec![(CellEdge::Top, CellEdge::Right), (CellEdge::Bottom, CellEdge::Left)]
        }
    } else {
        Vec::new()
    };
    assert(r@ =~= segments_of(case_of(a00, a01, a11, a10), centre));
    r
}

/// The corners of an edge lie on opposite sides of the threshold.
pub open spec fn crosses(e: CellEdge, a00: bool, a01: bool, a11: bool, a10: bool) -> bool {
    match e {
        CellEdge::Top => a00 != a01,
        CellEdge::Bottom => a10 != a11,
        CellEdge::Left => a00 != a10,
        CellEdge::Right => a01 != a11,
    }
}

/// How many segment ends lie on edge `e`.
pub open spec fn ends_on(segs: Seq<(CellEdge, CellEdge)>, e: CellEdge) -> int
    decreases segs.len(),
{
    if segs.len() == 0 {
        0
    } else {
        ends_on(segs.drop_last(), e) + (if segs.last().0 == e { 1int } else { 0 }) + (if segs.last().1 == e { 1int } else { 0 })
    }
}

/// The isoline is consistent across cells: within a cell it ends exactly once
/// on each edge whose corners lie on opposite sides of the threshold, and
/// never on any other edge, whatever way a saddle is resolved. Neighbouring
/// cells share their edges, so the segments join into continuous lines.
pub proof fn lemma_segments_end_on_crossed_edges(a00: bool, a01: bool, a11: bool, a10: bool, centre: bool, e: CellEdge)
    ensures
        ends_on(segments_of(case_of(a00, a01, a11, a10), centre), e) == (if crosses(e, a00, a01, a11, a10) { 1int } else { 0 }),
{
    let segs = segments_of(case_of(a00, a01, a11, a10), centre);
    reveal_with_fuel(ends_on, 3);
    if segs.len() == 2 {
        assert(segs.drop_last().drop_last() =~= Seq::<(CellEdge, CellEdge)>::empty());
    } else if segs.len() == 1 {
        assert(segs.drop_last() =~= Seq::<(CellEdge, CellEdge)>::empty());
    }
}

/// The state of a corner: 0 for (row, col), 1 for (row, col + 1), 2 for
/// (row + 1, col + 1), 3 for (row + 1, col).
pub open spec fn corner_state(c: int, a00: bool, a01: bool, a11: bool, a10: bool) -> bool {
    if c == 0 {
        a00
    } else if c == 1 {
        a01
    } else if c == 2 {
        a11
    } else {
        a10
    }
}

/// Corner `c` lies on the other side of the threshold from the other three.
pub open spec fn lone_corner(c: int, a00: bool, a01: bool, a11: bool, a10: bool) -> bool {
    forall|d: int|
        0 <= d < 4 && d != c ==> #[trigger] corner_state(d, a00, a01, a11, a10) != corner_state(c, a00, a01, a11, a10)
}

/// The corner two edges meet at, if they are adjacent sides of the cell.
pub open spec fn meeting_corner(e1: CellEdge, e2: CellEdge) -> Option<int> {
    if (e1 == CellEdge::Top && e2 == CellEdge::Left) || (e1 == CellEdge::Left && e2 == CellEdge::Top) {
        Some(0)
    } else if (e1 == CellEdge::Top && e2 == CellEdge::Right) || (e1 == CellEdge::Right && e2 == CellEdge::Top) {
        Some(1)
    } else if (e1 == CellEdge::Bottom && e2 == CellEdge::Right) || (e1 == CellEdge::Right && e2 == CellEdge::Bottom) {
        Some(2)
    } else if (e1 == CellEdge::Bottom && e2 == CellEdge::Left) || (e1 == CellEdge::Left && e2 == CellEdge::Bottom) {
        Some(3)
    } else {
        None
    }
}

/// How the isoline divides a cell. When one corner lies on the other side
/// of the threshold from the other three, one segment cuts that corner off.
/// When two neighbouring corners lie above and the other two below, one
/// segment crosses the cell between the pairs. In a saddle (diagonal
/// corners alike, neighbours unlike) two segments each cut off a corner on
/// the other side of the threshold from the cell's mean, so that the
/// corners on the mean's side stay joined through the centre. A cell whose
/// corners all lie on one side has no segment.
pub proof fn lemma_segments_separate_corners(a00: bool, a01: bool, a11: bool, a10: bool, centre: bool)
    ensures
        ({
            let segs = segments_of(case_of(a00, a01, a11, a10), centre);
            &&& (a00 == a01 && a01 == a11 && a11 == a10) ==> segs.len() == 0
            &&& (forall|c: int| 0 <= c < 4 && #[trigger] lone_corner(c, a00, a01, a11, a10) ==> segs.len() == 1 && meeting_corner(segs[0].0, segs[0].1)
                == Some(c))
            &&& ((a00 == a01 && a11 == a10 && a00 != a10) ==> segs.len() == 1 && (segs[0] == (CellEdge::Left, CellEdge::Right)
                || segs[0] == (CellEdge::Right, CellEdge::Left)))
            &&& ((a00 == a10 && a01 == a11 && a00 != a01) ==> segs.len() == 1 && (segs[0] == (CellEdge::Top, CellEdge::Bottom)
                || segs[0] == (CellEdge::Bottom, CellEdge::Top)))
            &&& ((a00 == a11 && a01 == a10 && a00 != a01) ==> segs.len() == 2 && (forall|k: int|
                0 <= k < 2 ==> #[trigger] meeting_corner(segs[k].0, segs[k].1) is Some && corner_state(
                    meeting_corner(segs[k].0, segs[k].1)->0, a00, a01, a11, a10,
                ) != centre) && meeting_corner(segs[0].0, segs[0].1) != meeting_corner(segs[1].0, segs[1].1))
        }),
{
    let segs = segments_of(case_of(a00, a01, a11, a10), centre);
    assert(corner_state(0, a00, a01, a11, a10) == a00);
    assert(corner_state(1, a00, a01, a11, a10) == a01);
    assert(corner_state(2, a00, a01, a11, a10) == a11);
    assert(corner_state(3, a00, a01, a11, a10) == a10);
    assert forall|c: int| 0 <= c < 4 && #[trigger] lone_corner(c, a00, a01, a11, a10) implies segs.len() == 1
        && meeting_corner(segs[0].0, segs[0].1) == Some(c) by {
        if c == 0 {
            assert(a01 != a00 && a11 != a00 && a10 != a00);
        } else if c == 1 {
            assert(a00 != a01 && a11 != a01 && a10 != a01);
        } else if c == 2 {
            assert(a00 != a11 && a01 != a11 && a10 != a11);
        } else {
            assert(a00 != a10 && a01 != a10 && a11 != a10);
        }
    }
    if a00 == a11 && a01 == a10 && a00 != a01 {
        assert(segs.len() == 2);
        assert(meeting_corner(segs[0].0, segs[0].1) is Some);
        assert(meeting_corner(segs[1].0, segs[1].1) is Some);
    }
}

} // verus!
