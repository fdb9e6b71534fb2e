//! Axis-aligned boxes given by centre and full size. Comparisons are made on
//! doubled coordinates so that odd sizes need no rounding.
use vstd::prelude::*;

verus! {

/// Whether the open intervals of centres `a`, `b` and widths `aw`, `bw` overlap.
pub open spec fn spans_overlap(a: int, aw: int, b: int, bw: int) -> bool {
    2 * a - aw < 2 * b + bw && 2 * a + aw > 2 * b - bw
}

/// Whether two boxes overlap on both axes (touching edges do not count).
pub open spec fn boxes_overlap(
    ax: int,
    ay: int,
    aw: int,
    ah: int,
    bx: int,
    by: int,
    bw: int,
    bh: int,
) -> bool {
    spans_overlap(ax, aw, bx, bw) && spans_overlap(ay, ah, by, bh)
}

/// Bound on the coordinates and sizes handed to the executable tests.
pub open spec fn in_range(v: i128) -> bool {
    -0x1_0000_0000_0000_0000_0000 <= v <= 0x1_0000_0000_0000_0000_0000
}

pub fn spans_overlap_exec(a: i128, aw: i128, b: i128, bw: i128) -> (r: bool)
    requires
        in_range(a),
        in_range(aw),
        in_range(b),
        in_range(bw),
    ensures
        r == spans_overlap(a as int, aw as int, b as int, bw as int),
{
    2 * a - aw < 2 * b + bw && 2 * a + aw > 2 * b - bw
}

/// Overlap of two boxes whose coordinates and sizes are `i64` values.
pub fn boxes_overlap_exec(
    ax: i64,
    ay: i64,
    aw: i64,
    ah: i64,
    bx: i64,
    by: i64,
    bw: i64,
    bh: i64,
) -> (r: bool)
    ensures
        r == boxes_overlap(
            ax as int,
            ay as int,
            aw as int,
            ah as int,
            bx as int,
            by as int,
            bw as int,
            bh as int,
        ),
{
    spans_overlap_exec(ax as i128, aw as i128, bx as i128, bw as i128) && spans_overlap_exec(
        ay as i128,
        ah as i128,
        by as i128,
        bh as i128,
    )
}

} // verus!
