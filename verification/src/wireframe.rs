//! Geometry of the static wireframe reference cell.
//!
//! The reference cell is the cube `[-1, 1]^3` that frames the particle
//! cloud. Its wireframe is a line list: consecutive pairs of vertices are
//! line segments, eight edges tracing the bottom and top rings of the
//! cube. Coordinates are exact corner values; the caller converts them to
//! the vertex format its pipeline wants.

use vstd::prelude::*;

verus! {

/// The sixteen edge endpoints of the reference cell's line list, in draw
/// order: vertices `2k` and `2k + 1` are the `k`-th line segment.
pub open spec fn spec_cell_edge_vertices() -> Seq<(i32, i32, i32)> {
    seq![
        (-1i32, -1i32, -1i32), (1i32, -1i32, -1i32),
        (-1i32, -1i32, -1i32), (-1i32, -1i32, 1i32),
        (-1i32, -1i32, 1i32), (1i32, -1i32, 1i32),
        (1i32, -1i32, 1i32), (1i32, -1i32, -1i32),
        (-1i32, 1i32, -1i32), (1i32, 1i32, -1i32),
        (-1i32, 1i32, -1i32), (-1i32, 1i32, 1i32),
        (-1i32, 1i32, 1i32), (1i32, 1i32, 1i32),
        (1i32, 1i32, 1i32), (1i32, 1i32, -1i32),
    ]
}

/// Builds the wireframe vertex list: exactly the sixteen corner endpoints
/// of the cell's bottom and top edge rings, in draw order.
pub fn cell_edge_vertices() -> (v: Vec<(i32, i32, i32)>)
    ensures
        v@ == spec_cell_edge_vertices(),
        v@.len() == 16,
{
    let mut v: Vec<(i32, i32, i32)> = Vec::new();
    v.push((-1, -1, -1));
    v.push((1, -1, -1));
    v.push((-1, -1, -1));
    v.push((-1, -1, 1));
    v.push((-1, -1, 1));
    v.push((1, -1, 1));
    v.push((1, -1, 1));
    v.push((1, -1, -1));
    v.push((-1, 1, -1));
    v.push((1, 1, -1));
    v.push((-1, 1, -1));
    v.push((-1, 1, 1));
    v.push((-1, 1, 1));
    v.push((1, 1, 1));
    v.push((1, 1, 1));
    v.push((1, 1, -1));
    proof {
        assert(v@ =~= spec_cell_edge_vertices());
    }
    v
}

} // verus!
