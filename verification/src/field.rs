//! Field-volume grid enumeration.
//!
//! The field synthesizer bakes one vector sample per cell of a `w x h x d`
//! grid. Cells are visited in linear-index order; each index decodes into
//! `(x, y, z)` grid coordinates, which the bake then maps to a sample
//! position in `[-1, 1]^3` and a field vector (floating-point work done by
//! the caller). This module pins the decode and guarantees that the bake
//! enumerates exactly `w * h * d` cells, each exactly once.

use vstd::arithmetic::div_mod::{
    lemma_div_denominator, lemma_div_pos_is_pos, lemma_fundamental_div_mod,
    lemma_mod_division_less_than_divisor, lemma_multiply_divide_lt,
};
use vstd::prelude::*;

verus! {

/// Grid resolution used along every axis when the context bakes its field
/// volume.
pub const FIELD_GRID_SIDE: u32 = 64;

/// Point charges drawn for one field bake.
pub const FIELD_CHARGE_COUNT: u32 = 6;

/// Column of the cell with linear index `i` in a grid `w` cells wide.
pub open spec fn spec_cell_x(i: int, w: int) -> int {
    i % w
}

/// Row of the cell with linear index `i`.
pub open spec fn spec_cell_y(i: int, w: int, h: int) -> int {
    (i / w) % h
}

/// Slice of the cell with linear index `i`.
pub open spec fn spec_cell_z(i: int, w: int, h: int) -> int {
    i / (w * h)
}

/// The decoded coordinates of index `i` lie inside the grid and recombine
/// to `i`: the decode is a bijection between `[0, w * h * d)` and the grid.
pub proof fn lemma_cell_decode(i: int, w: int, h: int, d: int)
    requires
        1 <= w,
        1 <= h,
        1 <= d,
        0 <= i < w * h * d,
    ensures
        0 <= spec_cell_x(i, w) < w,
        0 <= spec_cell_y(i, w, h) < h,
        0 <= spec_cell_z(i, w, h) < d,
        i == spec_cell_x(i, w) + w * (spec_cell_y(i, w, h) + h * spec_cell_z(i, w, h)),
{
    lemma_mod_division_less_than_divisor(i, w);
    lemma_mod_division_less_than_divisor(i / w, h);
    lemma_div_denominator(i, w, h);
    assert(i < (w * h) * d) by (nonlinear_arith)
        requires i < w * h * d,
    ;
    lemma_multiply_divide_lt(i, w * h, d);
    lemma_div_pos_is_pos(i, w);
    lemma_div_pos_is_pos(i / w, h);
    lemma_fundamental_div_mod(i, w);
    lemma_fundamental_div_mod(i / w, h);
    assert(i == spec_cell_x(i, w) + w * (spec_cell_y(i, w, h) + h * spec_cell_z(i, w, h)))
        by (nonlinear_arith)
        requires
            i == w * (i / w) + i % w,
            i / w == h * ((i / w) / h) + (i / w) % h,
            spec_cell_x(i, w) == i % w,
            spec_cell_y(i, w, h) == (i / w) % h,
            spec_cell_z(i, w, h) == (i / w) / h,
    ;
}

/// Decodes the linear cell index `i` into `(x, y, z)` grid coordinates.
pub fn cell_coords(i: u32, w: u32, h: u32, d: u32) -> (c: (u32, u32, u32))
    requires
        1 <= w,
        1 <= h,
        1 <= d,
        i < w * h * d,
    ensures
        c.0 == spec_cell_x(i as int, w as int),
        c.1 == spec_cell_y(i as int, w as int, h as int),
        c.2 == spec_cell_z(i as int, w as int, h as int),
        c.0 < w,
        c.1 < h,
        c.2 < d,
        i == c.0 + w * (c.1 + h * c.2),
{
    let x: u32 = i % w;
    let rest: u32 = i / w;
    let y: u32 = rest % h;
    let z: u32 = rest / h;
    proof {
        lemma_div_denominator(i as int, w as int, h as int);
        lemma_cell_decode(i as int, w as int, h as int, d as int);
    }
    (x, y, z)
}

/// Enumerates the grid coordinates of every cell of a `w x h x d` field
/// volume, in linear-index order: exactly `w * h * d` entries, the `k`-th
/// being the decode of index `k`. The bake maps each entry to one sample,
/// so a baked volume holds exactly `w * h * d` samples whatever the charge
/// set is.
pub fn field_cell_coords(w: u32, h: u32, d: u32) -> (cells: Vec<(u32, u32, u32)>)
    requires
        1 <= w,
        1 <= h,
        1 <= d,
        w * h * d <= u32::MAX,
    ensures
        cells@.len() == w * h * d,
        forall|k: int| 0 <= k < cells@.len() ==> #[trigger] cells@[k] == (
            spec_cell_x(k, w as int) as u32,
            spec_cell_y(k, w as int, h as int) as u32,
            spec_cell_z(k, w as int, h as int) as u32,
        ),
        forall|k1: int, k2: int|
            0 <= k1 < cells@.len() && 0 <= k2 < cells@.len() && k1 != k2
                ==> #[trigger] cells@[k1] != #[trigger] cells@[k2],
{
    proof {
        assert(w * h <= w * h * d && w * h >= 1) by (nonlinear_arith)
            requires 1 <= w, 1 <= h, 1 <= d,
        ;
    }
    let wh: u32 = w * h;
    let total: u32 = wh * d;
    let mut cells: Vec<(u32, u32, u32)> = Vec::new();
    let mut k: u32 = 0;
    while k < total
        invariant
            1 <= w,
            1 <= h,
            1 <= d,
            total == w * h * d,
            total <= u32::MAX,
            k <= total,
            cells@.len() == k,
            forall|j: int| 0 <= j < k ==> #[trigger] cells@[j] == (
                spec_cell_x(j, w as int) as u32,
                spec_cell_y(j, w as int, h as int) as u32,
                spec_cell_z(j, w as int, h as int) as u32,
            ),
        decreases total - k,
    {
        let c = cell_coords(k, w, h, d);
        cells.push(c);
        k = k + 1;
    }
    proof {
        assert forall|k1: int, k2: int|
            0 <= k1 < cells@.len() && 0 <= k2 < cells@.len() && k1 != k2
                implies #[trigger] cells@[k1] != #[trigger] cells@[k2] by {
            lemma_cell_decode(k1, w as int, h as int, d as int);
            lemma_cell_decode(k2, w as int, h as int, d as int);
        }
    }
    cells
}

} // verus!
