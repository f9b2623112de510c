//! The packing guarantees of the atlases, stated as laws and proved.
//!
//! The free atlas' non-overlap law lives with the free atlas itself; the
//! laws here concern the grid atlas' write cursor — every insert gets a
//! cell of its own, in row-major order, until the grid's capacity is
//! reached — and the placement transform's round trip.

use vstd::prelude::*;

use crate::atlas::{
    bearing_left_of, bearing_top_of, grid_off_x, grid_off_y, CellDims, GridAtlas,
};
use crate::glyph::RasterizedGlyph;

verus! {

/// The atlas line that the `k`-th successful insert into a fresh grid
/// atlas of `gx` columns receives: inserts fill cells in row-major rank
/// order starting at rank 1, past the reserved sentinel cell.
pub open spec fn grid_placement_line(gx: int, k: int) -> int {
    (1 + k) / gx
}

/// The atlas column that the `k`-th successful insert receives.
pub open spec fn grid_placement_column(gx: int, k: int) -> int {
    (1 + k) % gx
}

/// A cell's row-major rank determines the cell: line and column are
/// recovered from `line * gx + column` by division and remainder.
pub proof fn lemma_grid_cursor_from_linear(line: int, column: int, gx: int)
    requires
        1 <= gx,
        0 <= column < gx,
        0 <= line,
    ensures
        line == (line * gx + column) / gx,
        column == (line * gx + column) % gx,
{
    vstd::arithmetic::div_mod::lemma_fundamental_div_mod_converse(
        line * gx + column,
        gx,
        line,
        column,
    );
}

/// Packing density: two different inserts into a fresh grid atlas never
/// receive the same cell.
pub proof fn lemma_grid_placements_distinct(gx: int, k1: int, k2: int)
    requires
        1 <= gx,
        0 <= k1 < k2,
    ensures
        !(grid_placement_line(gx, k1) == grid_placement_line(gx, k2) && grid_placement_column(
            gx,
            k1,
        ) == grid_placement_column(gx, k2)),
{
    vstd::arithmetic::div_mod::lemma_fundamental_div_mod(1 + k1, gx);
    vstd::arithmetic::div_mod::lemma_fundamental_div_mod(1 + k2, gx);
}

/// The `k`-th successful insert into a fresh usable grid atlas, for `k`
/// below the capacity `gx * gy - 1`, lands inside the grid, never on the
/// reserved `(0, 0)` sentinel, and the very first insert lands on
/// `(0, 1)`.
pub proof fn lemma_grid_placement_at(gx: int, gy: int, k: int)
    requires
        2 <= gx,
        1 <= gy,
        0 <= k < gx * gy - 1,
    ensures
        0 <= grid_placement_line(gx, k) < gy,
        0 <= grid_placement_column(gx, k) < gx,
        !(grid_placement_line(gx, k) == 0 && grid_placement_column(gx, k) == 0),
        grid_placement_line(gx, k) * gx + grid_placement_column(gx, k) == 1 + k,
        k == 0 ==> grid_placement_line(gx, k) == 0 && grid_placement_column(gx, k) == 1,
{
    let q = (1 + k) / gx;
    let r = (1 + k) % gx;
    vstd::arithmetic::div_mod::lemma_fundamental_div_mod(1 + k, gx);
    vstd::arithmetic::div_mod::lemma_mod_bound(1 + k, gx);
    vstd::arithmetic::div_mod::lemma_div_pos_is_pos(1 + k, gx);
    assert(q < gy) by {
        if q >= gy {
            vstd::arithmetic::mul::lemma_mul_inequality(gy, q, gx);
            assert(gy * gx <= q * gx);
            vstd::arithmetic::mul::lemma_mul_is_commutative(gy, gx);
            vstd::arithmetic::mul::lemma_mul_is_commutative(q, gx);
        }
    }
    if q == 0 && r == 0 {
        assert(1 + k == gx * 0 + 0);
        assert(false);
    }
    if k == 0 {
        vstd::arithmetic::div_mod::lemma_fundamental_div_mod_converse(1, gx, 0, 1);
    }
    vstd::arithmetic::mul::lemma_mul_is_commutative(q, gx);
}

/// Capacity: a well-formed, usable grid atlas has a free cell exactly
/// while its write cursor's rank is below the grid's cell count; with
/// rank starting at 1 for a fresh atlas, exactly `gx * gy - 1` inserts
/// succeed before the atlas reports itself full.
pub proof fn lemma_grid_atlas_capacity(a: GridAtlas)
    requires
        a.wf(),
        a.spec_grid_size().x >= 2,
    ensures
        a.spec_has_space() <==> a.spec_linear() < a.spec_grid_size().x * a.spec_grid_size().y,
{
    a.lemma_wf_facts();
    let gx = a.spec_grid_size().x as int;
    let gy = a.spec_grid_size().y as int;
    let l = a.spec_free_line();
    let c = a.spec_free_column();
    assert(0 <= c < gx);
    if l < gy {
        vstd::arithmetic::mul::lemma_mul_inequality(l + 1, gy, gx);
        vstd::arithmetic::mul::lemma_mul_is_distributive_add_other_way(gx, l, 1);
        vstd::arithmetic::mul::lemma_mul_is_commutative(gy, gx);
    } else {
        vstd::arithmetic::mul::lemma_mul_inequality(gy, l, gx);
        vstd::arithmetic::mul::lemma_mul_is_commutative(gy, gx);
    }
}

/// Round-trip placement: the in-cell offsets a glyph's bearings produce
/// recover those bearings exactly under the inverse transform, so a
/// placement loses no metric information and placing equal glyphs is
/// reproducible.
pub proof fn lemma_placement_round_trip(d: CellDims, g: RasterizedGlyph)
    ensures
        bearing_left_of(d, grid_off_x(d, g)) == g.left,
        bearing_top_of(d, grid_off_y(d, g)) == g.top,
{
}

} // verus!
