//! Properties of the Game of Life rules that hold for every grid.

use vstd::prelude::*;
use crate::game_of_life::{
    alive_neighbors, cell_index, glider_rotation, in_pattern, neighbor_alive, next_cell, next_state,
    placed, row_count, rows_count, scan_offset, wrap_coord, ALIVE, DYING, FADE_STEP,
};

verus! {

/// A cell has at most eight live neighbours: the cell itself is never
/// counted among the nine scan positions.
pub proof fn alive_neighbors_at_most_eight(grid: Seq<u8>, x: int, y: int, w: int, h: int)
    ensures
        alive_neighbors(grid, x, y, w, h) <= 8,
{
    reveal_with_fuel(rows_count, 4);
    reveal_with_fuel(row_count, 4);
    assert(!neighbor_alive(grid, x, y, w, h, 1, 1));
}

/// Apart from birth and survival, a cell never gets brighter: a cell that
/// does not come out alive ends with a value no larger than it had.
pub proof fn cells_only_fade(cell: u8, n: nat)
    ensures
        next_cell(cell, n) == ALIVE || next_cell(cell, n) <= cell,
        cell == ALIVE ==> next_cell(cell, n) == ALIVE || next_cell(cell, n) == DYING,
        cell != ALIVE && cell != 0 && n != 3 ==> next_cell(cell, n) == if cell >= FADE_STEP {
            (cell - FADE_STEP) as u8
        } else {
            0
        },
{
}

proof fn row_count_of_empty(grid: Seq<u8>, x: int, y: int, w: int, h: int, j: int, i: int)
    requires
        w >= 1,
        h >= 1,
        w * h <= grid.len(),
        0 <= j < 3,
        0 <= i <= 3,
        forall|k: int| 0 <= k < w * h ==> grid[k] == 0,
    ensures
        row_count(grid, x, y, w, h, j, i) == 0,
    decreases i,
{
    if i > 0 {
        row_count_of_empty(grid, x, y, w, h, j, i - 1);
        let nx = wrap_coord(x, scan_offset(i - 1, w), w);
        let ny = wrap_coord(y, scan_offset(j, h), h);
        crate::game_of_life::lemma_cell_in_grid(nx, ny, w, h);
    }
}

/// A grid whose cells are all dead stays dead: every cell of it is dead on
/// the next step.
pub proof fn empty_grid_stays_empty(grid: Seq<u8>, w: int, h: int)
    requires
        w >= 1,
        h >= 1,
        w * h <= grid.len(),
        forall|k: int| 0 <= k < w * h ==> grid[k] == 0,
    ensures
        forall|x: int, y: int| 0 <= x < w && 0 <= y < h ==> #[trigger] next_state(grid, x, y, w, h) == 0,
{
    assert forall|x: int, y: int| 0 <= x < w && 0 <= y < h implies #[trigger] next_state(grid, x, y, w, h) == 0 by {
        row_count_of_empty(grid, x, y, w, h, 0, 3);
        row_count_of_empty(grid, x, y, w, h, 1, 3);
        row_count_of_empty(grid, x, y, w, h, 2, 3);
        reveal_with_fuel(rows_count, 4);
        crate::game_of_life::lemma_cell_in_grid(x, y, w, h);
    }
}

proof fn wrap_shift(x: int, a: int, d: int, w: int)
    requires
        w >= 1,
    ensures
        wrap_coord(wrap_coord(x, a, w), d, w) == wrap_coord(wrap_coord(x, d, w), a, w),
{
    // both sides equal (x + a + d) % w
    vstd::arithmetic::div_mod::lemma_add_mod_noop_right(d, x + a, w);
    vstd::arithmetic::div_mod::lemma_add_mod_noop_right(a, x + d, w);
    assert(((x + a) % w + d) % w == (d + (x + a) % w) % w);
    assert(((x + d) % w + a) % w == (a + (x + d) % w) % w);
    assert(d + (x + a) == a + (x + d));
}

/// Whether `moved` is `grid` translated by `(a, b)` on the `w` by `h` torus.
pub open spec fn translated(grid: Seq<u8>, moved: Seq<u8>, a: int, b: int, w: int, h: int) -> bool {
    forall|x: int, y: int|
        0 <= x < w && 0 <= y < h ==> #[trigger] moved[cell_index(wrap_coord(x, a, w), wrap_coord(y, b, h), w)]
            == grid[cell_index(x, y, w)]
}

proof fn row_count_translated(
    grid: Seq<u8>,
    moved: Seq<u8>,
    a: int,
    b: int,
    x: int,
    y: int,
    w: int,
    h: int,
    j: int,
    i: int,
)
    requires
        w >= 1,
        h >= 1,
        0 <= j < 3,
        0 <= i <= 3,
        translated(grid, moved, a, b, w, h),
    ensures
        row_count(moved, wrap_coord(x, a, w), wrap_coord(y, b, h), w, h, j, i) == row_count(grid, x, y, w, h, j, i),
    decreases i,
{
    if i > 0 {
        row_count_translated(grid, moved, a, b, x, y, w, h, j, i - 1);
        let dx = scan_offset(i - 1, w);
        let dy = scan_offset(j, h);
        let nx = wrap_coord(x, dx, w);
        let ny = wrap_coord(y, dy, h);
        wrap_shift(x, a, dx, w);
        wrap_shift(y, b, dy, h);
        vstd::arithmetic::div_mod::lemma_mod_bound(x + dx, w);
        vstd::arithmetic::div_mod::lemma_mod_bound(y + dy, h);
        assert(moved[cell_index(wrap_coord(nx, a, w), wrap_coord(ny, b, h), w)] == grid[cell_index(nx, ny, w)]);
    }
}

/// The rule commutes with translation on the torus: if `moved` is `grid`
/// shifted by `(a, b)`, then the next generation of `moved` is the next
/// generation of `grid` shifted by `(a, b)`.
pub proof fn step_commutes_with_translation(grid: Seq<u8>, moved: Seq<u8>, a: int, b: int, w: int, h: int)
    requires
        w >= 1,
        h >= 1,
        translated(grid, moved, a, b, w, h),
    ensures
        forall|x: int, y: int|
            0 <= x < w && 0 <= y < h ==> #[trigger] next_state(moved, wrap_coord(x, a, w), wrap_coord(y, b, h), w, h)
                == next_state(grid, x, y, w, h),
{
    assert forall|x: int, y: int| 0 <= x < w && 0 <= y < h implies #[trigger] next_state(
        moved,
        wrap_coord(x, a, w),
        wrap_coord(y, b, h),
        w,
        h,
    ) == next_state(grid, x, y, w, h) by {
        row_count_translated(grid, moved, a, b, x, y, w, h, 0, 3);
        row_count_translated(grid, moved, a, b, x, y, w, h, 1, 3);
        row_count_translated(grid, moved, a, b, x, y, w, h, 2, 3);
        reveal_with_fuel(rows_count, 4);
        assert(moved[cell_index(wrap_coord(x, a, w), wrap_coord(y, b, h), w)] == grid[cell_index(x, y, w)]);
    }
}

/// Neighbour counts only depend on a coordinate modulo the grid size: the
/// grid is a torus.
pub proof fn neighbors_wrap_around(grid: Seq<u8>, x: int, y: int, w: int, h: int)
    requires
        w >= 1,
        h >= 1,
    ensures
        alive_neighbors(grid, x, y, w, h) == alive_neighbors(grid, x % w, y % h, w, h),
{
    assert forall|d: int| #[trigger] wrap_coord(x % w, d, w) == wrap_coord(x, d, w) by {
        vstd::arithmetic::div_mod::lemma_add_mod_noop(x, d, w);
        vstd::arithmetic::div_mod::lemma_add_mod_noop(x % w, d, w);
        vstd::arithmetic::div_mod::lemma_mod_mod(x, w, 1);
    }
    assert forall|d: int| #[trigger] wrap_coord(y % h, d, h) == wrap_coord(y, d, h) by {
        vstd::arithmetic::div_mod::lemma_add_mod_noop(y, d, h);
        vstd::arithmetic::div_mod::lemma_add_mod_noop(y % h, d, h);
        vstd::arithmetic::div_mod::lemma_mod_mod(y, h, 1);
    }
    reveal_with_fuel(rows_count, 4);
    reveal_with_fuel(row_count, 4);
}

/// Distinct cells of a grid have distinct offsets, and every offset below
/// the grid size names one cell: row-major indexing is a bijection.
pub proof fn cell_index_is_injective(x1: int, y1: int, x2: int, y2: int, w: int)
    requires
        0 <= x1 < w,
        0 <= x2 < w,
        0 <= y1,
        0 <= y2,
        cell_index(x1, y1, w) == cell_index(x2, y2, w),
    ensures
        x1 == x2,
        y1 == y2,
{
    if y1 < y2 || (y1 == y2 && x1 < x2) {
        assert(y1 * w + x1 < y2 * w + x2) by (nonlinear_arith)
            requires
                0 <= x1 < w,
                0 <= x2 < w,
                0 <= y1,
                y1 < y2 || (y1 == y2 && x1 < x2),
        ;
    } else if y2 < y1 || (y1 == y2 && x2 < x1) {
        assert(y2 * w + x2 < y1 * w + x1) by (nonlinear_arith)
            requires
                0 <= x1 < w,
                0 <= x2 < w,
                0 <= y2,
                y2 < y1 || (y1 == y2 && x2 < x1),
        ;
    }
}

/// Placing a pattern twice at the same spot is the same as placing it once.
pub proof fn placing_is_idempotent(grid: Seq<u8>, cx: int, cy: int, pattern: Seq<(isize, isize)>, w: int, h: int)
    ensures
        placed(placed(grid, cx, cy, pattern, w, h), cx, cy, pattern, w, h) == placed(grid, cx, cy, pattern, w, h),
{
    assert(placed(placed(grid, cx, cy, pattern, w, h), cx, cy, pattern, w, h) =~= placed(grid, cx, cy, pattern, w, h));
}

/// Placing a pattern never kills a cell: every cell alive before is alive
/// after.
pub proof fn placing_keeps_live_cells(grid: Seq<u8>, cx: int, cy: int, pattern: Seq<(isize, isize)>, w: int, h: int)
    ensures
        forall|k: int| 0 <= k < grid.len() && grid[k] == ALIVE ==> #[trigger] placed(grid, cx, cy, pattern, w, h)[k] == ALIVE,
{
}

/// Glider rotations repeat every four quarter turns.
pub proof fn glider_rotation_has_period_four(rotation: int)
    requires
        rotation >= 0,
    ensures
        glider_rotation(rotation + 4) == glider_rotation(rotation),
{
    assert((rotation + 4) % 4 == rotation % 4);
}


/// On grids of at least two columns and two rows the scan visits exactly
/// the eight cells around `(x, y)`: scan position `(i, j)` looks at the cell
/// `(x + i - 1, y + j - 1)`, wrapped, and only the centre position is
/// skipped.
pub proof fn scan_is_the_moore_neighbourhood(grid: Seq<u8>, x: int, y: int, w: int, h: int, i: int, j: int)
    requires
        w >= 2,
        h >= 2,
        0 <= i < 3,
        0 <= j < 3,
    ensures
        neighbor_alive(grid, x, y, w, h, i, j) == (!(i == 1 && j == 1) && grid[cell_index(
            wrap_coord(x, i - 1, w),
            wrap_coord(y, j - 1, h),
            w,
        )] == ALIVE),
{
    vstd::arithmetic::div_mod::lemma_mod_add_multiples_vanish(x - 1, w);
    vstd::arithmetic::div_mod::lemma_mod_add_multiples_vanish(y - 1, h);
    assert(x + (w - 1) == w + (x - 1));
    assert(y + (h - 1) == h + (y - 1));
}


/// Conway's rule with fading, in plain numbers: a dead cell (0) is born
/// (255) on exactly three live neighbours and stays 0 on any other count; a
/// live cell (255) survives on two or three and otherwise drops to 192; a
/// fading cell is reborn on three and otherwise loses 64, stopping at 0.
pub proof fn rule_in_numbers(cell: u8, n: nat)
    ensures
        cell == 0 ==> next_cell(cell, n) == (if n == 3 { 255u8 } else { 0u8 }),
        cell == 255 ==> next_cell(cell, n) == (if n == 2 || n == 3 { 255u8 } else { 192u8 }),
        0 < cell < 255 ==> next_cell(cell, n) == (if n == 3 {
            255u8
        } else if cell >= 64 {
            (cell - 64) as u8
        } else {
            0u8
        }),
{
}

/// On a grid, a dead cell comes alive on the next step exactly when three of
/// its neighbours are alive, and otherwise stays dead.
pub proof fn dead_cells_are_born_on_exactly_three(grid: Seq<u8>, x: int, y: int, w: int, h: int)
    requires
        0 <= x < w,
        0 <= y < h,
        w * h <= grid.len(),
        grid[cell_index(x, y, w)] == 0,
    ensures
        alive_neighbors(grid, x, y, w, h) == 3 ==> next_state(grid, x, y, w, h) == 255,
        alive_neighbors(grid, x, y, w, h) != 3 ==> next_state(grid, x, y, w, h) == 0,
{
}

/// The glider headings, in plain offsets: rotation 0 is the glider
/// `.X. / ..X / XXX` heading south-east, and each further rotation is the
/// previous one turned a quarter turn, `(dx, dy)` becoming `(-dy, dx)`: south-east,
/// south-west, north-west, north-east.
pub proof fn glider_rotations_turn_by_quarters(r: int, i: int)
    requires
        r >= 0,
        0 <= i < 5,
    ensures
        glider_rotation(0) == seq![(0isize, -1isize), (1isize, 0isize), (-1isize, 1isize), (0isize, 1isize), (1isize, 1isize)],
        glider_rotation(r).len() == 5,
        glider_rotation(r + 1)[i].0 == -glider_rotation(r)[i].1,
        glider_rotation(r + 1)[i].1 == glider_rotation(r)[i].0,
{
    assert((r + 1) % 4 == (r % 4 + 1) % 4);
    assert(glider_rotation(0) =~= seq![(0isize, -1isize), (1isize, 0isize), (-1isize, 1isize), (0isize, 1isize), (1isize, 1isize)]);
}

} // verus!
