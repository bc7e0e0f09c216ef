//! Game of Life rules on a row-major `u8` grid that wraps at its edges.
//!
//! A cell holds `255` when alive, `0` when dead, and any value in between
//! while it fades out after dying.

use vstd::prelude::*;

verus! {

/// Default number of columns.
pub const GRID_WIDTH: usize = 256;

/// Default number of rows.
pub const GRID_HEIGHT: usize = 256;

/// Number of cells of a default grid.
pub const GRID_SIZE: usize = 65536;

/// Value of a live cell.
pub const ALIVE: u8 = 255;

/// Value a live cell takes on the step at which it dies.
pub const DYING: u8 = 192;

/// Amount by which a fading cell darkens on each step.
pub const FADE_STEP: u8 = 64;

/// Dimensions of a grid, in cells.
#[derive(Clone, Copy, Debug)]
pub struct GridConfig {
    pub width: usize,
    pub height: usize,
}

impl GridConfig {
    /// Number of cells of the grid.
    pub fn size(&self) -> (n: usize)
        requires
            self.width * self.height <= usize::MAX,
        ensures
            n == self.width * self.height,
    {
        self.width * self.height
    }

    /// Grid of `GRID_HEIGHT` rows and `columns` columns, never fewer than
    /// one: the grid that fills a screen whose width, scaled to
    /// `GRID_HEIGHT` rows and rounded, is `columns` cells, so that cells
    /// are square.
    pub fn with_columns(columns: usize) -> (c: GridConfig)
        ensures
            c.height == GRID_HEIGHT,
            c.width == if columns == 0 { 1 } else { columns },
    {
        let width = if columns == 0 { 1 } else { columns };
        GridConfig { width, height: GRID_HEIGHT }
    }
}

impl Default for GridConfig {
    fn default() -> (c: Self)
        ensures
            c.width == GRID_WIDTH,
            c.height == GRID_HEIGHT,
    {
        GridConfig { width: GRID_WIDTH, height: GRID_HEIGHT }
    }
}

/// Offset of cell `(x, y)` in a row-major grid with `width` columns.
pub open spec fn cell_index(x: int, y: int, width: int) -> int {
    y * width + x
}

/// Row-major offset of cell `(x, y)` in a grid with `width` columns.
pub fn index_wh(x: usize, y: usize, width: usize) -> (i: usize)
    requires
        y * width + x <= usize::MAX,
    ensures
        i == cell_index(x as int, y as int, width as int),
{
    y * width + x
}

/// Row-major offset of cell `(x, y)` in a grid with `width` columns.
pub fn index(x: usize, y: usize, width: usize) -> (i: usize)
    requires
        y * width + x <= usize::MAX,
    ensures
        i == cell_index(x as int, y as int, width as int),
{
    index_wh(x, y, width)
}


/// Offset that the neighbour scan adds to a coordinate at position `k`
/// (`0`, `1` or `2`) along an axis of length `n`: `n - 1` (one step back
/// once wrapped), `0`, then `1`.
pub open spec fn scan_offset(k: int, n: int) -> int {
    if k == 0 {
        n - 1
    } else if k == 1 {
        0
    } else {
        1
    }
}

/// Coordinate `c + d` wrapped onto an axis of length `n`.
pub open spec fn wrap_coord(c: int, d: int, n: int) -> int {
    (c + d) % n
}

/// Whether scan position `(i, j)` around `(x, y)` names a live neighbour.
/// The position where both offsets are zero (the cell itself) never counts.
pub open spec fn neighbor_alive(grid: Seq<u8>, x: int, y: int, w: int, h: int, i: int, j: int) -> bool {
    let dx = scan_offset(i, w);
    let dy = scan_offset(j, h);
    &&& !(dx == 0 && dy == 0)
    &&& grid[cell_index(wrap_coord(x, dx, w), wrap_coord(y, dy, h), w)] == ALIVE
}

/// Live neighbours among the first `i` scan positions of scan row `j`.
pub open spec fn row_count(grid: Seq<u8>, x: int, y: int, w: int, h: int, j: int, i: int) -> nat
    decreases i,
{
    if i <= 0 {
        0
    } else {
        row_count(grid, x, y, w, h, j, i - 1) + if neighbor_alive(grid, x, y, w, h, i - 1, j) {
            1nat
        } else {
            0nat
        }
    }
}

/// Live neighbours among the first `j` scan rows.
pub open spec fn rows_count(grid: Seq<u8>, x: int, y: int, w: int, h: int, j: int) -> nat
    decreases j,
{
    if j <= 0 {
        0
    } else {
        rows_count(grid, x, y, w, h, j - 1) + row_count(grid, x, y, w, h, j - 1, 3)
    }
}

/// Number of live cells among the eight cells around `(x, y)` on the torus
/// of `w` columns and `h` rows.
pub open spec fn alive_neighbors(grid: Seq<u8>, x: int, y: int, w: int, h: int) -> nat {
    rows_count(grid, x, y, w, h, 3)
}

/// A cell of the grid lies before the end of the grid.
pub proof fn lemma_cell_in_grid(x: int, y: int, w: int, h: int)
    requires
        0 <= x < w,
        0 <= y < h,
    ensures
        0 <= cell_index(x, y, w) < w * h,
{
    assert(0 <= y * w + x < w * h) by (nonlinear_arith)
        requires
            0 <= x < w,
            0 <= y < h,
    ;
}

/// Coordinate `c + d` wrapped onto `0..n`, for `d` in `-1..=1`.
pub(crate) fn shifted(c: usize, d: isize, n: usize) -> (r: usize)
    requires
        n >= 1,
        -1 <= d <= 1,
    ensures
        r < n,
        r == wrap_coord(c as int, d as int, n as int),
{
    let cr = c % n;
    proof {
        vstd::arithmetic::div_mod::lemma_add_mod_noop(c as int, d as int, n as int);
        vstd::arithmetic::div_mod::lemma_mod_bound(c as int, n as int);
    }
    if d < 0 {
        proof {
            vstd::arithmetic::div_mod::lemma_mod_add_multiples_vanish(-1, n as int);
            vstd::arithmetic::div_mod::lemma_small_mod((n - 1) as nat, n as nat);
        }
        if cr == 0 {
            n - 1
        } else {
            proof {
                vstd::arithmetic::div_mod::lemma_mod_add_multiples_vanish(cr - 1, n as int);
                vstd::arithmetic::div_mod::lemma_small_mod((cr - 1) as nat, n as nat);
                assert(cr + (n - 1) == n + (cr - 1));
            }
            cr - 1
        }
    } else if d == 0 {
        proof {
            vstd::arithmetic::div_mod::lemma_small_mod(cr as nat, n as nat);
            assert(0int % (n as int) == 0);
        }
        cr
    } else if n == 1 {
        proof {
            assert(1int % 1 == 0);
            assert(0int % 1 == 0);
        }
        0
    } else if cr + 1 == n {
        proof {
            vstd::arithmetic::div_mod::lemma_mod_self_0(n as int);
            vstd::arithmetic::div_mod::lemma_small_mod(1, n as nat);
        }
        0
    } else {
        proof {
            vstd::arithmetic::div_mod::lemma_small_mod((cr + 1) as nat, n as nat);
            vstd::arithmetic::div_mod::lemma_small_mod(1, n as nat);
        }
        cr + 1
    }
}

/// Coordinate `c` moved by scan offset `k` and wrapped onto `0..n`.
fn wrapped(c: usize, k: usize, n: usize) -> (r: usize)
    requires
        n >= 1,
        k < 3,
    ensures
        r < n,
        r == wrap_coord(c as int, scan_offset(k as int, n as int), n as int),
{
    if k == 0 {
        proof {
            // stepping forward by n - 1 is stepping back by one
            vstd::arithmetic::div_mod::lemma_mod_add_multiples_vanish(c - 1, n as int);
            assert(c + (n - 1) == n + (c - 1));
        }
        shifted(c, -1, n)
    } else if k == 1 {
        shifted(c, 0, n)
    } else {
        shifted(c, 1, n)
    }
}

/// Number of live cells among the eight neighbours of `(x, y)`, wrapping at
/// the edges of a `width` by `height` grid.
pub fn count_alive_neighbors_wh(grid: &[u8], x: usize, y: usize, width: usize, height: usize) -> (n: u8)
    requires
        width >= 1,
        height >= 1,
        width * height <= grid.len(),
    ensures
        n == alive_neighbors(grid@, x as int, y as int, width as int, height as int),
{
    let ghost g = grid@;
    let mut count: u8 = 0;
    for j in 0usize..3
        invariant
            width >= 1,
            height >= 1,
            width * height <= grid.len(),
            g == grid@,
            count == rows_count(g, x as int, y as int, width as int, height as int, j as int),
            count <= 3 * j,
    {
        let ny = wrapped(y, j, height);
        let dy: usize = if j == 0 { height - 1 } else if j == 1 { 0 } else { 1 };
        for i in 0usize..3
            invariant
                width >= 1,
                height >= 1,
                width * height <= grid.len(),
                g == grid@,
                j < 3,
                ny < height,
                ny == wrap_coord(y as int, scan_offset(j as int, height as int), height as int),
                dy == scan_offset(j as int, height as int),
                count == rows_count(g, x as int, y as int, width as int, height as int, j as int)
                    + row_count(g, x as int, y as int, width as int, height as int, j as int, i as int),
                count <= 3 * j + i,
        {
            let nx = wrapped(x, i, width);
            let dx: usize = if i == 0 { width - 1 } else if i == 1 { 0 } else { 1 };
            if !(dx == 0 && dy == 0) {
                proof {
                    lemma_cell_in_grid(nx as int, ny as int, width as int, height as int);
                }
                let idx = ny * width + nx;
                if grid[idx] == ALIVE {
                    count += 1;
                }
            }
        }
    }
    count
}

/// Number of live cells among the eight neighbours of `(x, y)`, wrapping at
/// the edges of a `width` by `height` grid.
pub fn count_alive_neighbors(grid: &[u8], x: usize, y: usize, width: usize, height: usize) -> (n: u8)
    requires
        width >= 1,
        height >= 1,
        width * height <= grid.len(),
    ensures
        n == alive_neighbors(grid@, x as int, y as int, width as int, height as int),
{
    count_alive_neighbors_wh(grid, x, y, width, height)
}


/// Value a cell holding `cell` takes on the next step when `n` of its
/// neighbours are alive: birth on exactly three live neighbours, survival on
/// two or three, a live cell that dies drops to `DYING`, and a fading cell
/// darkens by `FADE_STEP` until it reaches `0`.
pub open spec fn next_cell(cell: u8, n: nat) -> u8 {
    if cell == ALIVE {
        if n == 2 || n == 3 {
            ALIVE
        } else {
            DYING
        }
    } else if cell == 0 {
        if n == 3 {
            ALIVE
        } else {
            0
        }
    } else if n == 3 {
        ALIVE
    } else if cell >= FADE_STEP {
        (cell - FADE_STEP) as u8
    } else {
        0
    }
}

/// Value of cell `(x, y)` after one step of `grid`.
pub open spec fn next_state(grid: Seq<u8>, x: int, y: int, w: int, h: int) -> u8 {
    next_cell(grid[cell_index(x, y, w)], alive_neighbors(grid, x, y, w, h))
}

fn evolve_cell(cell: u8, neighbors: u8) -> (v: u8)
    ensures
        v == next_cell(cell, neighbors as nat),
{
    if cell == ALIVE {
        if neighbors == 2 || neighbors == 3 {
            ALIVE
        } else {
            DYING
        }
    } else if cell == 0 {
        if neighbors == 3 {
            ALIVE
        } else {
            0
        }
    } else if neighbors == 3 {
        ALIVE
    } else {
        cell.saturating_sub(FADE_STEP)
    }
}

/// Cells in row-major order: `(x1, y1)` comes before `(x2, y2)`.
proof fn lemma_row_major_before(x1: int, y1: int, x2: int, y2: int, w: int)
    requires
        0 <= x1 < w,
        0 <= x2 < w,
        y1 >= 0,
        y1 < y2 || (y1 == y2 && x1 < x2),
    ensures
        cell_index(x1, y1, w) < cell_index(x2, y2, w),
{
    if y1 < y2 {
        assert(y1 * w + x1 < y2 * w + x2) by (nonlinear_arith)
            requires
                0 <= x1 < w,
                0 <= x2,
                0 <= y1 < y2,
        ;
    }
}

/// Writes into `dst` the generation that follows `src` on a `width` by
/// `height` torus; cells of `dst` past the grid are left as they were.
pub fn step_wh(src: &[u8], dst: &mut [u8], width: usize, height: usize)
    requires
        width * height <= src.len(),
        width * height <= old(dst).len(),
    ensures
        final(dst)@.len() == old(dst)@.len(),
        forall|x: int, y: int|
            0 <= x < width && 0 <= y < height ==> #[trigger] final(dst)@[cell_index(x, y, width as int)]
                == next_state(src@, x, y, width as int, height as int),
        forall|k: int| width * height <= k < old(dst)@.len() ==> #[trigger] final(dst)@[k] == old(dst)@[k],
{
    let ghost w = width as int;
    let ghost h = height as int;
    for y in 0..height
        invariant
            w == width,
            h == height,
            width * height <= src.len(),
            width * height <= dst.len(),
            dst@.len() == old(dst)@.len(),
            forall|xx: int, yy: int|
                0 <= xx < w && 0 <= yy < y ==> #[trigger] dst@[cell_index(xx, yy, w)] == next_state(
                    src@,
                    xx,
                    yy,
                    w,
                    h,
                ),
            forall|k: int| y * w <= k < dst@.len() ==> #[trigger] dst@[k] == old(dst)@[k],
    {
        for x in 0..width
            invariant
                w == width,
                h == height,
                y < height,
                width * height <= src.len(),
                width * height <= dst.len(),
                dst@.len() == old(dst)@.len(),
                forall|xx: int, yy: int|
                    0 <= xx < w && 0 <= yy < h && (yy < y || (yy == y && xx < x))
                        ==> #[trigger] dst@[cell_index(xx, yy, w)] == next_state(src@, xx, yy, w, h),
                forall|k: int| y * w + x <= k < dst@.len() ==> #[trigger] dst@[k] == old(dst)@[k],
        {
            proof {
                lemma_cell_in_grid(x as int, y as int, w, h);
            }
            let idx = y * width + x;
            let cell = src[idx];
            let neighbors = count_alive_neighbors_wh(src, x, y, width, height);
            let ghost before = dst@;
            dst[idx] = evolve_cell(cell, neighbors);
            proof {
                assert forall|xx: int, yy: int|
                    0 <= xx < w && 0 <= yy < h && (yy < y || (yy == y && xx < x + 1)) implies
                    #[trigger] dst@[cell_index(xx, yy, w)] == next_state(src@, xx, yy, w, h) by {
                    if yy < y || (yy == y && xx < x) {
                        lemma_row_major_before(xx, yy, x as int, y as int, w);
                        lemma_cell_in_grid(xx, yy, w, h);
                        assert(dst@[cell_index(xx, yy, w)] == before[cell_index(xx, yy, w)]);
                    }
                }
            }
        }
        proof {
            assert((y + 1) * w == y * w + w) by (nonlinear_arith);
            assert forall|xx: int, yy: int|
                0 <= xx < w && 0 <= yy < y + 1 implies #[trigger] dst@[cell_index(xx, yy, w)] == next_state(
                    src@,
                    xx,
                    yy,
                    w,
                    h,
                ) by {
                assert(yy < h);
            }
        }
    }
    proof {
        assert forall|k: int| width * height <= k < old(dst)@.len() implies #[trigger] dst@[k] == old(dst)@[k] by {
            assert(height * w == w * h) by (nonlinear_arith)
                requires
                    w == width,
                    h == height,
            ;
        }
    }
}

/// Writes into `dst` the generation that follows `src` on a `width` by
/// `height` torus; cells of `dst` past the grid are left as they were.
pub fn step(src: &[u8], dst: &mut [u8], width: usize, height: usize)
    requires
        width * height <= src.len(),
        width * height <= old(dst).len(),
    ensures
        final(dst)@.len() == old(dst)@.len(),
        forall|x: int, y: int|
            0 <= x < width && 0 <= y < height ==> #[trigger] final(dst)@[cell_index(x, y, width as int)]
                == next_state(src@, x, y, width as int, height as int),
        forall|k: int| width * height <= k < old(dst)@.len() ==> #[trigger] final(dst)@[k] == old(dst)@[k],
{
    step_wh(src, dst, width, height);
}


/// Offset of the cell that offset `d` from `(cx, cy)` lands on, wrapping at
/// the edges of a `w` by `h` grid.
pub open spec fn pattern_cell(cx: int, cy: int, d: (isize, isize), w: int, h: int) -> int {
    cell_index(wrap_coord(cx, d.0 as int, w), wrap_coord(cy, d.1 as int, h), w)
}

/// Whether offset `k` of the grid is one of the cells of `pattern` placed at
/// `(cx, cy)`.
pub open spec fn in_pattern(k: int, cx: int, cy: int, pattern: Seq<(isize, isize)>, w: int, h: int) -> bool {
    exists|i: int| 0 <= i < pattern.len() && #[trigger] pattern_cell(cx, cy, pattern[i], w, h) == k
}

/// `grid` with every cell of `pattern`, placed at `(cx, cy)`, set alive.
pub open spec fn placed(grid: Seq<u8>, cx: int, cy: int, pattern: Seq<(isize, isize)>, w: int, h: int) -> Seq<u8> {
    Seq::new(grid.len(), |k: int| if in_pattern(k, cx, cy, pattern, w, h) { ALIVE } else { grid[k] })
}

/// Whether every offset of `pattern` moves by at most one cell on each axis.
pub open spec fn unit_offsets(pattern: Seq<(isize, isize)>) -> bool {
    forall|i: int| 0 <= i < pattern.len() ==> -1 <= #[trigger] pattern[i].0 <= 1 && -1 <= pattern[i].1 <= 1
}

/// Sets alive every cell of `offsets` placed at `(cx, cy)`, wrapping at the
/// edges of a `width` by `height` grid.
fn place_wh(grid: &mut [u8], cx: usize, cy: usize, offsets: &[(isize, isize)], width: usize, height: usize)
    requires
        width >= 1,
        height >= 1,
        width * height <= old(grid).len(),
        unit_offsets(offsets@),
    ensures
        final(grid)@ == placed(old(grid)@, cx as int, cy as int, offsets@, width as int, height as int),
{
    let ghost w = width as int;
    let ghost h = height as int;
    let ghost g0 = grid@;
    proof {
        assert(grid@ =~= placed(g0, cx as int, cy as int, offsets@.take(0), w, h));
    }
    for i in 0..offsets.len()
        invariant
            w == width,
            h == height,
            width >= 1,
            height >= 1,
            width * height <= grid.len(),
            unit_offsets(offsets@),
            grid@ == placed(g0, cx as int, cy as int, offsets@.take(i as int), w, h),
    {
        let (dx, dy) = offsets[i];
        let x = shifted(cx, dx, width);
        let y = shifted(cy, dy, height);
        proof {
            lemma_cell_in_grid(x as int, y as int, w, h);
        }
        let idx = y * width + x;
        let ghost before = grid@;
        grid[idx] = ALIVE;
        proof {
            let pre = offsets@.take(i as int);
            let post = offsets@.take(i + 1);
            assert(post[i as int] == offsets@[i as int]);
            assert(pattern_cell(cx as int, cy as int, post[i as int], w, h) == idx);
            assert forall|k: int| 0 <= k < g0.len() implies #[trigger] in_pattern(k, cx as int, cy as int, post, w, h)
                == (in_pattern(k, cx as int, cy as int, pre, w, h) || k == idx) by {
                if in_pattern(k, cx as int, cy as int, pre, w, h) {
                    let m = choose|m: int| 0 <= m < pre.len() && #[trigger] pattern_cell(cx as int, cy as int, pre[m], w, h) == k;
                    assert(post[m] == pre[m]);
                }
                if in_pattern(k, cx as int, cy as int, post, w, h) && k != idx {
                    let m = choose|m: int| 0 <= m < post.len() && #[trigger] pattern_cell(cx as int, cy as int, post[m], w, h) == k;
                    assert(m < i);
                    assert(post[m] == pre[m]);
                }
            }
            assert(grid@ =~= placed(g0, cx as int, cy as int, post, w, h));
        }
    }
    proof {
        assert(offsets@.take(offsets@.len() as int) =~= offsets@);
    }
}

/// Cells of a horizontal blinker, relative to its centre.
pub open spec fn blinker_pattern() -> Seq<(isize, isize)> {
    seq![(-1isize, 0isize), (0isize, 0isize), (1isize, 0isize)]
}

/// Cells of a glider heading down and to the right, relative to its centre.
pub open spec fn glider_pattern() -> Seq<(isize, isize)> {
    glider_rotation(0)
}

/// Cells of an R-pentomino, relative to its centre.
pub open spec fn r_pentomino_pattern() -> Seq<(isize, isize)> {
    seq![(0isize, -1isize), (1isize, -1isize), (-1isize, 0isize), (0isize, 0isize), (0isize, 1isize)]
}

/// Cells of a glider turned clockwise by `rotation` quarter turns (taken
/// modulo four): heading south-east, south-west, north-west, then north-east.
pub open spec fn glider_rotation(rotation: int) -> Seq<(isize, isize)> {
    let r = rotation % 4;
    if r == 0 {
        seq![(0isize, -1isize), (1isize, 0isize), (-1isize, 1isize), (0isize, 1isize), (1isize, 1isize)]
    } else if r == 1 {
        seq![(1isize, 0isize), (0isize, 1isize), (-1isize, -1isize), (-1isize, 0isize), (-1isize, 1isize)]
    } else if r == 2 {
        seq![(0isize, 1isize), (-1isize, 0isize), (1isize, -1isize), (0isize, -1isize), (-1isize, -1isize)]
    } else {
        seq![(-1isize, 0isize), (0isize, -1isize), (1isize, 1isize), (1isize, 0isize), (1isize, -1isize)]
    }
}

fn glider_offsets(rotation: usize) -> (offsets: [(isize, isize); 5])
    ensures
        offsets@ == glider_rotation(rotation as int),
{
    let r = rotation % 4;
    let offsets = if r == 0 {
        [(0, -1), (1, 0), (-1, 1), (0, 1), (1, 1)]
    } else if r == 1 {
        [(1, 0), (0, 1), (-1, -1), (-1, 0), (-1, 1)]
    } else if r == 2 {
        [(0, 1), (-1, 0), (1, -1), (0, -1), (-1, -1)]
    } else {
        [(-1, 0), (0, -1), (1, 1), (1, 0), (1, -1)]
    };
    assert(offsets@ =~= glider_rotation(rotation as int));
    offsets
}

/// Places a horizontal blinker centred on `(cx, cy)`.
pub fn seed_blinker(grid: &mut [u8], cx: usize, cy: usize, width: usize, height: usize)
    requires
        width >= 1,
        height >= 1,
        width * height <= old(grid).len(),
    ensures
        final(grid)@ == placed(old(grid)@, cx as int, cy as int, blinker_pattern(), width as int, height as int),
{
    let offsets: [(isize, isize); 3] = [(-1, 0), (0, 0), (1, 0)];
    assert(offsets@ =~= blinker_pattern());
    place_wh(grid, cx, cy, offsets.as_slice(), width, height);
}

/// Places a glider centred on `(cx, cy)`, heading down and to the right.
pub fn seed_glider(grid: &mut [u8], cx: usize, cy: usize, width: usize, height: usize)
    requires
        width >= 1,
        height >= 1,
        width * height <= old(grid).len(),
    ensures
        final(grid)@ == placed(old(grid)@, cx as int, cy as int, glider_pattern(), width as int, height as int),
{
    let offsets = glider_offsets(0);
    place_wh(grid, cx, cy, offsets.as_slice(), width, height);
}

/// Places an R-pentomino centred on `(cx, cy)`.
pub fn seed_r_pentomino(grid: &mut [u8], cx: usize, cy: usize, width: usize, height: usize)
    requires
        width >= 1,
        height >= 1,
        width * height <= old(grid).len(),
    ensures
        final(grid)@ == placed(old(grid)@, cx as int, cy as int, r_pentomino_pattern(), width as int, height as int),
{
    let offsets: [(isize, isize); 5] = [(0, -1), (1, -1), (-1, 0), (0, 0), (0, 1)];
    assert(offsets@ =~= r_pentomino_pattern());
    place_wh(grid, cx, cy, offsets.as_slice(), width, height);
}

/// Places a glider centred on `(cx, cy)`, turned by `rotation` quarter turns
/// (taken modulo four).
pub fn spawn_glider_wh(grid: &mut [u8], cx: usize, cy: usize, rotation: usize, width: usize, height: usize)
    requires
        width >= 1,
        height >= 1,
        width * height <= old(grid).len(),
    ensures
        final(grid)@ == placed(
            old(grid)@,
            cx as int,
            cy as int,
            glider_rotation(rotation as int),
            width as int,
            height as int,
        ),
{
    let offsets = glider_offsets(rotation);
    place_wh(grid, cx, cy, offsets.as_slice(), width, height);
}

/// Places a glider centred on `(cx, cy)`, turned by `rotation` quarter turns
/// (taken modulo four).
pub fn spawn_glider(grid: &mut [u8], cx: usize, cy: usize, rotation: usize, width: usize, height: usize)
    requires
        width >= 1,
        height >= 1,
        width * height <= old(grid).len(),
    ensures
        final(grid)@ == placed(
            old(grid)@,
            cx as int,
            cy as int,
            glider_rotation(rotation as int),
            width as int,
            height as int,
        ),
{
    spawn_glider_wh(grid, cx, cy, rotation, width, height);
}

} // verus!
