//! The tile grid: a rectangular buffer of sprite indices, written once at
//! startup by a map initializer and read by the renderer.
//!
//! Cells are stored row-major; the cell at `(x, y)` sits at index
//! `y * width + x`. The random initializer fills every cell with a tile index
//! in `{1, 2, 3}` drawn from a small deterministic generator seeded by the
//! caller.

use vstd::prelude::*;

verus! {

/// Width of the demo map, in tiles.
pub const GRID_WIDTH: u32 = 100;

/// Height of the demo map, in tiles.
pub const GRID_HEIGHT: u32 = 100;

/// One xorshift step of the random-fill generator.
pub open spec fn xorshift_spec(x: u64) -> u64 {
    let a = x ^ (x << 13);
    let b = a ^ (a >> 7);
    b ^ (b << 17)
}

/// The generator state after `n` steps from `seed`.
pub open spec fn stream_spec(seed: u64, n: nat) -> u64
    decreases n,
{
    if n == 0 {
        seed
    } else {
        xorshift_spec(stream_spec(seed, (n - 1) as nat))
    }
}

/// The tile index the random fill writes into the cell with row-major
/// position `i`: always one of 1, 2 and 3.
pub open spec fn random_tile_spec(seed: u64, i: nat) -> u32 {
    (1 + stream_spec(seed, i + 1) % 3) as u32
}

/// One xorshift step of the random-fill generator.
fn xorshift(x: u64) -> (r: u64)
    ensures
        r == xorshift_spec(x),
{
    let a = x ^ (x << 13u64);
    let b = a ^ (a >> 7u64);
    b ^ (b << 17u64)
}

/// Row-major cell indices are in range: `(x, y)` within a `w` by `h` grid
/// addresses a cell below `w * h`.
proof fn lemma_index_bounds(w: int, h: int, x: int, y: int) by (nonlinear_arith)
    requires
        0 <= x < w,
        0 <= y < h,
    ensures
        0 <= y * w + x < w * h,
{
}

/// Distinct cells of one grid have distinct row-major indices.
proof fn lemma_index_distinct(w: int, x1: int, y1: int, x2: int, y2: int) by (nonlinear_arith)
    requires
        0 <= x1 < w,
        0 <= x2 < w,
        !(x1 == x2 && y1 == y2),
    ensures
        y1 * w + x1 != y2 * w + x2,
{
}

/// A rectangular grid of tile indices with fixed dimensions.
pub struct TileGrid {
    width: u32,
    height: u32,
    cells: Vec<u32>,
}

impl TileGrid {
    /// The backing buffer holds exactly one cell for each coordinate pair.
    pub closed spec fn wf(&self) -> bool {
        self.cells@.len() == self.width as int * self.height as int
    }

    /// The grid's width, in tiles.
    pub closed spec fn spec_width(&self) -> int {
        self.width as int
    }

    /// The grid's height, in tiles.
    pub closed spec fn spec_height(&self) -> int {
        self.height as int
    }

    /// The tile index stored at `(x, y)`.
    pub closed spec fn cell(&self, x: int, y: int) -> u32 {
        self.cells@[y * self.width as int + x]
    }

    /// A fresh grid of the given dimensions with every cell zero.
    pub fn new(width: u32, height: u32) -> (g: Self)
        requires
            width as int * height as int <= usize::MAX as int,
        ensures
            g.wf(),
            g.spec_width() == width,
            g.spec_height() == height,
            forall|x: int, y: int|
                0 <= x < width && 0 <= y < height ==> g.cell(x, y) == 0u32,
    {
        let n: usize = (width as usize) * (height as usize);
        let mut cells: Vec<u32> = Vec::new();
        while cells.len() < n
            invariant
                cells@.len() <= n,
                forall|i: int| 0 <= i < cells@.len() ==> cells@[i] == 0u32,
            decreases n - cells@.len(),
        {
            cells.push(0);
        }
        let g = TileGrid { width, height, cells };
        proof {
            assert forall|x: int, y: int|
                0 <= x < width && 0 <= y < height implies g.cell(x, y) == 0u32 by {
                lemma_index_bounds(width as int, height as int, x, y);
            }
        }
        g
    }

    /// The grid's width, in tiles.
    pub fn width(&self) -> (r: u32)
        ensures
            r as int == self.spec_width(),
    {
        self.width
    }

    /// The grid's height, in tiles.
    pub fn height(&self) -> (r: u32)
        ensures
            r as int == self.spec_height(),
    {
        self.height
    }

    /// The tile index stored at `(x, y)`.
    pub fn get(&self, x: u32, y: u32) -> (v: u32)
        requires
            self.wf(),
            x < self.spec_width(),
            y < self.spec_height(),
        ensures
            v == self.cell(x as int, y as int),
    {
        let cell_count: usize = self.cells.len();
        proof {
            lemma_index_bounds(self.width as int, self.height as int, x as int, y as int);
            assert(cell_count as int == self.spec_width() * self.spec_height());
        }
        let idx: usize = (y as usize) * (self.width as usize) + (x as usize);
        self.cells[idx]
    }

    /// Store tile index `v` at `(x, y)`, leaving every other cell unchanged.
    pub fn set(&mut self, x: u32, y: u32, v: u32)
        requires
            old(self).wf(),
            x < old(self).spec_width(),
            y < old(self).spec_height(),
        ensures
            final(self).wf(),
            final(self).spec_width() == old(self).spec_width(),
            final(self).spec_height() == old(self).spec_height(),
            final(self).cell(x as int, y as int) == v,
            forall|i: int, j: int|
                0 <= i < old(self).spec_width() && 0 <= j < old(self).spec_height() && !(i == x
                    && j == y) ==> final(self).cell(i, j) == old(self).cell(i, j),
    {
        let cell_count: usize = self.cells.len();
        proof {
            lemma_index_bounds(self.width as int, self.height as int, x as int, y as int);
            assert(cell_count as int == self.spec_width() * self.spec_height());
        }
        let idx: usize = (y as usize) * (self.width as usize) + (x as usize);
        self.cells[idx] = v;
        proof {
            assert forall|i: int, j: int|
                0 <= i < self.spec_width() && 0 <= j < self.spec_height() && !(i == x && j
                    == y) implies self.cell(i, j) == old(self).cell(i, j) by {
                lemma_index_bounds(self.width as int, self.height as int, i, j);
                lemma_index_distinct(self.width as int, i, j, x as int, y as int);
            }
        }
    }

    /// Fill every cell from the seeded generator: the cell with row-major
    /// position `i` receives `random_tile_spec(seed, i)`, a tile index in
    /// `{1, 2, 3}`.
    pub fn fill_random(&mut self, seed: u64)
        requires
            old(self).wf(),
        ensures
            final(self).wf(),
            final(self).spec_width() == old(self).spec_width(),
            final(self).spec_height() == old(self).spec_height(),
            forall|x: int, y: int|
                0 <= x < old(self).spec_width() && 0 <= y < old(self).spec_height()
                    ==> final(self).cell(x, y) == random_tile_spec(
                    seed,
                    (y * old(self).spec_width() + x) as nat,
                ),
            forall|x: int, y: int|
                0 <= x < old(self).spec_width() && 0 <= y < old(self).spec_height() ==> 1 <= #[trigger] final(self).cell(x, y) <= 3,
    {
        let n: usize = self.cells.len();
        let mut fresh: Vec<u32> = Vec::new();
        let mut state: u64 = seed;
        while fresh.len() < n
            invariant
                fresh@.len() <= n,
                state == stream_spec(seed, fresh@.len()),
                forall|i: int|
                    0 <= i < fresh@.len() ==> fresh@[i] == random_tile_spec(seed, i as nat),
            decreases n - fresh@.len(),
        {
            state = xorshift(state);
            let tile: u32 = 1 + ((state % 3) as u32);
            fresh.push(tile);
        }
        self.cells = fresh;
        proof {
            assert forall|x: int, y: int|
                0 <= x < old(self).spec_width() && 0 <= y
                    < old(self).spec_height() implies self.cell(x, y) == random_tile_spec(
                seed,
                (y * old(self).spec_width() + x) as nat,
            ) && 1 <= self.cell(x, y) <= 3 by {
                lemma_index_bounds(self.width as int, self.height as int, x, y);
            }
        }
    }
}

} // verus!
