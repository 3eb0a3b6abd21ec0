//! Dungeon map initializer: copies a generated dungeon's floors onto the
//! tile grid, mapping each floor tile to the sprite index it is drawn with
//! (floor 2, wall 1).
//!
//! A floor is a column-major grid of two-valued tiles, `tiles[x][y]`, as the
//! generator hands it out. Coordinates outside the tile grid's bounds are
//! clipped: a floor larger than the grid never writes out of bounds, a floor
//! smaller than the grid leaves the uncovered cells unchanged.

use vstd::prelude::*;

use crate::grid::TileGrid;

verus! {

/// One tile of a dungeon floor.
#[derive(Clone, Copy, PartialEq, Eq, Structural, Debug)]
pub enum DungeonTile {
    /// Traversable.
    Floor,
    /// Non-traversable.
    Wall,
}

/// The sprite index a dungeon tile is drawn with: 2 for floor, 1 for wall.
pub open spec fn tile_index_spec(t: DungeonTile) -> u32 {
    match t {
        DungeonTile::Floor => 2u32,
        DungeonTile::Wall => 1u32,
    }
}

/// The sprite index a dungeon tile is drawn with.
pub fn tile_index(t: DungeonTile) -> (r: u32)
    ensures
        r == tile_index_spec(t),
{
    match t {
        DungeonTile::Floor => 2,
        DungeonTile::Wall => 1,
    }
}

/// Whether the column-major floor `f` holds a tile at `(x, y)`.
pub open spec fn floor_covers(f: Seq<Vec<DungeonTile>>, x: int, y: int) -> bool {
    &&& 0 <= x < f.len()
    &&& 0 <= y < f[x]@.len()
}

/// The value of a cell holding `c` after floor `f` is copied over it: the
/// tile's sprite index where `f` covers `(x, y)`, `c` unchanged elsewhere.
pub open spec fn blit_cell_one(c: u32, f: Seq<Vec<DungeonTile>>, x: int, y: int) -> u32 {
    if floor_covers(f, x, y) {
        tile_index_spec(f[x]@[y])
    } else {
        c
    }
}

/// The value of a cell holding `c` after the floors `fs` are copied over it
/// in order: the last floor covering `(x, y)` wins.
pub open spec fn blit_cell_all(c: u32, fs: Seq<Vec<Vec<DungeonTile>>>, x: int, y: int) -> u32
    decreases fs.len(),
{
    if fs.len() == 0 {
        c
    } else {
        blit_cell_one(blit_cell_all(c, fs.drop_last(), x, y), fs.last()@, x, y)
    }
}

/// After any number of floors, a cell holds its old value or a sprite index
/// written by some tile, which is 1 or 2.
proof fn lemma_blit_cell_all_range(c: u32, fs: Seq<Vec<Vec<DungeonTile>>>, x: int, y: int)
    ensures
        blit_cell_all(c, fs, x, y) == c || blit_cell_all(c, fs, x, y) == 1 || blit_cell_all(
            c,
            fs,
            x,
            y,
        ) == 2,
    decreases fs.len(),
{
    if fs.len() > 0 {
        lemma_blit_cell_all_range(c, fs.drop_last(), x, y);
    }
}

/// Copy one floor onto the grid, clipping it to the grid's bounds: every
/// grid cell covered by the floor receives the covering tile's sprite index,
/// every other grid cell is unchanged.
pub fn blit_floor(grid: &mut TileGrid, floor: &Vec<Vec<DungeonTile>>)
    requires
        old(grid).wf(),
    ensures
        final(grid).wf(),
        final(grid).spec_width() == old(grid).spec_width(),
        final(grid).spec_height() == old(grid).spec_height(),
        forall|x: int, y: int|
            0 <= x < old(grid).spec_width() && 0 <= y < old(grid).spec_height()
                ==> final(grid).cell(x, y) == blit_cell_one(old(grid).cell(x, y), floor@, x, y),
{
    let w: u32 = grid.width();
    let h: u32 = grid.height();
    let mut x: usize = 0;
    while x < floor.len() && x < w as usize
        invariant
            grid.wf(),
            grid.spec_width() == old(grid).spec_width(),
            grid.spec_height() == old(grid).spec_height(),
            w == old(grid).spec_width(),
            h == old(grid).spec_height(),
            x <= floor@.len(),
            forall|i: int, j: int|
                0 <= i < w && 0 <= j < h ==> #[trigger] grid.cell(i, j) == (if i < x {
                    blit_cell_one(old(grid).cell(i, j), floor@, i, j)
                } else {
                    old(grid).cell(i, j)
                }),
        decreases floor@.len() - x,
    {
        let column = &floor[x];
        let mut y: usize = 0;
        while y < column.len() && y < h as usize
            invariant
                grid.wf(),
                grid.spec_width() == old(grid).spec_width(),
                grid.spec_height() == old(grid).spec_height(),
                w == old(grid).spec_width(),
                h == old(grid).spec_height(),
                x < floor@.len(),
                x < w,
                column == floor@[x as int],
                y <= column@.len(),
                forall|i: int, j: int|
                    0 <= i < w && 0 <= j < h ==> #[trigger] grid.cell(i, j) == (if i < x || (i
                        == x && j < y) {
                        blit_cell_one(old(grid).cell(i, j), floor@, i, j)
                    } else {
                        old(grid).cell(i, j)
                    }),
            decreases column@.len() - y,
        {
            let v: u32 = tile_index(column[y]);
            grid.set(x as u32, y as u32, v);
            y = y + 1;
        }
        x = x + 1;
        proof {
            assert forall|i: int, j: int|
                0 <= i < w && 0 <= j < h implies #[trigger] grid.cell(i, j) == (if i < x {
                blit_cell_one(old(grid).cell(i, j), floor@, i, j)
            } else {
                old(grid).cell(i, j)
            }) by {
                if i == x - 1 && j >= y {
                    assert(!floor_covers(floor@, i, j));
                }
            }
        }
    }
}

/// `after` is `before` with the floors `fs` copied over it in order, each
/// clipped to the grid's bounds.
pub open spec fn grid_is_blit_of(
    before: TileGrid,
    after: TileGrid,
    fs: Seq<Vec<Vec<DungeonTile>>>,
) -> bool {
    forall|x: int, y: int|
        0 <= x < before.spec_width() && 0 <= y < before.spec_height()
            ==> #[trigger] after.cell(x, y) == blit_cell_all(before.cell(x, y), fs, x, y)
}

/// Copy every floor onto the grid in order, each clipped to the grid's
/// bounds: where several floors cover a cell, the last one wins.
pub fn fill_from_floors(grid: &mut TileGrid, floors: &Vec<Vec<Vec<DungeonTile>>>)
    requires
        old(grid).wf(),
    ensures
        final(grid).wf(),
        final(grid).spec_width() == old(grid).spec_width(),
        final(grid).spec_height() == old(grid).spec_height(),
        forall|x: int, y: int|
            0 <= x < old(grid).spec_width() && 0 <= y < old(grid).spec_height()
                ==> final(grid).cell(x, y) == blit_cell_all(old(grid).cell(x, y), floors@, x, y),
{
    let mut k: usize = 0;
    while k < floors.len()
        invariant
            grid.wf(),
            grid.spec_width() == old(grid).spec_width(),
            grid.spec_height() == old(grid).spec_height(),
            k <= floors@.len(),
            forall|x: int, y: int|
                0 <= x < old(grid).spec_width() && 0 <= y < old(grid).spec_height()
                    ==> #[trigger] grid.cell(x, y) == blit_cell_all(
                    old(grid).cell(x, y),
                    floors@.take(k as int),
                    x,
                    y,
                ),
        decreases floors@.len() - k,
    {
        let ghost pre = *grid;
        blit_floor(grid, &floors[k]);
        k = k + 1;
        proof {
            assert(floors@.take(k as int).drop_last() =~= floors@.take(k as int - 1));
            assert(floors@.take(k as int).last() == floors@[k - 1]);
            assert forall|x: int, y: int|
                0 <= x < old(grid).spec_width() && 0 <= y
                    < old(grid).spec_height() implies #[trigger] grid.cell(x, y) == blit_cell_all(
                old(grid).cell(x, y),
                floors@.take(k as int),
                x,
                y,
            ) by {
                assert(grid.cell(x, y) == blit_cell_one(pre.cell(x, y), floors@[k - 1]@, x, y));
            }
        }
    }
    proof {
        assert(floors@.take(floors@.len() as int) =~= floors@);
    }
}

/// Relies on `tatami_dungeon::Dungeon::generate`: it builds a dungeon from a
/// random seed with default parameters, or reports an error; each floor's
/// tiles are a column-major grid of the two tile variants, converted here one
/// for one.
#[verifier::external_body]
fn generate_floor_tiles() -> Option<Vec<Vec<Vec<DungeonTile>>>> {
    match tatami_dungeon::Dungeon::generate() {
        Ok(dungeon) => Some(
            dungeon.floors.iter().map(
                |floor| floor.tiles.iter().map(
                    |column| column.iter().map(
                        |tile| match tile {
                            tatami_dungeon::Tile::Floor => DungeonTile::Floor,
                            tatami_dungeon::Tile::Wall => DungeonTile::Wall,
                        },
                    ).collect(),
                ).collect(),
            ).collect(),
        ),
        Err(_) => None,
    }
}

/// Generate a dungeon and copy its floors onto the grid, each clipped to the
/// grid's bounds, and say whether a dungeon was obtained. Whatever the
/// generator returns, every cell afterwards holds its old value or the sprite
/// index of a floor or wall tile; if no dungeon was obtained, the grid is
/// unchanged.
pub fn init_dungeon(grid: &mut TileGrid) -> (generated: bool)
    requires
        old(grid).wf(),
    ensures
        final(grid).wf(),
        final(grid).spec_width() == old(grid).spec_width(),
        final(grid).spec_height() == old(grid).spec_height(),
        forall|x: int, y: int|
            0 <= x < old(grid).spec_width() && 0 <= y < old(grid).spec_height() ==> (
            #[trigger] final(grid).cell(x, y) == old(grid).cell(x, y) || final(grid).cell(x, y)
                == 1 || final(grid).cell(x, y) == 2),
        generated ==> exists|fs: Seq<Vec<Vec<DungeonTile>>>|
            grid_is_blit_of(*old(grid), *final(grid), fs),
        !generated ==> forall|x: int, y: int|
            0 <= x < old(grid).spec_width() && 0 <= y < old(grid).spec_height()
                ==> #[trigger] final(grid).cell(x, y) == old(grid).cell(x, y),
{
    match generate_floor_tiles() {
        Some(floors) => {
            fill_from_floors(grid, &floors);
            proof {
                assert forall|x: int, y: int|
                    0 <= x < old(grid).spec_width() && 0 <= y
                        < old(grid).spec_height() implies (#[trigger] grid.cell(x, y) == old(
                    grid,
                ).cell(x, y) || grid.cell(x, y) == 1 || grid.cell(x, y) == 2) by {
                    lemma_blit_cell_all_range(old(grid).cell(x, y), floors@, x, y);
                }
                assert(grid_is_blit_of(*old(grid), *grid, floors@));
            }
            true
        },
        None => false,
    }
}

} // verus!
