use iso_tilemap::dungeon::{blit_floor, fill_from_floors, init_dungeon, tile_index, DungeonTile};
use iso_tilemap::grid::TileGrid;

#[test]
fn sprite_indices_of_tiles() {
    assert_eq!(tile_index(DungeonTile::Wall), 1);
    assert_eq!(tile_index(DungeonTile::Floor), 2);
}

#[test]
fn floor_tiles_map_to_sprite_indices() {
    let mut grid = TileGrid::new(4, 3);
    // Column-major floor: (0, 0) is a wall, (1, 0) is a floor.
    let floor = vec![
        vec![DungeonTile::Wall, DungeonTile::Wall],
        vec![DungeonTile::Floor, DungeonTile::Wall],
    ];
    blit_floor(&mut grid, &floor);
    assert_eq!(grid.get(0, 0), 1);
    assert_eq!(grid.get(1, 0), 2);
    assert_eq!(grid.get(0, 1), 1);
    assert_eq!(grid.get(1, 1), 1);
}

#[test]
fn oversized_floor_is_clipped() {
    let mut grid = TileGrid::new(3, 3);
    let floor = vec![vec![DungeonTile::Floor; 5]; 5];
    blit_floor(&mut grid, &floor);
    for x in 0..3 {
        for y in 0..3 {
            assert_eq!(grid.get(x, y), 2);
        }
    }
}

#[test]
fn smaller_floor_leaves_uncovered_cells() {
    let mut grid = TileGrid::new(3, 3);
    let floor = vec![vec![DungeonTile::Wall]];
    blit_floor(&mut grid, &floor);
    assert_eq!(grid.get(0, 0), 1);
    assert_eq!(grid.get(1, 0), 0);
    assert_eq!(grid.get(2, 2), 0);
}

#[test]
fn later_floors_overwrite_earlier_ones() {
    let mut grid = TileGrid::new(2, 2);
    let floors = vec![
        vec![vec![DungeonTile::Wall; 2]; 2],
        vec![vec![DungeonTile::Floor]],
    ];
    fill_from_floors(&mut grid, &floors);
    assert_eq!(grid.get(0, 0), 2);
    assert_eq!(grid.get(1, 0), 1);
    assert_eq!(grid.get(0, 1), 1);
    assert_eq!(grid.get(1, 1), 1);
}

#[test]
fn generated_dungeon_writes_only_tile_indices() {
    let mut grid = TileGrid::new(100, 100);
    let generated = init_dungeon(&mut grid);
    assert!(generated);
    for x in 0..100 {
        for y in 0..100 {
            let v = grid.get(x, y);
            assert!(v <= 2);
        }
    }
    // A generated floor always covers the grid's origin.
    assert!(grid.get(0, 0) == 1 || grid.get(0, 0) == 2);
}
