use iso_tilemap::grid::{TileGrid, GRID_HEIGHT, GRID_WIDTH};

#[test]
fn new_grid_is_zeroed() {
    let grid = TileGrid::new(10, 5);
    assert_eq!(grid.width(), 10);
    assert_eq!(grid.height(), 5);
    for x in 0..10 {
        for y in 0..5 {
            assert_eq!(grid.get(x, y), 0);
        }
    }
}

#[test]
fn set_changes_one_cell_only() {
    let mut grid = TileGrid::new(4, 4);
    grid.set(3, 2, 7);
    assert_eq!(grid.get(3, 2), 7);
    for x in 0..4 {
        for y in 0..4 {
            if (x, y) != (3, 2) {
                assert_eq!(grid.get(x, y), 0);
            }
        }
    }
}

#[test]
fn random_fill_values_in_range() {
    let mut grid = TileGrid::new(GRID_WIDTH, GRID_HEIGHT);
    grid.fill_random(42);
    for x in 0..GRID_WIDTH {
        for y in 0..GRID_HEIGHT {
            let v = grid.get(x, y);
            assert!((1..=3).contains(&v));
        }
    }
}

#[test]
fn random_fill_first_cell_matches_generator() {
    let mut grid = TileGrid::new(GRID_WIDTH, GRID_HEIGHT);
    let seed: u64 = 42;
    grid.fill_random(seed);
    // One xorshift step of the generator, by hand.
    let a = seed ^ (seed << 13);
    let b = a ^ (a >> 7);
    let state = b ^ (b << 17);
    assert_eq!(grid.get(0, 0), 1 + (state % 3) as u32);
}

#[test]
fn random_fill_seeds_can_differ() {
    let mut first = TileGrid::new(GRID_WIDTH, GRID_HEIGHT);
    first.fill_random(1);
    let mut second = TileGrid::new(GRID_WIDTH, GRID_HEIGHT);
    second.fill_random(2);
    let mut differing = 0u32;
    for x in 0..GRID_WIDTH {
        for y in 0..GRID_HEIGHT {
            if first.get(x, y) != second.get(x, y) {
                differing += 1;
            }
        }
    }
    assert!(differing > 0);
}
