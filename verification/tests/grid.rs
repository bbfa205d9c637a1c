use green_island::grid::{Grid, GridError};
use green_island::world::{Occupant, Plant, Tile};

#[test]
fn set_then_read_on_a_ten_by_ten_grid() {
    let mut grid: Grid<Tile> = Grid::new_sized(10, 10);
    let saguaro = Tile { occupant: Some(Occupant::Plant(Plant::Saguaro)) };
    grid.set_at(3, 4, saguaro);
    assert_eq!(grid.at(3, 4), saguaro);
    assert_eq!(grid.at(4, 3), Tile { occupant: None });
    assert_eq!(grid.at(4, 3), Tile::default());
    assert_eq!(grid.size(), (10, 10));
}

#[test]
fn new_grid_holds_defaults_everywhere() {
    let grid: Grid<u32> = Grid::new_sized(7, 5);
    assert_eq!(grid.size_x(), 7);
    assert_eq!(grid.size_y(), 5);
    for x in 0..7 {
        for y in 0..5 {
            assert_eq!(grid.at(x, y), 0);
        }
    }
}

#[test]
fn every_cell_reads_back_what_was_written_to_it() {
    let mut grid: Grid<u64> = Grid::new_sized(6, 9);
    for x in 0..6usize {
        for y in 0..9usize {
            grid.set_at(x, y, (1000 * x + y + 1) as u64);
        }
    }
    for x in 0..6usize {
        for y in 0..9usize {
            assert_eq!(grid.at(x, y), (1000 * x + y + 1) as u64);
        }
    }
}

#[test]
fn a_write_leaves_all_other_cells_alone() {
    let mut grid: Grid<u8> = Grid::new_sized(4, 3);
    grid.set_at(1, 2, 9);
    for x in 0..4 {
        for y in 0..3 {
            let expected = if (x, y) == (1, 2) { 9 } else { 0 };
            assert_eq!(grid.at(x, y), expected);
        }
    }
    // The cell after the end of column 1 is the start of column 2.
    assert_eq!(grid.at(2, 0), 0);
}

#[test]
fn transposed_coordinates_are_different_cells() {
    let mut grid: Grid<i32> = Grid::new_sized(5, 5);
    grid.set_at(1, 3, 13);
    grid.set_at(3, 1, 31);
    assert_eq!(grid.at(1, 3), 13);
    assert_eq!(grid.at(3, 1), 31);
}

#[test]
fn mut_at_writes_through() {
    let mut grid: Grid<u32> = Grid::new_sized(3, 3);
    *grid.mut_at(2, 1) = 5;
    *grid.mut_at(2, 1) += 2;
    assert_eq!(grid.at(2, 1), 7);
    assert_eq!(grid.at(1, 2), 0);
    let tile = {
        let mut tiles: Grid<Tile> = Grid::new_sized(2, 2);
        tiles.mut_at(1, 0).occupant = Some(Occupant::Animal(3));
        tiles.at(1, 0)
    };
    assert_eq!(tile.occupant, Some(Occupant::Animal(3)));
}

#[test]
fn contains_tells_cells_from_other_coordinates() {
    let grid: Grid<u8> = Grid::new_sized(4, 2);
    assert!(grid.contains(0, 0));
    assert!(grid.contains(3, 1));
    assert!(!grid.contains(4, 0));
    assert!(!grid.contains(0, 2));
    assert!(!grid.contains(usize::MAX, usize::MAX));
}

#[test]
fn checked_access_refuses_what_is_out_of_range() {
    let mut grid: Grid<u8> = Grid::new_sized(4, 2);
    assert_eq!(grid.try_at(3, 1), Ok(0));
    assert_eq!(grid.try_at(4, 1), Err(GridError::IndexOutOfRange));
    // (0, 2) would share its offset with (1, 0) if it were let through.
    assert_eq!(grid.try_at(0, 2), Err(GridError::IndexOutOfRange));
    assert_eq!(grid.try_set_at(0, 2, 7), Err(GridError::IndexOutOfRange));
    assert_eq!(grid.at(1, 0), 0);
    assert_eq!(grid.try_set_at(1, 0, 7), Ok(()));
    assert_eq!(grid.try_at(1, 0), Ok(7));
}

#[test]
fn a_grid_without_cells_has_a_size_and_no_cell() {
    let grid: Grid<u8> = Grid::new_sized(0, 5);
    assert_eq!(grid.size(), (0, 5));
    assert!(!grid.contains(0, 0));
    assert_eq!(grid.try_at(0, 0), Err(GridError::IndexOutOfRange));
}
