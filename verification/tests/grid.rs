use cellular_automata::cell::CellState;
use cellular_automata::grid::{ConfigError, Grid};

fn live_cells(grid: &Grid) -> Vec<(usize, usize)> {
    let mut found = Vec::new();
    for y in 0..grid.height() {
        for x in 0..grid.width() {
            if grid.get(x as i64, y as i64) == CellState::Alive {
                found.push((x, y));
            }
        }
    }
    found
}

#[test]
fn new_grid_has_the_size_asked_for() {
    let grid = Grid::new(7, 3);
    assert_eq!(grid.width(), 7);
    assert_eq!(grid.height(), 3);
}

#[test]
fn new_grid_is_all_dead() {
    for (width, height) in [(1, 1), (1, 4), (5, 1), (3, 3), (100, 100)] {
        let grid = Grid::new(width, height);
        assert!(live_cells(&grid).is_empty());
    }
}

#[test]
fn new_grid_is_dead_at_coordinates_beyond_the_edges() {
    let grid = Grid::new(4, 3);
    for y in -10..10i64 {
        for x in -10..10i64 {
            assert_eq!(grid.get(x, y), CellState::Dead);
        }
    }
    assert_eq!(grid.get(i64::MAX, i64::MIN), CellState::Dead);
}

#[test]
fn try_new_rejects_a_grid_without_cells() {
    assert!(matches!(Grid::try_new(0, 5), Err(ConfigError::ZeroSized)));
    assert!(matches!(Grid::try_new(5, 0), Err(ConfigError::ZeroSized)));
    assert!(matches!(Grid::try_new(0, 0), Err(ConfigError::ZeroSized)));
}

#[test]
fn try_new_makes_a_dead_grid() {
    let grid = match Grid::try_new(6, 2) {
        Ok(grid) => grid,
        Err(error) => panic!("unexpected error {:?}", error),
    };
    assert_eq!(grid.width(), 6);
    assert_eq!(grid.height(), 2);
    assert!(live_cells(&grid).is_empty());
}

#[test]
fn set_writes_one_cell() {
    let mut grid = Grid::new(5, 4);
    grid.set(2, 1, CellState::Alive);
    assert_eq!(live_cells(&grid), vec![(2, 1)]);
    grid.set(2, 1, CellState::Dead);
    assert!(live_cells(&grid).is_empty());
}

#[test]
fn set_keeps_the_size() {
    let mut grid = Grid::new(5, 4);
    grid.set(9, 9, CellState::Alive);
    assert_eq!(grid.width(), 5);
    assert_eq!(grid.height(), 4);
}

#[test]
fn set_wraps_as_get_does() {
    let mut grid = Grid::new(5, 4);
    grid.set(-1, -1, CellState::Alive);
    assert_eq!(live_cells(&grid), vec![(4, 3)]);
    grid.set(5, 4, CellState::Alive);
    assert_eq!(live_cells(&grid), vec![(0, 0), (4, 3)]);
    grid.set(12, -6, CellState::Alive);
    assert_eq!(live_cells(&grid), vec![(0, 0), (2, 2), (4, 3)]);
}

#[test]
fn get_wraps_each_axis_by_its_own_size() {
    let mut grid = Grid::new(5, 3);
    grid.set(4, 2, CellState::Alive);
    assert_eq!(grid.get(4, 2), CellState::Alive);
    assert_eq!(grid.get(-1, -1), CellState::Alive);
    assert_eq!(grid.get(9, 5), CellState::Alive);
    assert_eq!(grid.get(-6, -4), CellState::Alive);
    assert_eq!(grid.get(2, 4), CellState::Dead);
    assert_eq!(grid.get(4, 4), CellState::Dead);
}

#[test]
fn clear_makes_every_cell_dead() {
    let mut grid = Grid::new(6, 5);
    grid.set(0, 0, CellState::Alive);
    grid.set(3, 4, CellState::Alive);
    grid.random_fill(1_000_000);
    grid.set(-2, 7, CellState::Dead);
    grid.clear();
    assert!(live_cells(&grid).is_empty());
    assert_eq!(grid.width(), 6);
    assert_eq!(grid.height(), 5);
}

#[test]
fn clear_of_a_dead_grid_is_dead() {
    let mut grid = Grid::new(2, 2);
    grid.clear();
    assert!(live_cells(&grid).is_empty());
}

#[test]
fn count_live_neighbours_of_a_dead_grid_is_zero() {
    let grid = Grid::new(4, 4);
    for y in 0..4 {
        for x in 0..4 {
            assert_eq!(grid.count_live_neighbours(x, y), 0);
        }
    }
}

#[test]
fn count_live_neighbours_leaves_the_cell_itself_out() {
    let mut grid = Grid::new(5, 5);
    grid.set(2, 2, CellState::Alive);
    assert_eq!(grid.count_live_neighbours(2, 2), 0);
}

#[test]
fn count_live_neighbours_sees_all_eight_places() {
    let mut grid = Grid::new(5, 5);
    grid.set(2, 2, CellState::Alive);
    for (x, y) in [(1, 1), (2, 1), (3, 1), (1, 2), (3, 2), (1, 3), (2, 3), (3, 3)] {
        assert_eq!(grid.count_live_neighbours(x, y), 1);
    }
    for (x, y) in [(0, 0), (4, 4), (0, 2), (2, 0), (4, 2), (2, 4)] {
        assert_eq!(grid.count_live_neighbours(x, y), 0);
    }
}

#[test]
fn count_live_neighbours_counts_each_live_neighbour() {
    let mut grid = Grid::new(6, 6);
    grid.set(1, 1, CellState::Alive);
    grid.set(2, 1, CellState::Alive);
    grid.set(3, 1, CellState::Alive);
    grid.set(1, 2, CellState::Alive);
    grid.set(3, 3, CellState::Alive);
    assert_eq!(grid.count_live_neighbours(2, 2), 5);
    grid.set(3, 2, CellState::Alive);
    grid.set(1, 3, CellState::Alive);
    grid.set(2, 3, CellState::Alive);
    assert_eq!(grid.count_live_neighbours(2, 2), 8);
}

#[test]
fn count_live_neighbours_reaches_across_the_corner() {
    for (width, height) in [(3usize, 3usize), (5, 5), (10, 4), (4, 10), (100, 100)] {
        let mut grid = Grid::new(width, height);
        grid.set(0, 0, CellState::Alive);
        assert_eq!(grid.count_live_neighbours(width as i64 - 1, height as i64 - 1), 1);
    }
}

#[test]
fn count_live_neighbours_wraps_rows_by_the_height() {
    // A grid that is wider than high: the row above row 0 is row 2, not row 6.
    let mut wide = Grid::new(7, 3);
    wide.set(3, 2, CellState::Alive);
    assert_eq!(wide.count_live_neighbours(3, 0), 1);
    assert_eq!(wide.count_live_neighbours(2, 0), 1);
    assert_eq!(wide.count_live_neighbours(4, 0), 1);
    // A grid that is higher than wide: the row below row 6 is row 0.
    let mut high = Grid::new(3, 7);
    high.set(1, 0, CellState::Alive);
    assert_eq!(high.count_live_neighbours(1, 6), 1);
    assert_eq!(high.count_live_neighbours(1, 2), 0);
}

#[test]
fn count_live_neighbours_is_mutual() {
    let (width, height) = (5i64, 4i64);
    for (a, b, x, y) in [(0, 0, 4, 3), (2, 1, 3, 2), (0, 3, 4, 0), (1, 1, 3, 3)] {
        let mut first = Grid::new(width as usize, height as usize);
        first.set(a, b, CellState::Alive);
        let mut second = Grid::new(width as usize, height as usize);
        second.set(x, y, CellState::Alive);
        assert_eq!(first.count_live_neighbours(x, y), second.count_live_neighbours(a, b));
    }
}

#[test]
fn count_live_neighbours_on_a_single_cell_grid_counts_it_eight_times() {
    let mut grid = Grid::new(1, 1);
    assert_eq!(grid.count_live_neighbours(0, 0), 0);
    grid.set(0, 0, CellState::Alive);
    assert_eq!(grid.count_live_neighbours(0, 0), 8);
}

#[test]
fn count_live_neighbours_on_a_two_by_two_grid_counts_places() {
    let mut grid = Grid::new(2, 2);
    grid.set(0, 0, CellState::Alive);
    // The corner cell stands at four of the eight places around (1, 1).
    assert_eq!(grid.count_live_neighbours(1, 1), 4);
    assert_eq!(grid.count_live_neighbours(1, 0), 2);
    assert_eq!(grid.count_live_neighbours(0, 1), 2);
    assert_eq!(grid.count_live_neighbours(0, 0), 0);
}

#[test]
fn count_live_neighbours_takes_any_coordinates() {
    let mut grid = Grid::new(5, 5);
    grid.set(0, 0, CellState::Alive);
    assert_eq!(grid.count_live_neighbours(-1, -1), 1);
    assert_eq!(grid.count_live_neighbours(4, 4), 1);
    assert_eq!(grid.count_live_neighbours(9, -6), 1);
    assert_eq!(grid.count_live_neighbours(6, 6), 1);
    assert_eq!(grid.count_live_neighbours(i64::MAX, 0), grid.count_live_neighbours(2, 0));
}

#[test]
fn cell_state_is_alive() {
    assert!(CellState::Alive.is_alive());
    assert!(!CellState::Dead.is_alive());
}

#[test]
fn clone_is_a_grid_of_its_own_with_the_same_cells() {
    let mut grid = Grid::new(4, 3);
    grid.set(1, 2, CellState::Alive);
    let mut copy = grid.clone();
    assert_eq!(copy.width(), 4);
    assert_eq!(copy.height(), 3);
    assert_eq!(live_cells(&copy), vec![(1, 2)]);
    copy.set(0, 0, CellState::Alive);
    assert_eq!(live_cells(&copy), vec![(0, 0), (1, 2)]);
    assert_eq!(live_cells(&grid), vec![(1, 2)]);
}
