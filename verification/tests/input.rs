use cellular_automata::cell::CellState;
use cellular_automata::grid::Grid;
use cellular_automata::input::{DrawMode, InputEvents, DEFAULT_FILL_PER_MILLION};

fn quiet() -> InputEvents {
    InputEvents { randomize: false, toggle_draw_mode: false, pointer: None, clear: false }
}

fn count_alive(grid: &Grid) -> usize {
    let mut count = 0;
    for y in 0..grid.height() {
        for x in 0..grid.width() {
            if grid.get(x as i64, y as i64) == CellState::Alive {
                count += 1;
            }
        }
    }
    count
}

#[test]
fn the_default_fill_is_forty_percent() {
    assert_eq!(DEFAULT_FILL_PER_MILLION, 400_000);
}

#[test]
fn editing_starts_in_draw_mode() {
    assert_eq!(DrawMode::initial(), DrawMode::Draw);
}

#[test]
fn draw_mode_toggles() {
    assert_eq!(DrawMode::Draw.toggled(), DrawMode::Erase);
    assert_eq!(DrawMode::Erase.toggled(), DrawMode::Draw);
}

#[test]
fn draw_mode_brush() {
    assert_eq!(DrawMode::Draw.brush(), CellState::Alive);
    assert_eq!(DrawMode::Erase.brush(), CellState::Dead);
}

#[test]
fn edit_writes_under_the_pointer() {
    let mut grid = Grid::new(4, 4);
    grid.edit(CellState::Alive, Some((1, 2)), false);
    assert_eq!(count_alive(&grid), 1);
    assert_eq!(grid.get(1, 2), CellState::Alive);
    grid.edit(CellState::Dead, Some((1, 2)), false);
    assert_eq!(count_alive(&grid), 0);
}

#[test]
fn edit_ignores_a_pointer_outside_the_grid() {
    let mut grid = Grid::new(4, 3);
    grid.edit(CellState::Alive, Some((4, 0)), false);
    grid.edit(CellState::Alive, Some((0, 3)), false);
    grid.edit(CellState::Alive, Some((usize::MAX, usize::MAX)), false);
    assert_eq!(count_alive(&grid), 0);
}

#[test]
fn edit_clears_after_writing() {
    let mut grid = Grid::new(4, 4);
    grid.set(0, 0, CellState::Alive);
    grid.edit(CellState::Alive, Some((1, 2)), true);
    assert_eq!(count_alive(&grid), 0);
}

#[test]
fn edit_without_pointer_or_clear_changes_nothing() {
    let mut grid = Grid::new(4, 4);
    grid.set(3, 3, CellState::Alive);
    grid.edit(CellState::Dead, None, false);
    assert_eq!(count_alive(&grid), 1);
    assert_eq!(grid.get(3, 3), CellState::Alive);
}

#[test]
fn handle_input_without_signals_changes_nothing() {
    let mut grid = Grid::new(5, 5);
    grid.set(2, 2, CellState::Alive);
    let mut mode = DrawMode::Draw;
    grid.handle_input(&mut mode, &quiet());
    assert_eq!(mode, DrawMode::Draw);
    assert_eq!(count_alive(&grid), 1);
    assert_eq!(grid.get(2, 2), CellState::Alive);
}

#[test]
fn handle_input_draws_under_the_pointer() {
    let mut grid = Grid::new(5, 5);
    let mut mode = DrawMode::Draw;
    let events = InputEvents { pointer: Some((3, 1)), ..quiet() };
    grid.handle_input(&mut mode, &events);
    assert_eq!(grid.get(3, 1), CellState::Alive);
    assert_eq!(count_alive(&grid), 1);
}

#[test]
fn handle_input_erases_in_erase_mode() {
    let mut grid = Grid::new(5, 5);
    grid.set(3, 1, CellState::Alive);
    grid.set(0, 0, CellState::Alive);
    let mut mode = DrawMode::Erase;
    let events = InputEvents { pointer: Some((3, 1)), ..quiet() };
    grid.handle_input(&mut mode, &events);
    assert_eq!(grid.get(3, 1), CellState::Dead);
    assert_eq!(grid.get(0, 0), CellState::Alive);
    assert_eq!(mode, DrawMode::Erase);
}

#[test]
fn handle_input_switches_the_mode_before_the_pointer_writes() {
    let mut grid = Grid::new(5, 5);
    grid.set(3, 1, CellState::Alive);
    let mut mode = DrawMode::Draw;
    let events = InputEvents { toggle_draw_mode: true, pointer: Some((3, 1)), ..quiet() };
    grid.handle_input(&mut mode, &events);
    assert_eq!(mode, DrawMode::Erase);
    assert_eq!(grid.get(3, 1), CellState::Dead);
    grid.handle_input(&mut mode, &events);
    assert_eq!(mode, DrawMode::Draw);
    assert_eq!(grid.get(3, 1), CellState::Alive);
}

#[test]
fn handle_input_ignores_a_pointer_outside_the_grid() {
    let mut grid = Grid::new(5, 4);
    let mut mode = DrawMode::Draw;
    let events = InputEvents { pointer: Some((5, 0)), ..quiet() };
    grid.handle_input(&mut mode, &events);
    let events = InputEvents { pointer: Some((0, 4)), ..quiet() };
    grid.handle_input(&mut mode, &events);
    assert_eq!(count_alive(&grid), 0);
}

#[test]
fn handle_input_clears_last() {
    let mut grid = Grid::new(5, 5);
    grid.set(1, 1, CellState::Alive);
    let mut mode = DrawMode::Draw;
    let events =
        InputEvents { randomize: true, toggle_draw_mode: true, pointer: Some((3, 1)), clear: true };
    grid.handle_input(&mut mode, &events);
    assert_eq!(count_alive(&grid), 0);
    assert_eq!(mode, DrawMode::Erase);
}

#[test]
fn handle_input_randomises_and_then_draws() {
    let mut grid = Grid::new(30, 30);
    let mut mode = DrawMode::Draw;
    let events = InputEvents { randomize: true, pointer: Some((7, 9)), ..quiet() };
    grid.handle_input(&mut mode, &events);
    assert_eq!(grid.get(7, 9), CellState::Alive);
    assert_eq!(grid.width(), 30);
    assert_eq!(grid.height(), 30);
    let alive = count_alive(&grid);
    assert!(alive > 1);
    assert!(alive < 900);
}
