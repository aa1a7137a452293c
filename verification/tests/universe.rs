use game_of_life::{Cell, SizeMismatch, Universe};

fn middle_column() -> Universe {
    let cells = vec![
        Cell::Dead,  Cell::Alive, Cell::Dead,
        Cell::Dead,  Cell::Alive, Cell::Dead,
        Cell::Dead,  Cell::Alive, Cell::Dead,
    ];
    Universe::new(3, 3, 0, cells)
}

#[test]
fn test_live_neighbor_count() {
    let universe = middle_column();

    assert_eq!(universe.live_neighbor_count(0, 0), 3);
    assert_eq!(universe.live_neighbor_count(1, 1), 2);
    assert_eq!(universe.live_neighbor_count(0, 1), 2);
    assert_eq!(universe.live_neighbor_count(1, 0), 3);
}

#[test]
fn test_get_index() {
    let universe = Universe::new(3, 3, 0, vec![Cell::Dead; 9]);

    assert_eq!(universe.get_index(0, 0), 0);
    assert_eq!(universe.get_index(1, 0), 3);
    assert_eq!(universe.get_index(0, 1), 1);
    assert_eq!(universe.get_index(1, 1), 4);
}

#[test]
fn test_tick() {
    let mut universe = middle_column();

    universe.tick();

    let expected_cells = vec![
        Cell::Alive, Cell::Alive, Cell::Alive,
        Cell::Alive, Cell::Alive, Cell::Alive,
        Cell::Alive, Cell::Alive, Cell::Alive,
    ];
    assert_eq!(*universe.cells(), expected_cells);

    universe.tick();

    let expected_cells = vec![
        Cell::Dead, Cell::Dead, Cell::Dead,
        Cell::Dead, Cell::Dead, Cell::Dead,
        Cell::Dead, Cell::Dead, Cell::Dead,
    ];
    assert_eq!(*universe.cells(), expected_cells);
}

#[test]
fn new_keeps_its_parts() {
    let cells = vec![Cell::Alive, Cell::Dead, Cell::Dead, Cell::Alive, Cell::Alive, Cell::Dead];
    let universe = Universe::new(2, 3, 41, cells.clone());

    assert_eq!(universe.height(), 2);
    assert_eq!(universe.width(), 3);
    assert_eq!(universe.iteration(), 41);
    assert_eq!(*universe.cells(), cells);
}

#[test]
fn get_index_is_row_major_on_a_wide_grid() {
    let universe = Universe::new_empty(4, 7);

    assert_eq!(universe.get_index(0, 6), 6);
    assert_eq!(universe.get_index(1, 0), 7);
    assert_eq!(universe.get_index(2, 5), 19);
    assert_eq!(universe.get_index(3, 6), 27);
    for row in 0..4u32 {
        for col in 0..7u32 {
            assert_eq!(universe.get_index(row, col), (row * 7 + col) as usize);
        }
    }
}

#[test]
fn new_empty_is_all_dead() {
    let universe = Universe::new_empty(5, 8);

    assert_eq!(universe.height(), 5);
    assert_eq!(universe.width(), 8);
    assert_eq!(universe.iteration(), 0);
    assert_eq!(*universe.cells(), vec![Cell::Dead; 40]);
}

#[test]
fn empty_grid_stays_empty() {
    let mut universe = Universe::new_empty(4, 4);

    assert_eq!(universe.live_neighbor_count(2, 2), 0);
    universe.tick();

    assert_eq!(*universe.cells(), vec![Cell::Dead; 16]);
    assert_eq!(universe.iteration(), 1);
}

#[test]
fn neighbor_count_leaves_out_the_cell_itself() {
    let mut cells = vec![Cell::Dead; 25];
    cells[12] = Cell::Alive;
    let universe = Universe::new(5, 5, 0, cells);

    assert_eq!(universe.live_neighbor_count(2, 2), 0);
    for (row, col) in [(1, 1), (1, 2), (1, 3), (2, 1), (2, 3), (3, 1), (3, 2), (3, 3)] {
        assert_eq!(universe.live_neighbor_count(row, col), 1);
    }
    assert_eq!(universe.live_neighbor_count(0, 0), 0);
    assert_eq!(universe.live_neighbor_count(4, 2), 0);
}

#[test]
fn neighbor_count_wraps_around_every_edge() {
    let mut cells = vec![Cell::Dead; 20];
    cells[0] = Cell::Alive;
    let universe = Universe::new(4, 5, 0, cells);

    assert_eq!(universe.live_neighbor_count(3, 4), 1);
    assert_eq!(universe.live_neighbor_count(3, 0), 1);
    assert_eq!(universe.live_neighbor_count(3, 1), 1);
    assert_eq!(universe.live_neighbor_count(0, 4), 1);
    assert_eq!(universe.live_neighbor_count(1, 4), 1);
    assert_eq!(universe.live_neighbor_count(0, 1), 1);
    assert_eq!(universe.live_neighbor_count(1, 0), 1);
    assert_eq!(universe.live_neighbor_count(1, 1), 1);
    assert_eq!(universe.live_neighbor_count(2, 2), 0);
    assert_eq!(universe.live_neighbor_count(0, 0), 0);
}

#[test]
fn neighbor_count_reaches_eight() {
    let universe = Universe::new(3, 3, 0, vec![Cell::Alive; 9]);

    for row in 0..3 {
        for col in 0..3 {
            assert_eq!(universe.live_neighbor_count(row, col), 8);
        }
    }
}

#[test]
fn neighbor_count_takes_positions_beyond_the_grid_round_it() {
    let universe = middle_column();

    assert_eq!(universe.live_neighbor_count(3, 3), universe.live_neighbor_count(0, 0));
    assert_eq!(universe.live_neighbor_count(4, 7), universe.live_neighbor_count(1, 1));
    assert_eq!(universe.live_neighbor_count(u32::MAX, u32::MAX), 3);
    assert_eq!(universe.live_neighbor_count(u32::MAX, 4), 2);
}

#[test]
fn neighbor_count_on_a_single_cell() {
    // With a side of length one, going back by one and staying put are the
    // same offset, so only five of the nine offset pairs count, and all of
    // them lead to the one cell.
    let alive = Universe::new(1, 1, 0, vec![Cell::Alive]);
    let dead = Universe::new(1, 1, 0, vec![Cell::Dead]);

    assert_eq!(alive.live_neighbor_count(0, 0), 5);
    assert_eq!(dead.live_neighbor_count(0, 0), 0);
}

#[test]
fn neighbor_count_on_a_single_row() {
    let universe = Universe::new(1, 3, 0, vec![Cell::Alive, Cell::Dead, Cell::Dead]);

    assert_eq!(universe.live_neighbor_count(0, 0), 1);
    assert_eq!(universe.live_neighbor_count(0, 1), 3);
    assert_eq!(universe.live_neighbor_count(0, 2), 3);
}

#[test]
fn neighbor_count_on_two_by_two() {
    let universe = Universe::new(2, 2, 0, vec![Cell::Alive, Cell::Dead, Cell::Dead, Cell::Dead]);

    assert_eq!(universe.live_neighbor_count(0, 0), 0);
    assert_eq!(universe.live_neighbor_count(0, 1), 2);
    assert_eq!(universe.live_neighbor_count(1, 0), 2);
    assert_eq!(universe.live_neighbor_count(1, 1), 4);
}

#[test]
fn tick_counts_from_the_constructed_value() {
    let mut universe = Universe::new(3, 3, 7, vec![Cell::Dead; 9]);

    universe.tick();
    assert_eq!(universe.iteration(), 8);
    universe.tick();
    assert_eq!(universe.iteration(), 9);

    let mut full = Universe::new(3, 3, 7, vec![Cell::Alive; 9]);
    full.tick();
    assert_eq!(full.iteration(), 8);
}

#[test]
fn tick_reaches_the_last_count() {
    let mut universe = Universe::new(1, 1, u32::MAX - 1, vec![Cell::Dead]);

    universe.tick();

    assert_eq!(universe.iteration(), u32::MAX);
}

#[test]
fn tick_keeps_the_size() {
    let mut universe = middle_column();

    universe.tick();

    assert_eq!(universe.height(), 3);
    assert_eq!(universe.width(), 3);
    assert_eq!(universe.cells().len(), 9);
}

#[test]
fn tick_reads_the_grid_as_it_was() {
    // A blinker on a 5 x 5 grid. Its middle cell has two neighbours and
    // stays; the ends have one and die; the cells beside the middle have
    // three and come alive.
    let mut cells = vec![Cell::Dead; 25];
    cells[11] = Cell::Alive;
    cells[12] = Cell::Alive;
    cells[13] = Cell::Alive;
    let mut universe = Universe::new(5, 5, 0, cells);

    universe.tick();

    let mut expected = vec![Cell::Dead; 25];
    expected[7] = Cell::Alive;
    expected[12] = Cell::Alive;
    expected[17] = Cell::Alive;
    assert_eq!(*universe.cells(), expected);

    universe.tick();

    let mut expected = vec![Cell::Dead; 25];
    expected[11] = Cell::Alive;
    expected[12] = Cell::Alive;
    expected[13] = Cell::Alive;
    assert_eq!(*universe.cells(), expected);
}

#[test]
fn tick_carries_a_cell_with_four_neighbors_forward() {
    // Alive in the middle with four live neighbours: it would die by the
    // textbook rule and stays alive here. Dead with four live neighbours
    // stays dead.
    let cells = vec![
        Cell::Dead,  Cell::Dead,  Cell::Dead,  Cell::Dead,  Cell::Dead,
        Cell::Dead,  Cell::Dead,  Cell::Alive, Cell::Dead,  Cell::Dead,
        Cell::Dead,  Cell::Alive, Cell::Alive, Cell::Alive, Cell::Dead,
        Cell::Dead,  Cell::Dead,  Cell::Alive, Cell::Dead,  Cell::Dead,
        Cell::Dead,  Cell::Dead,  Cell::Dead,  Cell::Dead,  Cell::Dead,
    ];
    let mut universe = Universe::new(5, 5, 0, cells);
    assert_eq!(universe.live_neighbor_count(2, 2), 4);

    universe.tick();

    assert_eq!(universe.cells()[12], Cell::Alive);

    let cells = vec![
        Cell::Dead,  Cell::Dead,  Cell::Dead,  Cell::Dead,  Cell::Dead,
        Cell::Dead,  Cell::Dead,  Cell::Alive, Cell::Dead,  Cell::Dead,
        Cell::Dead,  Cell::Alive, Cell::Dead,  Cell::Alive, Cell::Dead,
        Cell::Dead,  Cell::Dead,  Cell::Alive, Cell::Dead,  Cell::Dead,
        Cell::Dead,  Cell::Dead,  Cell::Dead,  Cell::Dead,  Cell::Dead,
    ];
    let mut universe = Universe::new(5, 5, 0, cells);
    assert_eq!(universe.live_neighbor_count(2, 2), 4);

    universe.tick();

    assert_eq!(universe.cells()[12], Cell::Dead);
}

#[test]
fn tick_on_a_single_live_cell_kills_it() {
    let mut universe = Universe::new(1, 1, 0, vec![Cell::Alive]);

    universe.tick();

    assert_eq!(*universe.cells(), vec![Cell::Dead]);
}

#[test]
fn chessboard_is_a_fixed_point() {
    let cells = vec![
        Cell::Alive, Cell::Dead,  Cell::Alive, Cell::Dead,
        Cell::Dead,  Cell::Alive, Cell::Dead,  Cell::Alive,
        Cell::Alive, Cell::Dead,  Cell::Alive, Cell::Dead,
        Cell::Dead,  Cell::Alive, Cell::Dead,  Cell::Alive,
    ];
    let mut universe = Universe::new(4, 4, 3, cells.clone());
    for row in 0..4 {
        for col in 0..4 {
            assert_eq!(universe.live_neighbor_count(row, col), 4);
        }
    }

    universe.tick();

    assert_eq!(*universe.cells(), cells);
    assert_eq!(universe.iteration(), 4);
    assert_eq!(universe.height(), 4);
    assert_eq!(universe.width(), 4);

    universe.tick();

    assert_eq!(*universe.cells(), cells);
    assert_eq!(universe.iteration(), 5);
}

#[test]
fn two_by_two_diagonal_is_a_fixed_point() {
    let cells = vec![Cell::Alive, Cell::Dead, Cell::Dead, Cell::Alive];
    let mut universe = Universe::new(2, 2, 0, cells.clone());
    for row in 0..2 {
        for col in 0..2 {
            let count = universe.live_neighbor_count(row, col);
            assert!(count == 2 || count == 4);
        }
    }

    universe.tick();

    assert_eq!(*universe.cells(), cells);
    assert_eq!(universe.iteration(), 1);
}

#[test]
fn display_shows_the_cells_it_was_made_from() {
    let universe = middle_column();

    let lines = universe.display();

    assert_eq!(lines, vec!["◻◼◻".to_string(), "◻◼◻".to_string(), "◻◼◻".to_string()]);
}

#[test]
fn display_goes_row_by_row() {
    let cells = vec![
        Cell::Alive, Cell::Alive, Cell::Dead, Cell::Dead,
        Cell::Dead,  Cell::Dead,  Cell::Dead, Cell::Alive,
    ];
    let universe = Universe::new(2, 4, 0, cells.clone());

    let lines = universe.display();

    assert_eq!(lines, vec!["◼◼◻◻".to_string(), "◻◻◻◼".to_string()]);
    let shown: Vec<Cell> = lines
        .iter()
        .flat_map(|line| line.chars())
        .map(|symbol| if symbol == '◼' { Cell::Alive } else { Cell::Dead })
        .collect();
    assert_eq!(shown, cells);
}

#[test]
fn display_does_not_change_the_universe() {
    let universe = middle_column();

    let first = universe.display();
    let second = universe.display();

    assert_eq!(first, second);
    assert_eq!(universe.iteration(), 0);
    assert_eq!(universe.cells()[1], Cell::Alive);
}

#[test]
fn from_flips_makes_true_alive() {
    let flips = vec![true, false, false, true, true, false];

    let universe = Universe::from_flips(3, 2, &flips);

    assert_eq!(universe.height(), 3);
    assert_eq!(universe.width(), 2);
    assert_eq!(universe.iteration(), 0);
    assert_eq!(
        *universe.cells(),
        vec![Cell::Alive, Cell::Dead, Cell::Dead, Cell::Alive, Cell::Alive, Cell::Dead]
    );
}

#[test]
fn new_random_has_a_cell_for_every_position() {
    let universe = Universe::new_random(75, 150);

    assert_eq!(universe.height(), 75);
    assert_eq!(universe.width(), 150);
    assert_eq!(universe.iteration(), 0);
    assert_eq!(universe.cells().len(), 75 * 150);
}

#[test]
fn new_random_makes_cells_of_both_states() {
    // 4096 fair flips are all alike with a chance of two in 2^4096.
    let universe = Universe::new_random(64, 64);

    assert!(universe.cells().contains(&Cell::Alive));
    assert!(universe.cells().contains(&Cell::Dead));
}

#[test]
fn try_new_takes_parts_that_go_together() {
    let cells = vec![Cell::Alive, Cell::Dead, Cell::Dead, Cell::Alive, Cell::Alive, Cell::Dead];

    let universe = Universe::try_new(3, 2, 5, cells.clone()).unwrap();

    assert_eq!(universe.height(), 3);
    assert_eq!(universe.width(), 2);
    assert_eq!(universe.iteration(), 5);
    assert_eq!(*universe.cells(), cells);
}

#[test]
fn try_new_refuses_too_few_and_too_many_cells() {
    let short = Universe::try_new(3, 3, 0, vec![Cell::Dead; 8]);
    let long = Universe::try_new(3, 3, 0, vec![Cell::Dead; 10]);

    assert_eq!(short.err(), Some(SizeMismatch { height: 3, width: 3, cells: 8 }));
    assert_eq!(long.err(), Some(SizeMismatch { height: 3, width: 3, cells: 10 }));
}

#[test]
fn try_new_refuses_an_empty_side() {
    let flat = Universe::try_new(0, 4, 0, Vec::new());
    let thin = Universe::try_new(4, 0, 0, Vec::new());
    let none = Universe::try_new(0, 0, 0, Vec::new());

    assert_eq!(flat.err(), Some(SizeMismatch { height: 0, width: 4, cells: 0 }));
    assert_eq!(thin.err(), Some(SizeMismatch { height: 4, width: 0, cells: 0 }));
    assert_eq!(none.err(), Some(SizeMismatch { height: 0, width: 0, cells: 0 }));
}

#[test]
fn try_new_does_not_wrap_the_product_of_the_sides() {
    // 65536 * 65536 is 2^32, which is 0 in 32 bits.
    let universe = Universe::try_new(65536, 65536, 0, Vec::new());

    assert_eq!(universe.err(), Some(SizeMismatch { height: 65536, width: 65536, cells: 0 }));
}
