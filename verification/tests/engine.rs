//! Behavioral tests of the grid engine: neighbor counting at the hard
//! edge, the generation rule, the double-buffered advance, and mode
//! toggling.

use conway::engine::{Cell, Conway};
use conway::mode::{EditorMode, Mode};

/// Builds an engine with the given alive cells on a `w` x `h` board.
fn board_with(w: usize, h: usize, alive: &[(usize, usize)]) -> Conway {
    let mut eng = Conway::new(w, h);
    for &(x, y) in alive {
        eng.set_cell(x, y, Cell::Alive);
    }
    eng
}

/// Collects the alive coordinates of the current board, sorted.
fn alive_cells(eng: &Conway) -> Vec<(usize, usize)> {
    let mut out = Vec::new();
    for y in 0..eng.height() {
        for x in 0..eng.width() {
            if eng.cell(x, y) == Cell::Alive {
                out.push((x, y));
            }
        }
    }
    out
}

/// The generation rule recomputed directly from a snapshot of the current
/// board, as an independent reference.
fn reference_next(eng: &Conway) -> Vec<Vec<Cell>> {
    let w = eng.width();
    let h = eng.height();
    let snapshot: Vec<Vec<Cell>> = (0..h).map(|y| (0..w).map(|x| eng.cell(x, y)).collect()).collect();
    let mut next = vec![vec![Cell::Dead; w]; h];
    for y in 0..h {
        for x in 0..w {
            let mut n = 0;
            for (dx, dy) in [(-1, -1), (0, -1), (1, -1), (-1, 0), (1, 0), (-1, 1), (0, 1), (1, 1)]
            {
                let nx = x as isize + dx;
                let ny = y as isize + dy;
                if nx >= 0 && ny >= 0 && (nx as usize) < w && (ny as usize) < h {
                    if snapshot[ny as usize][nx as usize] == Cell::Alive {
                        n += 1;
                    }
                }
            }
            next[y][x] = match (snapshot[y][x], n) {
                (Cell::Alive, 2) | (Cell::Alive, 3) => Cell::Alive,
                (Cell::Dead, 3) => Cell::Alive,
                _ => Cell::Dead,
            };
        }
    }
    next
}

#[test]
fn new_board_is_dead_and_sized() {
    let eng = Conway::new(4, 3);
    assert_eq!(eng.width(), 4);
    assert_eq!(eng.height(), 3);
    assert_eq!(eng.get_mode(), Mode::Editor(EditorMode::Drawing));
    assert!(alive_cells(&eng).is_empty());
}

#[test]
fn set_cell_writes_and_overwrites() {
    let mut eng = Conway::new(3, 3);
    eng.set_cell(2, 1, Cell::Alive);
    assert_eq!(eng.cell(2, 1), Cell::Alive);
    assert_eq!(eng.cell(1, 2), Cell::Dead);
    eng.set_cell(2, 1, Cell::Dead);
    assert_eq!(eng.cell(2, 1), Cell::Dead);
}

#[test]
fn corner_count_ignores_far_edges() {
    // Alive cells on the far edges must not wrap into the corner's count.
    let eng = board_with(3, 3, &[(2, 0), (0, 2), (2, 2), (2, 1), (1, 2)]);
    assert_eq!(eng.count_neighbors(0, 0), 0);
}

#[test]
fn corner_count_sees_only_three_neighbors() {
    // With every cell alive, the corner still counts at most its 3
    // in-bounds neighbors, and the center sees all 8.
    let all: Vec<(usize, usize)> =
        (0..3).flat_map(|y| (0..3).map(move |x| (x, y))).collect();
    let eng = board_with(3, 3, &all);
    assert_eq!(eng.count_neighbors(0, 0), 3);
    assert_eq!(eng.count_neighbors(2, 2), 3);
    assert_eq!(eng.count_neighbors(1, 1), 8);
    assert_eq!(eng.count_neighbors(1, 0), 5);
}

#[test]
fn out_of_bounds_is_exact() {
    let eng = Conway::new(4, 3);
    assert!(!eng.out_of_bounds(3, 2));
    assert!(eng.out_of_bounds(4, 0));
    assert!(eng.out_of_bounds(0, 3));
    assert!(eng.out_of_bounds(usize::MAX, usize::MAX));
}

#[test]
fn block_is_still_life() {
    let block = [(1, 1), (2, 1), (1, 2), (2, 2)];
    let mut eng = board_with(4, 4, &block);
    eng.update_board_state();
    assert_eq!(alive_cells(&eng), block.to_vec());
    eng.update_board_state();
    assert_eq!(alive_cells(&eng), block.to_vec());
}

#[test]
fn blinker_has_period_two() {
    let horizontal = [(1, 2), (2, 2), (3, 2)];
    let vertical = [(2, 1), (2, 2), (2, 3)];
    let mut eng = board_with(5, 5, &horizontal);
    eng.update_board_state();
    assert_eq!(alive_cells(&eng), vertical.to_vec());
    eng.update_board_state();
    assert_eq!(alive_cells(&eng), horizontal.to_vec());
}

#[test]
fn dead_cell_with_three_neighbors_is_born() {
    let mut eng = board_with(3, 3, &[(0, 0), (1, 0), (2, 0)]);
    eng.update_board_state();
    assert_eq!(eng.cell(1, 1), Cell::Alive);
}

#[test]
fn dead_cell_with_two_or_four_neighbors_stays_dead() {
    let mut two = board_with(3, 3, &[(0, 0), (2, 0)]);
    two.update_board_state();
    assert_eq!(two.cell(1, 1), Cell::Dead);

    let mut four = board_with(3, 3, &[(0, 0), (1, 0), (2, 0), (0, 1)]);
    four.update_board_state();
    assert_eq!(four.cell(1, 1), Cell::Dead);
}

#[test]
fn advance_matches_snapshot_recomputation() {
    // The r-pentomino evolves busily; each advance must equal the rule
    // recomputed purely from the pre-advance snapshot, generation after
    // generation — no state leaks across passes through the scratch board.
    let mut eng = board_with(8, 8, &[(4, 2), (5, 2), (3, 3), (4, 3), (4, 4)]);
    for _ in 0..6 {
        let expected = reference_next(&eng);
        eng.update_board_state();
        for y in 0..eng.height() {
            for x in 0..eng.width() {
                assert_eq!(eng.cell(x, y), expected[y][x]);
            }
        }
    }
}

#[test]
fn toggle_mode_cycles_and_resets_submode() {
    let mut eng = Conway::new(2, 2);
    assert_eq!(eng.get_mode(), Mode::Editor(EditorMode::Drawing));
    eng.toggle_mode();
    assert_eq!(eng.get_mode(), Mode::Simulation);
    eng.toggle_mode();
    assert_eq!(eng.get_mode(), Mode::Editor(EditorMode::Drawing));
}

#[test]
fn update_only_advances_while_simulating() {
    let horizontal = [(1, 2), (2, 2), (3, 2)];
    let vertical = [(2, 1), (2, 2), (2, 3)];
    let mut eng = board_with(5, 5, &horizontal);
    eng.update();
    assert_eq!(alive_cells(&eng), horizontal.to_vec());
    eng.toggle_mode();
    eng.update();
    assert_eq!(alive_cells(&eng), vertical.to_vec());
}

#[test]
fn snapshot_reflects_current_board() {
    let mut eng = Conway::new(3, 2);
    eng.set_cell(2, 0, Cell::Alive);
    let snap = eng.snapshot();
    assert_eq!(snap.len(), 2);
    assert_eq!(snap[0].len(), 3);
    assert_eq!(snap[0][2], Cell::Alive);
    assert_eq!(snap[1][1], Cell::Dead);
}
