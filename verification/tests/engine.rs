use game_of_life::game::GameOfLife;
use game_of_life::rule::evolve;

fn blank(rows: usize, cols: usize) -> GameOfLife {
    GameOfLife::generate_game(rows, cols, 0, 1)
}

fn with_live(rows: usize, cols: usize, live: &[(usize, usize)]) -> GameOfLife {
    let mut game = blank(rows, cols);
    for &(row, col) in live {
        game.toggle(row, col);
    }
    game
}

fn snapshot(game: &GameOfLife) -> Vec<Vec<u8>> {
    let mut all = Vec::new();
    for row in 0..game.rows() {
        let mut line = Vec::new();
        for col in 0..game.cols() {
            line.push(game.cell(row, col));
        }
        all.push(line);
    }
    all
}

fn live_count(game: &GameOfLife) -> usize {
    snapshot(game).iter().flatten().filter(|&&state| state == 1).count()
}

#[test]
fn rule_table_is_exact() {
    for neighbors in 0u8..=8 {
        let from_dead = if neighbors == 3 { 1 } else { 0 };
        let from_alive = if neighbors == 2 || neighbors == 3 { 1 } else { 0 };
        assert_eq!(evolve(0, neighbors), from_dead, "dead with {}", neighbors);
        assert_eq!(evolve(1, neighbors), from_alive, "alive with {}", neighbors);
    }
}

#[test]
fn idx_is_row_major() {
    let game = blank(4, 5);
    assert_eq!(game.idx(0, 0), 0);
    assert_eq!(game.idx(0, 4), 4);
    assert_eq!(game.idx(1, 0), 5);
    assert_eq!(game.idx(2, 3), 13);
    assert_eq!(game.idx(3, 4), 19);
}

#[test]
fn every_cell_can_be_read_after_each_operation() {
    let mut game = GameOfLife::generate_game(7, 3, 1, 2);
    assert_eq!((game.rows(), game.cols()), (7, 3));
    assert_eq!(snapshot(&game).iter().map(|line| line.len()).sum::<usize>(), 21);
    game.update();
    assert_eq!((game.rows(), game.cols()), (7, 3));
    assert_eq!(snapshot(&game).iter().map(|line| line.len()).sum::<usize>(), 21);
    game.toggle(6, 2);
    assert_eq!((game.rows(), game.cols()), (7, 3));
    assert_eq!(snapshot(&game).iter().map(|line| line.len()).sum::<usize>(), 21);
    assert!(snapshot(&game).iter().flatten().all(|&state| state == 0 || state == 1));
}

#[test]
fn from_draws_places_cells_in_row_major_order() {
    let game = GameOfLife::from_draws(2, 3, vec![true, false, false, false, true, true]);
    assert_eq!((game.rows(), game.cols()), (2, 3));
    assert_eq!(snapshot(&game), vec![vec![1, 0, 0], vec![0, 1, 1]]);
}

#[test]
fn zero_chance_gives_a_dead_grid() {
    let game = GameOfLife::generate_game(6, 9, 0, 100);
    assert_eq!((game.rows(), game.cols()), (6, 9));
    assert_eq!(live_count(&game), 0);
}

#[test]
fn certain_chance_gives_a_live_grid() {
    let game = GameOfLife::generate_game(6, 9, 100, 100);
    assert_eq!(live_count(&game), 54);
}

#[test]
fn chance_above_one_is_clamped_to_certainty() {
    let game = GameOfLife::generate_game(4, 4, 7, 2);
    assert_eq!((game.rows(), game.cols()), (4, 4));
    assert_eq!(live_count(&game), 16);
}

#[test]
fn zero_denominator_is_held_within_zero_and_one() {
    let never = GameOfLife::generate_game(3, 5, 0, 0);
    assert_eq!((never.rows(), never.cols()), (3, 5));
    assert_eq!(live_count(&never), 0);
    let always = GameOfLife::generate_game(3, 5, 4, 0);
    assert_eq!((always.rows(), always.cols()), (3, 5));
    assert_eq!(live_count(&always), 15);
}

#[test]
fn even_chance_gives_both_states() {
    let game = GameOfLife::generate_game(30, 40, 1, 2);
    let alive = live_count(&game);
    assert!(0 < alive && alive < 1200, "{} of 1200 alive", alive);
}

#[test]
fn random_grid_holds_only_binary_states() {
    let game = GameOfLife::generate_game(30, 40, 21, 100);
    assert_eq!((game.rows(), game.cols()), (30, 40));
    assert!(snapshot(&game).iter().flatten().all(|&state| state == 0 || state == 1));
}

#[test]
fn interior_cell_counts_all_eight_offsets() {
    let full = GameOfLife::generate_game(3, 3, 1, 1);
    assert_eq!(full.alive_neighbors(1, 1), 8);

    let offsets = [(0, 0), (0, 1), (0, 2), (1, 0), (1, 2), (2, 0), (2, 1), (2, 2)];
    for &(row, col) in offsets.iter() {
        let game = with_live(3, 3, &[(row, col)]);
        assert_eq!(game.alive_neighbors(1, 1), 1, "offset ({}, {})", row, col);
    }
    let some = with_live(5, 5, &[(1, 1), (1, 3), (3, 2), (2, 2), (0, 0), (4, 4)]);
    assert_eq!(some.alive_neighbors(2, 2), 3);
}

#[test]
fn a_cell_does_not_count_itself() {
    let game = with_live(3, 3, &[(1, 1)]);
    assert_eq!(game.alive_neighbors(1, 1), 0);
}

#[test]
fn corner_cells_have_three_neighbors_and_edge_cells_five() {
    let full = GameOfLife::generate_game(4, 6, 1, 1);
    for &(row, col) in [(0, 0), (0, 5), (3, 0), (3, 5)].iter() {
        assert_eq!(full.alive_neighbors(row, col), 3, "corner ({}, {})", row, col);
    }
    for &(row, col) in [(0, 1), (0, 4), (3, 2), (1, 0), (2, 0), (1, 5), (2, 5)].iter() {
        assert_eq!(full.alive_neighbors(row, col), 5, "edge ({}, {})", row, col);
    }
    for &(row, col) in [(1, 1), (2, 4), (1, 3)].iter() {
        assert_eq!(full.alive_neighbors(row, col), 8, "interior ({}, {})", row, col);
    }
}

#[test]
fn edges_do_not_wrap_around() {
    let game = with_live(5, 5, &[(0, 4)]);
    assert_eq!(game.alive_neighbors(0, 0), 0);
    let game = with_live(5, 5, &[(4, 0)]);
    assert_eq!(game.alive_neighbors(0, 0), 0);
    let game = with_live(5, 5, &[(4, 4)]);
    assert_eq!(game.alive_neighbors(0, 0), 0);
    let game = with_live(5, 5, &[(1, 4), (0, 4), (2, 4)]);
    assert_eq!(game.alive_neighbors(1, 0), 0);
    let game = with_live(5, 5, &[(0, 0)]);
    assert_eq!(game.alive_neighbors(0, 4), 0);
    assert_eq!(game.alive_neighbors(4, 0), 0);
    assert_eq!(game.alive_neighbors(4, 4), 0);
}

#[test]
fn narrow_grids_count_only_what_exists() {
    let single = GameOfLife::generate_game(1, 1, 1, 1);
    assert_eq!(single.alive_neighbors(0, 0), 0);
    let line = GameOfLife::generate_game(1, 4, 1, 1);
    assert_eq!(line.alive_neighbors(0, 0), 1);
    assert_eq!(line.alive_neighbors(0, 1), 2);
    assert_eq!(line.alive_neighbors(0, 3), 1);
    let column = GameOfLife::generate_game(4, 1, 1, 1);
    assert_eq!(column.alive_neighbors(0, 0), 1);
    assert_eq!(column.alive_neighbors(2, 0), 2);
}

#[test]
fn blank_grid_stays_blank() {
    let mut game = GameOfLife::generate_game(5, 5, 0, 1);
    assert_eq!(live_count(&game), 0);
    game.update();
    assert_eq!((game.rows(), game.cols()), (5, 5));
    assert_eq!(live_count(&game), 0);
}

#[test]
fn isolated_live_cell_dies() {
    for &(rows, cols, row, col) in [(3, 3, 1, 1), (5, 7, 2, 4), (6, 4, 4, 1)].iter() {
        let mut game = with_live(rows, cols, &[(row, col)]);
        assert_eq!(game.cell(row, col), 1);
        assert_eq!(game.alive_neighbors(row, col), 0);
        game.update();
        assert_eq!(game.cell(row, col), 0);
        assert_eq!(live_count(&game), 0);
    }
}

#[test]
fn block_is_a_still_life() {
    for &(rows, cols) in [(4, 4), (6, 5), (10, 12)].iter() {
        let mut game = with_live(rows, cols, &[(1, 1), (1, 2), (2, 1), (2, 2)]);
        let before = snapshot(&game);
        for &(row, col) in [(1, 1), (1, 2), (2, 1), (2, 2)].iter() {
            assert_eq!(game.alive_neighbors(row, col), 3);
        }
        game.update();
        assert_eq!(snapshot(&game), before);
        game.update();
        assert_eq!(snapshot(&game), before);
    }
}

#[test]
fn block_in_a_corner_is_a_still_life() {
    let mut game = with_live(2, 2, &[(0, 0), (0, 1), (1, 0), (1, 1)]);
    game.update();
    assert_eq!(snapshot(&game), vec![vec![1, 1], vec![1, 1]]);
}

#[test]
fn dead_cell_with_three_live_neighbors_is_born() {
    let mut game = with_live(4, 4, &[(0, 1), (1, 0), (0, 0)]);
    assert_eq!(game.cell(1, 1), 0);
    assert_eq!(game.alive_neighbors(1, 1), 3);
    game.update();
    assert_eq!(game.cell(1, 1), 1);
    assert_eq!(
        snapshot(&game),
        vec![vec![1, 1, 0, 0], vec![1, 1, 0, 0], vec![0, 0, 0, 0], vec![0, 0, 0, 0]]
    );
}

#[test]
fn crowded_cell_dies() {
    let mut game = with_live(3, 3, &[(1, 1), (0, 0), (0, 1), (0, 2), (1, 0)]);
    assert_eq!(game.alive_neighbors(1, 1), 4);
    game.update();
    assert_eq!(game.cell(1, 1), 0);
}

#[test]
fn blinker_alternates() {
    let mut game = with_live(5, 5, &[(2, 1), (2, 2), (2, 3)]);
    let flat = snapshot(&game);
    game.update();
    let upright = snapshot(&game);
    assert_eq!(
        upright,
        vec![
            vec![0, 0, 0, 0, 0],
            vec![0, 0, 1, 0, 0],
            vec![0, 0, 1, 0, 0],
            vec![0, 0, 1, 0, 0],
            vec![0, 0, 0, 0, 0],
        ]
    );
    game.update();
    assert_eq!(snapshot(&game), flat);
}

#[test]
fn update_reads_only_the_old_generation() {
    // A row of three at the top edge: a cell-by-cell update in place would
    // let the death of (0, 0) change the count of (0, 1).
    let mut game = with_live(3, 3, &[(0, 0), (0, 1), (0, 2)]);
    game.update();
    assert_eq!(snapshot(&game), vec![vec![0, 1, 0], vec![0, 1, 0], vec![0, 0, 0]]);
}

#[test]
fn toggle_then_read_back() {
    let mut game = blank(4, 6);
    assert_eq!(game.cell(2, 5), 0);
    game.toggle(2, 5);
    assert_eq!(game.cell(2, 5), 1);
    assert_eq!(live_count(&game), 1);
    game.toggle(2, 5);
    assert_eq!(game.cell(2, 5), 0);
    assert_eq!(live_count(&game), 0);
}

#[test]
fn toggle_twice_restores_any_grid() {
    let mut game = GameOfLife::generate_game(8, 8, 1, 2);
    let before = snapshot(&game);
    for row in 0..8 {
        for col in 0..8 {
            game.toggle(row, col);
            assert_ne!(snapshot(&game), before);
            assert_eq!(game.cell(row, col), 1 - before[row][col]);
            game.toggle(row, col);
            assert_eq!(snapshot(&game), before);
        }
    }
}

#[test]
fn update_keeps_the_dimensions() {
    let mut game = GameOfLife::generate_game(11, 17, 1, 3);
    for _ in 0..5 {
        game.update();
        assert_eq!((game.rows(), game.cols()), (11, 17));
    }
}
