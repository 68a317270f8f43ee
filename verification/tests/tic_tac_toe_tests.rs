use tic_tac_toe::ai::{CpuDifficulty, CpuPlayer};
use tic_tac_toe::board::{Board, Cell, InvalidMove, Marker};
use tic_tac_toe::game::{
    assign_first_player, determine_first_player, game_over_message, GameState, Player, PlayerType,
};
use tic_tac_toe::threat::check_for_winning_next_move;
use tic_tac_toe::win::{has_open_cell, update_game_status, GameResult};

fn make_board(layout: [char; 9]) -> Board {
    let mut b = Board::new();
    for i in 0..9 {
        match layout[i] {
            'X' => b.occupy(i, Marker::X).unwrap(),
            'O' => b.occupy(i, Marker::O).unwrap(),
            _ => {}
        }
    }
    b
}

fn human_game() -> GameState {
    let cpu = CpuPlayer::new(CpuDifficulty::Medium, Marker::O);
    GameState::new(PlayerType::Human, PlayerType::Human, cpu)
}

#[test]
fn occupy_open_cell() {
    let mut b = Board::new();
    assert_eq!(b.occupy(0, Marker::X), Ok(()));
    assert!(b.is_occupied(0));
    assert_eq!(b.get(0), Cell::Mark(Marker::X));
}

#[test]
fn occupy_out_of_range() {
    let mut b = Board::new();
    assert_eq!(b.occupy(9, Marker::X), Err(InvalidMove::OutOfRange));
    for i in 0..9 {
        assert!(!b.is_occupied(i));
    }
}

#[test]
fn occupy_taken_cell() {
    let mut b = Board::new();
    assert_eq!(b.occupy(4, Marker::X), Ok(()));
    assert_eq!(b.occupy(4, Marker::O), Err(InvalidMove::Occupied));
    assert_eq!(b.get(4), Cell::Mark(Marker::X));
}

#[test]
fn open_cells_ascending() {
    let b = make_board(['X', '.', '.', '.', 'O', '.', '.', '.', 'X']);
    assert_eq!(b.open_cells(), vec![1, 2, 3, 5, 6, 7]);
}

#[test]
fn open_cells_extremes() {
    assert_eq!(Board::new().open_cells(), vec![0, 1, 2, 3, 4, 5, 6, 7, 8]);
    let full = make_board(['X', 'O', 'X', 'X', 'O', 'O', 'O', 'X', 'X']);
    assert_eq!(full.open_cells(), Vec::<usize>::new());
    assert!(has_open_cell(&Board::new()));
    assert!(!has_open_cell(&full));
}

#[test]
fn win_detected_on_every_line() {
    let lines: [[usize; 3]; 8] = [
        [0, 1, 2],
        [3, 4, 5],
        [6, 7, 8],
        [0, 3, 6],
        [1, 4, 7],
        [2, 5, 8],
        [0, 4, 8],
        [2, 4, 6],
    ];
    for line in lines {
        let mut x = Board::new();
        let mut o = Board::new();
        for c in line {
            x.occupy(c, Marker::X).unwrap();
            o.occupy(c, Marker::O).unwrap();
        }
        assert_eq!(update_game_status(&x), GameResult::WinByPlayerOne);
        assert_eq!(update_game_status(&o), GameResult::WinByPlayerTwo);
    }
}

#[test]
fn win_with_other_marks_on_board() {
    let b = make_board(['X', 'X', 'X', 'O', 'O', '.', '.', '.', '.']);
    assert_eq!(update_game_status(&b), GameResult::WinByPlayerOne);
    let b = make_board(['X', 'X', '.', 'O', 'O', 'O', 'X', '.', '.']);
    assert_eq!(update_game_status(&b), GameResult::WinByPlayerTwo);
}

#[test]
fn draw_on_full_board_without_line() {
    let b = make_board(['X', 'O', 'X', 'X', 'O', 'O', 'O', 'X', 'X']);
    assert_eq!(update_game_status(&b), GameResult::Draw);
    assert_eq!(game_over_message(GameResult::Draw), "The game was a draw!");
}

#[test]
fn in_progress_with_open_cell() {
    assert_eq!(update_game_status(&Board::new()), GameResult::InProgress);
    let b = make_board(['X', 'O', '.', '.', 'X', '.', '.', '.', 'O']);
    assert_eq!(update_game_status(&b), GameResult::InProgress);
}

#[test]
fn double_win_reports_x_first() {
    let b = make_board(['X', 'X', 'X', 'O', 'O', 'O', '.', '.', '.']);
    assert_eq!(update_game_status(&b), GameResult::WinByPlayerOne);
}

#[test]
fn threat_on_row_returns_open_cell() {
    let b = make_board(['X', 'X', '.', '.', '.', '.', '.', '.', '.']);
    assert_eq!(check_for_winning_next_move(&b, Marker::X), Some(2));
    let b = make_board(['X', '.', 'X', '.', '.', '.', '.', '.', '.']);
    assert_eq!(check_for_winning_next_move(&b, Marker::X), Some(1));
}

#[test]
fn threat_on_column_and_diagonal() {
    let b = make_board(['O', '.', '.', 'O', '.', '.', '.', '.', '.']);
    assert_eq!(check_for_winning_next_move(&b, Marker::O), Some(6));
    let b = make_board(['X', '.', '.', '.', 'X', '.', '.', '.', '.']);
    assert_eq!(check_for_winning_next_move(&b, Marker::X), Some(8));
}

#[test]
fn blocked_line_is_no_threat() {
    let b = make_board(['X', 'X', 'O', '.', '.', '.', '.', '.', '.']);
    assert_eq!(check_for_winning_next_move(&b, Marker::X), None);
}

#[test]
fn no_threat_on_quiet_board() {
    assert_eq!(check_for_winning_next_move(&Board::new(), Marker::X), None);
    let b = make_board(['X', 'O', '.', '.', '.', '.', '.', '.', '.']);
    assert_eq!(check_for_winning_next_move(&b, Marker::X), None);
    assert_eq!(check_for_winning_next_move(&b, Marker::O), None);
}

#[test]
fn cpu_player_new_keeps_fields() {
    let p = CpuPlayer::new(CpuDifficulty::Advanced, Marker::X);
    assert_eq!(p.difficulty, CpuDifficulty::Advanced);
    assert_eq!(p.marker, Marker::X);
}

#[test]
fn easy_move_never_picks_taken_cell() {
    let b = make_board(['X', 'O', '.', 'X', 'O', '.', 'X', '.', 'O']);
    let cpu = CpuPlayer::new(CpuDifficulty::Easy, Marker::O);
    for _ in 0..200 {
        let sel = cpu.get_move(&b);
        assert!(sel == 3 || sel == 6 || sel == 8);
    }
}

#[test]
fn easy_move_takes_last_open_cell() {
    let b = make_board(['X', 'O', 'X', 'X', 'O', 'O', 'O', 'X', '.']);
    let cpu = CpuPlayer::new(CpuDifficulty::Easy, Marker::O);
    for _ in 0..20 {
        assert_eq!(cpu.get_move(&b), 9);
    }
}

#[test]
fn every_tier_picks_an_open_cell() {
    let b = make_board(['X', 'O', '.', 'X', 'O', '.', '.', '.', '.']);
    for difficulty in [
        CpuDifficulty::Easy,
        CpuDifficulty::Medium,
        CpuDifficulty::Advanced,
        CpuDifficulty::Expert,
    ] {
        let cpu = CpuPlayer::new(difficulty, Marker::X);
        for _ in 0..50 {
            let sel = cpu.get_move(&b);
            assert!((1..=9).contains(&sel));
            assert!(!b.is_occupied(sel - 1));
        }
    }
}

#[test]
fn medium_blocks_with_high_probability() {
    // X threatens to complete the top row at cell 2; the computer plays O.
    let b = make_board(['X', 'X', '.', '.', 'O', '.', '.', '.', '.']);
    let cpu = CpuPlayer::new(CpuDifficulty::Medium, Marker::O);
    let mut blocked = 0;
    for _ in 0..300 {
        if cpu.get_move(&b) == 3 {
            blocked += 1;
        }
    }
    // Nine rolls in ten block outright and the random fallback can also land
    // on the cell, so far more than two thirds of the trials must block.
    assert!(blocked >= 200, "blocked only {} of 300 trials", blocked);
}

#[test]
fn medium_select_blocks_on_high_roll() {
    let b = make_board(['X', 'X', '.', '.', 'O', '.', '.', '.', '.']);
    let cpu = CpuPlayer::new(CpuDifficulty::Medium, Marker::O);
    for roll in [10, 42, 99] {
        assert_eq!(cpu.medium_select(&b, roll), 3);
    }
    for roll in [0, 9] {
        let sel = cpu.medium_select(&b, roll);
        assert!((1..=9).contains(&sel));
        assert!(!b.is_occupied(sel - 1));
    }
}

#[test]
fn valid_move_changes_one_cell_and_flips_turn() {
    let mut s = human_game();
    assert_eq!(s.current_player, Player::PlayerOne);
    assert!(s.apply_selection(5));
    assert_eq!(s.board.get(4), Cell::Mark(Marker::X));
    for i in 0..9 {
        if i != 4 {
            assert_eq!(s.board.get(i), Cell::Empty);
        }
    }
    assert_eq!(s.current_player, Player::PlayerTwo);
    assert_eq!(s.result, GameResult::InProgress);
}

#[test]
fn invalid_selections_leave_state_unchanged() {
    let mut s = human_game();
    assert!(s.apply_selection(5));
    let before = s;
    // Unparseable input arrives as an out-of-range selection, as 15 here.
    assert!(!s.apply_selection(15));
    assert_eq!(s, before);
    assert!(!s.apply_selection(0));
    assert_eq!(s, before);
    // The same cell again is taken and is refused without any mutation.
    assert!(!s.apply_selection(5));
    assert_eq!(s, before);
    // A genuinely open cell is then accepted.
    assert!(s.apply_selection(6));
    assert_eq!(s.board.get(5), Cell::Mark(Marker::O));
}

#[test]
fn scenario_player_one_wins_top_row() {
    let mut s = human_game();
    for sel in [1, 4, 2, 5] {
        assert!(s.apply_selection(sel));
        assert_eq!(s.result, GameResult::InProgress);
    }
    assert!(s.apply_selection(3));
    assert_eq!(s.result, GameResult::WinByPlayerOne);
    // The game has ended: the turn does not pass on.
    assert_eq!(s.current_player, Player::PlayerOne);
    assert_eq!(game_over_message(s.result), "Player 1 wins!");
}

#[test]
fn scenario_player_two_wins() {
    let mut s = human_game();
    for sel in [1, 4, 2, 5, 9] {
        assert!(s.apply_selection(sel));
    }
    assert!(s.apply_selection(6));
    assert_eq!(s.result, GameResult::WinByPlayerTwo);
    assert_eq!(game_over_message(s.result), "Player 2 wins!");
}

#[test]
fn scenario_full_game_draw() {
    let mut s = human_game();
    for sel in [1, 2, 3, 5, 4, 6, 8, 7] {
        assert!(s.apply_selection(sel));
        assert_eq!(s.result, GameResult::InProgress);
    }
    assert!(s.apply_selection(9));
    assert_eq!(s.result, GameResult::Draw);
    assert_eq!(game_over_message(s.result), "The game was a draw!");
}

#[test]
fn coin_toss_assigns_first_player() {
    let mut s = human_game();
    assign_first_player(&mut s, 0);
    assert_eq!(s.player_one_type, PlayerType::Computer);
    assert_eq!(s.player_two_type, PlayerType::Human);
    assert_eq!(s.cpu_player, CpuPlayer::new(CpuDifficulty::Medium, Marker::X));

    let mut s = human_game();
    let cpu_before = s.cpu_player;
    assign_first_player(&mut s, 99);
    assert_eq!(s.player_one_type, PlayerType::Human);
    assert_eq!(s.player_two_type, PlayerType::Computer);
    assert_eq!(s.cpu_player, cpu_before);
}

#[test]
fn random_coin_toss_gives_one_valid_setup() {
    for _ in 0..20 {
        let mut s = human_game();
        determine_first_player(&mut s);
        let computer_first = s.player_one_type == PlayerType::Computer
            && s.player_two_type == PlayerType::Human
            && s.cpu_player.marker == Marker::X;
        let human_first = s.player_one_type == PlayerType::Human
            && s.player_two_type == PlayerType::Computer
            && s.cpu_player.marker == Marker::O;
        assert!(computer_first || human_first);
        assert_eq!(s.result, GameResult::InProgress);
    }
}

#[test]
fn markers_swap_under_other() {
    assert_eq!(Marker::X.other(), Marker::O);
    assert_eq!(Marker::O.other(), Marker::X);
}
