use tic_tac_toe::board::PlayableCellState;
use tic_tac_toe::controller::GameController;
use tic_tac_toe::controller::resolve_next_game_state;
use tic_tac_toe::evaluator::check_winner;
use tic_tac_toe::states::GameState;

const X: PlayableCellState = PlayableCellState::X;
const O: PlayableCellState = PlayableCellState::Zero;
const E: PlayableCellState = PlayableCellState::Empty;

fn started() -> GameController {
    let mut ctl = GameController::new();
    ctl.start_new_game();
    ctl
}

fn play(ctl: &mut GameController, moves: &[(usize, usize)]) {
    for &(row, col) in moves {
        ctl.submit_move(row, col);
    }
}

/// X wins the top row while O answers in the middle row.
fn x_wins_top_row() -> GameController {
    let mut ctl = started();
    play(&mut ctl, &[(0, 0), (1, 0), (0, 1), (1, 1), (0, 2)]);
    ctl
}

/// O completes the middle row one move after X has wandered off.
fn o_wins_middle_row() -> GameController {
    let mut ctl = started();
    play(&mut ctl, &[(0, 0), (1, 0), (0, 1), (1, 1), (2, 2), (1, 2)]);
    ctl
}

#[test]
fn new_controller_waits_with_an_empty_board() {
    let ctl = GameController::new();
    assert_eq!(ctl.current_phase(), GameState::BeforeGame);
    for row in 0..3 {
        for col in 0..3 {
            assert_eq!(ctl.cell_at(row, col), E);
        }
    }
}

#[test]
fn start_new_game_opens_with_x_turn() {
    let ctl = started();
    assert_eq!(ctl.current_phase(), GameState::XTurn);
}

#[test]
fn start_new_game_outside_before_game_is_ignored() {
    let mut ctl = started();
    ctl.submit_move(1, 1);
    ctl.start_new_game();
    assert_eq!(ctl.current_phase(), GameState::ZeroTurn);
    assert_eq!(ctl.cell_at(1, 1), X);
}

#[test]
fn center_opening_continues_with_o_turn() {
    let mut ctl = started();
    ctl.submit_move(1, 1);
    assert_eq!(check_winner(&ctl.field), None);
    assert_eq!(ctl.current_phase(), GameState::ZeroTurn);
    assert_eq!(ctl.cell_at(1, 1), X);
}

#[test]
fn third_x_in_a_row_wins_the_match() {
    let ctl = x_wins_top_row();
    assert_eq!(check_winner(&ctl.field), Some(X));
    assert_eq!(ctl.current_phase(), GameState::XWins);
}

#[test]
fn o_row_ends_in_zero_wins() {
    let ctl = o_wins_middle_row();
    assert_eq!(check_winner(&ctl.field), Some(O));
    assert_eq!(ctl.current_phase(), GameState::ZeroWins);
}

#[test]
fn classic_draw_pattern_ends_in_draw() {
    let mut ctl = started();
    play(
        &mut ctl,
        &[
            (0, 0),
            (0, 1),
            (0, 2),
            (1, 1),
            (1, 0),
            (1, 2),
            (2, 1),
            (2, 0),
            (2, 2),
        ],
    );
    let expected = [[X, O, X], [X, O, O], [O, X, X]];
    for row in 0..3 {
        for col in 0..3 {
            assert_eq!(ctl.cell_at(row, col), expected[row][col]);
        }
    }
    assert_eq!(check_winner(&ctl.field), Some(E));
    assert_eq!(ctl.current_phase(), GameState::Draw);
}

#[test]
fn moves_in_a_won_game_change_nothing() {
    let mut ctl = x_wins_top_row();
    let before: Vec<PlayableCellState> =
        (0..9).map(|i| ctl.cell_at(i / 3, i % 3)).collect();
    ctl.submit_move(2, 2);
    let after: Vec<PlayableCellState> =
        (0..9).map(|i| ctl.cell_at(i / 3, i % 3)).collect();
    assert_eq!(before, after);
    assert_eq!(ctl.current_phase(), GameState::XWins);
}

#[test]
fn moves_before_the_game_are_ignored() {
    let mut ctl = GameController::new();
    ctl.submit_move(0, 0);
    assert_eq!(ctl.current_phase(), GameState::BeforeGame);
    assert_eq!(ctl.cell_at(0, 0), E);
}

#[test]
fn move_onto_occupied_cell_keeps_the_turn() {
    let mut ctl = started();
    ctl.submit_move(1, 1);
    assert_eq!(ctl.current_phase(), GameState::ZeroTurn);
    ctl.submit_move(1, 1);
    assert_eq!(ctl.current_phase(), GameState::ZeroTurn);
    assert_eq!(ctl.cell_at(1, 1), X);
}

#[test]
fn acknowledge_during_a_turn_is_a_no_op() {
    let mut ctl = started();
    assert_eq!(ctl.current_phase(), GameState::XTurn);
    ctl.acknowledge_result();
    assert_eq!(ctl.current_phase(), GameState::XTurn);
}

#[test]
fn acknowledge_after_o_win_resets_and_restart_opens_x_turn() {
    let mut ctl = o_wins_middle_row();
    ctl.acknowledge_result();
    assert_eq!(ctl.current_phase(), GameState::BeforeGame);
    for row in 0..3 {
        for col in 0..3 {
            assert_eq!(ctl.cell_at(row, col), E);
        }
    }
    ctl.start_new_game();
    assert_eq!(ctl.current_phase(), GameState::XTurn);
}

#[test]
fn resolver_passes_the_turn_while_undecided() {
    let ctl = started();
    assert_eq!(
        resolve_next_game_state(GameState::XTurn, &ctl.field),
        GameState::ZeroTurn
    );
    assert_eq!(
        resolve_next_game_state(GameState::ZeroTurn, &ctl.field),
        GameState::XTurn
    );
}

#[test]
fn resolver_reports_each_terminal_verdict() {
    let x_won = x_wins_top_row();
    assert_eq!(
        resolve_next_game_state(GameState::XTurn, &x_won.field),
        GameState::XWins
    );
    let o_won = o_wins_middle_row();
    assert_eq!(
        resolve_next_game_state(GameState::ZeroTurn, &o_won.field),
        GameState::ZeroWins
    );
    let mut drawn = started();
    play(
        &mut drawn,
        &[
            (0, 0),
            (0, 1),
            (0, 2),
            (1, 1),
            (1, 0),
            (1, 2),
            (2, 1),
            (2, 0),
            (2, 2),
        ],
    );
    assert_eq!(
        resolve_next_game_state(GameState::ZeroTurn, &drawn.field),
        GameState::Draw
    );
}
