use tic_tac_toe::board::{Board, BoardLayout, BoardState, Cell};
use tic_tac_toe::game::{check_play_again, classify_command, step, Command, PlayAgainOutcome,
    StepOutcome};
use tic_tac_toe::player::Player;

fn fresh() -> Board {
    Board::new(BoardLayout::Numbered)
}

#[test]
fn classification_of_commands() {
    assert_eq!(classify_command(""), Command::Empty);
    for quit in ["q", "Q", "quit", "QUIT", "QuIt", "exit", "Exit"] {
        assert_eq!(classify_command(quit), Command::Quit, "{:?}", quit);
    }
    for restart in ["r", "R", "reset", "Reset", "restart", "RESTART"] {
        assert_eq!(classify_command(restart), Command::Restart, "{:?}", restart);
    }
    for layout in ["l", "L", "toggle_layout", "Toggle_Layout"] {
        assert_eq!(classify_command(layout), Command::ToggleLayout, "{:?}", layout);
    }
    for color in ["c", "C", "toggle_color", "TOGGLE_COLOR"] {
        assert_eq!(classify_command(color), Command::ToggleColor, "{:?}", color);
    }
    for mv in ["5", "hello", "qq", "quits", "toggle", "rr", "+3", " q"] {
        assert_eq!(classify_command(mv), Command::Move, "{:?}", mv);
    }
}

#[test]
fn step_quits_without_touching_the_board() {
    let mut b = fresh();
    assert!(b.mark("5"));
    assert_eq!(step(&mut b, "q"), StepOutcome::Quit);
    assert_eq!(step(&mut b, "EXIT"), StepOutcome::Quit);
    assert_eq!(b.grid[4], Cell::X);
    assert_eq!(b.turn, 1);
}

#[test]
fn step_rejects_an_invalid_move() {
    let mut b = fresh();
    assert_eq!(step(&mut b, "99"), StepOutcome::Invalid);
    assert_eq!(step(&mut b, "nonsense"), StepOutcome::Invalid);
    for i in 0..9 {
        assert_eq!(b.grid[i], Cell::Empty);
    }
    assert_eq!(b.turn, 1);
    assert_eq!(b.current_player, Player::X);
}

#[test]
fn step_toggles_without_consuming_a_turn() {
    let mut b = fresh();
    assert_eq!(step(&mut b, "l"), StepOutcome::ToggledLayout);
    assert_eq!(b.layout, BoardLayout::Blank);
    assert_eq!(step(&mut b, "C"), StepOutcome::ToggledColor);
    assert!(b.colorize);
    assert_eq!(b.turn, 1);
    assert_eq!(b.current_player, Player::X);
    assert_eq!(b.state, BoardState::Playing);
}

#[test]
fn step_continues_play_and_hands_the_turn_over() {
    let mut b = fresh();
    assert_eq!(step(&mut b, "5"), StepOutcome::Continued);
    assert_eq!(b.grid[4], Cell::X);
    assert_eq!(b.current_player, Player::O);
    assert_eq!(b.turn, 2);
    assert_eq!(b.state, BoardState::Playing);
}

#[test]
fn scenario_diagonal_win_for_x() {
    let mut b = fresh();
    assert_eq!(step(&mut b, "5"), StepOutcome::Continued);
    assert_eq!(step(&mut b, "2"), StepOutcome::Continued);
    assert_eq!(step(&mut b, "1"), StepOutcome::Continued);
    assert_eq!(step(&mut b, "3"), StepOutcome::Continued);
    assert_eq!(b.turn, 5);
    assert_eq!(step(&mut b, "9"), StepOutcome::Won(Player::X));
    assert_eq!(b.grid[0], Cell::X);
    assert_eq!(b.grid[4], Cell::X);
    assert_eq!(b.grid[8], Cell::X);
    assert_eq!(b.state, BoardState::Win);
    assert_eq!(b.current_player, Player::X);
}

#[test]
fn scenario_full_board_is_a_draw() {
    let mut b = fresh();
    for sel in ["1", "2", "3", "5", "4", "6", "8", "7", "9"] {
        let outcome = step(&mut b, sel);
        if sel == "9" {
            assert_eq!(outcome, StepOutcome::Drawn);
        } else {
            assert_eq!(outcome, StepOutcome::Continued);
        }
    }
    assert_eq!(b.state, BoardState::Draw);
    assert_eq!(b.turn, 9);
    for i in 0..9 {
        assert_ne!(b.grid[i], Cell::Empty);
    }
}

#[test]
fn scenario_empty_lines_then_a_move() {
    let mut b = fresh();
    for _ in 0..3 {
        assert_eq!(step(&mut b, ""), StepOutcome::Reprompt);
        for i in 0..9 {
            assert_eq!(b.grid[i], Cell::Empty);
        }
        assert_eq!(b.turn, 1);
    }
    assert_eq!(step(&mut b, "5"), StepOutcome::Continued);
    assert_eq!(b.grid[4], Cell::X);
}

#[test]
fn scenario_restart_mid_game() {
    let mut b = fresh();
    assert_eq!(step(&mut b, "1"), StepOutcome::Continued);
    assert_eq!(step(&mut b, "5"), StepOutcome::Continued);
    assert_eq!(step(&mut b, "2"), StepOutcome::Continued);
    assert_eq!(b.turn, 4);
    assert_eq!(step(&mut b, "restart"), StepOutcome::Restarted);
    assert_eq!(b.turn, 1);
    assert_eq!(b.state, BoardState::Playing);
    assert_eq!(b.current_player, Player::X);
    for i in 0..9 {
        assert_eq!(b.grid[i], Cell::Empty);
    }
    assert_eq!(b.layout, BoardLayout::Numbered);
    assert!(!b.colorize);
}

#[test]
fn play_again_answers() {
    for yes in ["y", "Y", "yes", "YES", "r", "restart", "Reset"] {
        assert_eq!(check_play_again(yes), PlayAgainOutcome::Restart, "{:?}", yes);
    }
    for no in ["n", "N", "no", "NO", "q", "quit", "EXIT"] {
        assert_eq!(check_play_again(no), PlayAgainOutcome::Quit, "{:?}", no);
    }
    for other in ["", "maybe", "yess", "nope", "l", "c", "5"] {
        assert_eq!(check_play_again(other), PlayAgainOutcome::Ask, "{:?}", other);
    }
}
