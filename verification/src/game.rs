use crate::board::{
    mark_of, selector_index, toggled, wins, Board, BoardLayout, BoardState, Cell,
};
use crate::player::{other_player, Player};
use vstd::prelude::*;
use vstd::string::StrSliceExecFns;

verus! {

/// `c` lowered: an ASCII capital letter becomes its small form, any
/// other character stays as it is.
pub open spec fn to_lower(c: char) -> char {
    match c {
        'A' => 'a',
        'B' => 'b',
        'C' => 'c',
        'D' => 'd',
        'E' => 'e',
        'F' => 'f',
        'G' => 'g',
        'H' => 'h',
        'I' => 'i',
        'J' => 'j',
        'K' => 'k',
        'L' => 'l',
        'M' => 'm',
        'N' => 'n',
        'O' => 'o',
        'P' => 'p',
        'Q' => 'q',
        'R' => 'r',
        'S' => 's',
        'T' => 't',
        'U' => 'u',
        'V' => 'v',
        'W' => 'w',
        'X' => 'x',
        'Y' => 'y',
        'Z' => 'z',
        _ => c,
    }
}

/// `s` with every character lowered.
pub open spec fn lower_seq(s: Seq<char>) -> Seq<char> {
    Seq::new(s.len(), |i: int| to_lower(s[i]))
}

/// `s` reads as the keyword `kw` up to ASCII case. `kw` is expected in
/// its lower-case form.
pub open spec fn is_word(s: Seq<char>, kw: Seq<char>) -> bool {
    lower_seq(s) == kw
}

fn lower_char(c: char) -> (r: char)
    ensures
        r == to_lower(c),
{
    match c {
        'A' => 'a',
        'B' => 'b',
        'C' => 'c',
        'D' => 'd',
        'E' => 'e',
        'F' => 'f',
        'G' => 'g',
        'H' => 'h',
        'I' => 'i',
        'J' => 'j',
        'K' => 'k',
        'L' => 'l',
        'M' => 'm',
        'N' => 'n',
        'O' => 'o',
        'P' => 'p',
        'Q' => 'q',
        'R' => 'r',
        'S' => 's',
        'T' => 't',
        'U' => 'u',
        'V' => 'v',
        'W' => 'w',
        'X' => 'x',
        'Y' => 'y',
        'Z' => 'z',
        _ => c,
    }
}

/// Whether `s`, lowered, is exactly the keyword `kw` (given in lower
/// case).
fn word_matches(s: &str, kw: &str) -> (r: bool)
    ensures
        r == is_word(s@, kw@),
{
    let s_len = s.unicode_len();
    let kw_len = kw.unicode_len();
    if s_len != kw_len {
        assert(lower_seq(s@).len() != kw@.len());
        return false;
    }
    let mut i: usize = 0;
    while i < s_len
        invariant
            i <= s_len,
            s_len == s@.len(),
            s_len == kw@.len(),
            forall|j: int| 0 <= j < i ==> to_lower(s@[j]) == kw@[j],
        decreases s_len - i,
    {
        if lower_char(s.get_char(i)) != kw.get_char(i) {
            assert(lower_seq(s@)[i as int] != kw@[i as int]);
            return false;
        }
        i = i + 1;
    }
    assert(lower_seq(s@) =~= kw@);
    true
}

/// What a line of input asks for, before any move is attempted.
#[derive(Clone, Copy, PartialEq, Eq, Structural, Debug)]
pub enum Command {
    /// A blank line: ask again, nothing advances.
    Empty,
    /// End the program.
    Quit,
    /// Throw the board away and start over.
    Restart,
    /// Flip how empty cells are displayed.
    ToggleLayout,
    /// Flip mark highlighting.
    ToggleColor,
    /// Anything else: to be treated as a move selector.
    Move,
}

/// The command a line of input denotes. Keywords are matched up to
/// ASCII case; any line that is none of them is a move attempt.
pub open spec fn classified(s: Seq<char>) -> Command {
    if s.len() == 0 {
        Command::Empty
    } else if is_word(s, "q"@) || is_word(s, "quit"@) || is_word(s, "exit"@) {
        Command::Quit
    } else if is_word(s, "r"@) || is_word(s, "reset"@) || is_word(s, "restart"@) {
        Command::Restart
    } else if is_word(s, "l"@) || is_word(s, "toggle_layout"@) {
        Command::ToggleLayout
    } else if is_word(s, "c"@) || is_word(s, "toggle_color"@) {
        Command::ToggleColor
    } else {
        Command::Move
    }
}

/// Classifies one line of input.
pub fn classify_command(input: &str) -> (c: Command)
    ensures
        c == classified(input@),
{
    if input.unicode_len() == 0 {
        Command::Empty
    } else if word_matches(input, "q") || word_matches(input, "quit") || word_matches(
        input,
        "exit",
    ) {
        Command::Quit
    } else if word_matches(input, "r") || word_matches(input, "reset") || word_matches(
        input,
        "restart",
    ) {
        Command::Restart
    } else if word_matches(input, "l") || word_matches(input, "toggle_layout") {
        Command::ToggleLayout
    } else if word_matches(input, "c") || word_matches(input, "toggle_color") {
        Command::ToggleColor
    } else {
        Command::Move
    }
}

/// The two boards agree in every observable part: cells, player to
/// move, state, turn, and both display settings.
pub open spec fn same_board(a: Board, b: Board) -> bool {
    &&& a.grid@ == b.grid@
    &&& a.current_player == b.current_player
    &&& a.state == b.state
    &&& a.colorize == b.colorize
    &&& a.layout == b.layout
    &&& a.turn == b.turn
}

/// A board as a fresh game starts it: all nine cells empty, X to move,
/// turn 1, playing, numbered layout, colorizing off.
pub open spec fn is_fresh(b: Board) -> bool {
    &&& b.wf()
    &&& forall|i: int| 0 <= i < 9 ==> b.grid@[i] is Empty
    &&& b.current_player is X
    &&& b.state is Playing
    &&& b.layout is Numbered
    &&& b.colorize == false
    &&& b.turn == 1
}

/// What one line of input did to the game, and what the caller owes
/// the players in return.
#[derive(Clone, Copy, PartialEq, Eq, Structural, Debug)]
pub enum StepOutcome {
    /// A blank line: put the same prompt up again.
    Reprompt,
    /// The player asked to leave: end the program.
    Quit,
    /// The board was replaced by a fresh one.
    Restarted,
    /// Empty cells now display the other way; show the board.
    ToggledLayout,
    /// Mark highlighting flipped; show the board.
    ToggledColor,
    /// The move was rejected: tell the player and prompt again.
    Invalid,
    /// The move took a cell; the turn passed to the other player.
    Continued,
    /// The move won the game for this player.
    Won(Player),
    /// The move filled the board with no winner.
    Drawn,
}

/// Feeds one line of input to a running game. The line is classified;
/// meta-commands leave the grid alone (restart replaces the whole
/// board), and anything else is tried as a move. A successful move is
/// followed by the win and draw check, and, if the game goes on, by
/// the hand-over of the turn.
pub fn step(board: &mut Board, line: &str) -> (r: StepOutcome)
    requires
        old(board).wf(),
        old(board).state is Playing,
        old(board).turn <= 9,
    ensures
        final(board).wf(),
        final(board).turn <= 9,
        match classified(line@) {
            Command::Empty => r is Reprompt && same_board(*final(board), *old(board)),
            Command::Quit => r is Quit && same_board(*final(board), *old(board)),
            Command::Restart => r is Restarted && is_fresh(*final(board)),
            Command::ToggleLayout => {
                &&& r is ToggledLayout
                &&& final(board).layout == toggled(old(board).layout)
                &&& final(board).grid@ == old(board).grid@
                &&& final(board).current_player == old(board).current_player
                &&& final(board).state == old(board).state
                &&& final(board).colorize == old(board).colorize
                &&& final(board).turn == old(board).turn
            },
            Command::ToggleColor => {
                &&& r is ToggledColor
                &&& final(board).colorize == !old(board).colorize
                &&& final(board).grid@ == old(board).grid@
                &&& final(board).current_player == old(board).current_player
                &&& final(board).state == old(board).state
                &&& final(board).layout == old(board).layout
                &&& final(board).turn == old(board).turn
            },
            Command::Move => {
                &&& final(board).layout == old(board).layout
                &&& final(board).colorize == old(board).colorize
                &&& match selector_index(line@) {
                    Some(i) => if old(board).grid@[i] is Empty {
                        let moved = old(board).grid@.update(
                            i,
                            mark_of(old(board).current_player),
                        );
                        &&& final(board).grid@ == moved
                        &&& if old(board).turn >= 5 && wins(moved, old(board).current_player) {
                            &&& r == StepOutcome::Won(old(board).current_player)
                            &&& final(board).state is Win
                            &&& final(board).current_player == old(board).current_player
                            &&& final(board).turn == old(board).turn
                        } else if old(board).turn == 9 {
                            &&& r is Drawn
                            &&& final(board).state is Draw
                            &&& final(board).current_player == old(board).current_player
                            &&& final(board).turn == old(board).turn
                        } else {
                            &&& r is Continued
                            &&& final(board).state is Playing
                            &&& final(board).current_player == other_player(
                                old(board).current_player,
                            )
                            &&& final(board).turn == old(board).turn + 1
                        }
                    } else {
                        r is Invalid && same_board(*final(board), *old(board))
                    },
                    None => r is Invalid && same_board(*final(board), *old(board)),
                }
            },
        },
{
    match classify_command(line) {
        Command::Empty => StepOutcome::Reprompt,
        Command::Quit => StepOutcome::Quit,
        Command::Restart => {
            *board = Board::new(BoardLayout::Numbered);
            StepOutcome::Restarted
        },
        Command::ToggleLayout => {
            board.toggle_layout();
            StepOutcome::ToggledLayout
        },
        Command::ToggleColor => {
            board.toggle_color();
            StepOutcome::ToggledColor
        },
        Command::Move => {
            if !board.mark(line) {
                StepOutcome::Invalid
            } else {
                match board.check_winner() {
                    Some(p) => StepOutcome::Won(p),
                    None => match board.state {
                        BoardState::Draw => StepOutcome::Drawn,
                        _ => {
                            board.next_turn();
                            StepOutcome::Continued
                        },
                    },
                }
            }
        },
    }
}

/// What an answer to the play-again question asks for.
#[derive(Clone, Copy, PartialEq, Eq, Structural, Debug)]
pub enum PlayAgainOutcome {
    /// Start a new game.
    Restart,
    /// End the program.
    Quit,
    /// Not an answer: put the same question up again.
    Ask,
}

/// The decision an answer to the play-again question denotes. Yes and
/// the restart keywords start over; no and the quit keywords leave;
/// anything else, a blank line included, asks again. All of it up to
/// ASCII case.
pub open spec fn play_again_decision(s: Seq<char>) -> PlayAgainOutcome {
    match classified(s) {
        Command::Empty => PlayAgainOutcome::Ask,
        Command::Quit => PlayAgainOutcome::Quit,
        Command::Restart => PlayAgainOutcome::Restart,
        Command::ToggleLayout => PlayAgainOutcome::Ask,
        Command::ToggleColor => PlayAgainOutcome::Ask,
        Command::Move => if is_word(s, "y"@) || is_word(s, "yes"@) {
            PlayAgainOutcome::Restart
        } else if is_word(s, "n"@) || is_word(s, "no"@) {
            PlayAgainOutcome::Quit
        } else {
            PlayAgainOutcome::Ask
        },
    }
}

/// Classifies one answer to the play-again question.
pub fn check_play_again(answer: &str) -> (r: PlayAgainOutcome)
    ensures
        r == play_again_decision(answer@),
{
    match classify_command(answer) {
        Command::Empty => PlayAgainOutcome::Ask,
        Command::Quit => PlayAgainOutcome::Quit,
        Command::Restart => PlayAgainOutcome::Restart,
        Command::ToggleLayout => PlayAgainOutcome::Ask,
        Command::ToggleColor => PlayAgainOutcome::Ask,
        Command::Move => {
            if word_matches(answer, "y") || word_matches(answer, "yes") {
                PlayAgainOutcome::Restart
            } else if word_matches(answer, "n") || word_matches(answer, "no") {
                PlayAgainOutcome::Quit
            } else {
                PlayAgainOutcome::Ask
            }
        },
    }
}

} // verus!
