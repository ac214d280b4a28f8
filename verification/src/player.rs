use vstd::prelude::*;

verus! {

/// One of the two players. A player's mark is also what a claimed cell
/// holds, and the active player is the one whose turn it is.
#[derive(Clone, Copy, PartialEq, Eq, Structural, Debug)]
pub enum Player {
    X,
    O,
}

/// The single character that stands for a player: 'X' or 'O'.
pub open spec fn player_char(p: Player) -> char {
    match p {
        Player::X => 'X',
        Player::O => 'O',
    }
}

/// The player who moves after `p`.
pub open spec fn other_player(p: Player) -> Player {
    match p {
        Player::X => Player::O,
        Player::O => Player::X,
    }
}

impl Player {
    /// The character this player is shown as.
    pub fn label(&self) -> (c: char)
        ensures
            c == player_char(*self),
    {
        match self {
            Player::X => 'X',
            Player::O => 'O',
        }
    }
}

} // verus!
