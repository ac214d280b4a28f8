use crate::player::{other_player, Player};
use vstd::prelude::*;
use vstd::string::StrSliceExecFns;

verus! {

/// What one of the nine board positions holds.
#[derive(Clone, Copy, PartialEq, Eq, Structural, Debug)]
pub enum Cell {
    Empty,
    X,
    O,
}

/// Where the game stands. `Playing` is the initial state; `Win` and
/// `Draw` are terminal: no method moves a board out of them.
#[derive(Clone, Copy, PartialEq, Eq, Structural, Debug)]
pub enum BoardState {
    Win,
    Draw,
    Playing,
}

/// How empty cells are displayed: with their 1-based position label, or
/// blank. Display only; the layout never affects occupancy.
#[derive(Clone, Copy, PartialEq, Eq, Structural, Debug)]
pub enum BoardLayout {
    Numbered,
    Blank,
}

/// The mark the given player places.
pub open spec fn mark_of(p: Player) -> Cell {
    match p {
        Player::X => Cell::X,
        Player::O => Cell::O,
    }
}

/// The layout after one toggle.
pub open spec fn toggled(l: BoardLayout) -> BoardLayout {
    match l {
        BoardLayout::Numbered => BoardLayout::Blank,
        BoardLayout::Blank => BoardLayout::Numbered,
    }
}

/// The 1-based position label of the cell at `index`, as a digit
/// character ('1' for index 0 through '9' for index 8).
pub open spec fn index_digit(index: int) -> char {
    if index == 0 {
        '1'
    } else if index == 1 {
        '2'
    } else if index == 2 {
        '3'
    } else if index == 3 {
        '4'
    } else if index == 4 {
        '5'
    } else if index == 5 {
        '6'
    } else if index == 6 {
        '7'
    } else if index == 7 {
        '8'
    } else {
        '9'
    }
}

/// What an empty cell at `index` displays under `layout`.
pub open spec fn label_char(layout: BoardLayout, index: int) -> char {
    match layout {
        BoardLayout::Numbered => index_digit(index),
        BoardLayout::Blank => ' ',
    }
}

/// The character a cell displays: its mark if claimed, else its label
/// under the current layout.
pub open spec fn display_char(c: Cell, layout: BoardLayout, index: int) -> char {
    match c {
        Cell::X => 'X',
        Cell::O => 'O',
        Cell::Empty => label_char(layout, index),
    }
}

/// Whether `c` is a decimal digit.
pub open spec fn is_digit(c: char) -> bool {
    '0' <= c && c <= '9'
}

/// The numeric value of the digit `c`.
pub open spec fn digit_val(c: char) -> int {
    c as int - '0' as int
}

/// The digits of a selector: a leading '+' sign, if any, is dropped.
pub open spec fn digits_part(s: Seq<char>) -> Seq<char> {
    if s.len() > 0 && s[0] == '+' {
        s.skip(1)
    } else {
        s
    }
}

/// The selector reads as a non-negative decimal integer: at least one
/// digit after the optional sign, and nothing but digits.
pub open spec fn is_numeric(s: Seq<char>) -> bool {
    &&& digits_part(s).len() > 0
    &&& forall|i: int|
        0 <= i < digits_part(s).len() ==> is_digit(#[trigger] digits_part(s)[i])
}

/// The value of a sequence of digits read in base ten.
pub open spec fn digits_value(ds: Seq<char>) -> int
    decreases ds.len(),
{
    if ds.len() == 0 {
        0
    } else {
        digits_value(ds.drop_last()) * 10 + digit_val(ds.last())
    }
}

/// The integer a selector denotes, if it reads as one.
pub open spec fn selector_value(s: Seq<char>) -> Option<int> {
    if is_numeric(s) {
        Some(digits_value(digits_part(s)))
    } else {
        None
    }
}

/// The zero-based cell index a selector picks: its value less one,
/// provided the value lies in 1 through 9. Everything else - a
/// non-numeric selector, zero, or a value past nine - picks no cell.
pub open spec fn selector_index(s: Seq<char>) -> Option<int> {
    match selector_value(s) {
        Some(v) => if 1 <= v && v <= 9 {
            Some(v - 1)
        } else {
            None
        },
        None => None,
    }
}

/// The cells at `a`, `b` and `c` all hold player `p`'s mark.
pub open spec fn triple_matched(g: Seq<Cell>, p: Player, a: int, b: int, c: int) -> bool {
    &&& g[a] == mark_of(p)
    &&& g[b] == mark_of(p)
    &&& g[c] == mark_of(p)
}

/// Player `p` has fully claimed at least one of the eight winning
/// lines: three rows, three columns, two diagonals.
pub open spec fn wins(g: Seq<Cell>, p: Player) -> bool {
    ||| triple_matched(g, p, 0, 1, 2)
    ||| triple_matched(g, p, 3, 4, 5)
    ||| triple_matched(g, p, 6, 7, 8)
    ||| triple_matched(g, p, 0, 3, 6)
    ||| triple_matched(g, p, 1, 4, 7)
    ||| triple_matched(g, p, 2, 5, 8)
    ||| triple_matched(g, p, 0, 4, 8)
    ||| triple_matched(g, p, 2, 4, 6)
}

/// Reads a selector as a cell index: `Some(i)` exactly when the text
/// denotes an integer from 1 through 9, where `i` is that integer less
/// one. An optional leading '+' is accepted, as a decimal integer
/// parser would.
fn parse_selector(s: &str) -> (r: Option<usize>)
    ensures
        match r {
            Some(i) => selector_index(s@) == Some(i as int) && i < 9,
            None => selector_index(s@) is None,
        },
{
    let len = s.unicode_len();
    let start: usize = if len > 0 && s.get_char(0) == '+' {
        1
    } else {
        0
    };
    if start >= len {
        assert(digits_part(s@).len() == 0);
        return None;
    }
    let ghost ds = digits_part(s@);
    assert(ds =~= s@.skip(start as int));
    let mut i: usize = start;
    let mut val: u32 = 0;
    while i < len
        invariant
            start <= i <= len,
            len == s@.len(),
            ds == digits_part(s@),
            ds =~= s@.skip(start as int),
            forall|j: int| start <= j < i ==> is_digit(#[trigger] s@[j]),
            val <= 10,
            digits_value(s@.subrange(start as int, i as int)) >= 0,
            digits_value(s@.subrange(start as int, i as int)) <= 9 ==> val == digits_value(
                s@.subrange(start as int, i as int),
            ),
            digits_value(s@.subrange(start as int, i as int)) > 9 ==> val == 10,
        decreases len - i,
    {
        let c = s.get_char(i);
        if !('0' <= c && c <= '9') {
            assert(ds[i - start] == s@[i as int]);
            assert(!is_numeric(s@));
            return None;
        }
        let d: u32 = c as u32 - 48;
        proof {
            let pfx = s@.subrange(start as int, i as int);
            let pfx2 = s@.subrange(start as int, i + 1 as int);
            assert(pfx2.drop_last() =~= pfx);
            assert(pfx2.last() == s@[i as int]);
            assert(digits_value(pfx2) == digits_value(pfx) * 10 + digit_val(s@[i as int]));
            assert(digit_val(s@[i as int]) == d);
        }
        let mut nv: u32 = val * 10 + d;
        if nv > 10 {
            nv = 10;
        }
        val = nv;
        i = i + 1;
    }
    proof {
        assert(s@.subrange(start as int, len as int) =~= ds);
        assert(forall|k: int| 0 <= k < ds.len() ==> is_digit(#[trigger] ds[k]));
        assert(is_numeric(s@));
    }
    if 1 <= val && val <= 9 {
        Some((val - 1) as usize)
    } else {
        None
    }
}

/// The board: nine cells, the player to move, the count of successful
/// moves so far (starting at 1), the game state, and two display-only
/// settings.
pub struct Board {
    pub grid: Vec<Cell>,
    pub current_player: Player,
    pub state: BoardState,
    pub colorize: bool,
    pub layout: BoardLayout,
    pub turn: u8,
}

impl Board {
    /// The grid holds exactly nine cells, and is never resized.
    pub open spec fn wf(&self) -> bool {
        self.grid@.len() == 9
    }

    /// A fresh board: all cells empty, X to move, turn 1, playing, with
    /// the given layout and colorizing off.
    pub fn new(layout: BoardLayout) -> (b: Board)
        ensures
            b.wf(),
            forall|i: int| 0 <= i < 9 ==> b.grid@[i] is Empty,
            b.current_player is X,
            b.state is Playing,
            b.colorize == false,
            b.layout == layout,
            b.turn == 1,
    {
        let mut grid: Vec<Cell> = Vec::new();
        let mut i: usize = 0;
        while i < 9
            invariant
                i <= 9,
                grid@.len() == i,
                forall|j: int| 0 <= j < i ==> grid@[j] is Empty,
            decreases 9 - i,
        {
            grid.push(Cell::Empty);
            i = i + 1;
        }
        Board {
            grid,
            current_player: Player::X,
            state: BoardState::Playing,
            colorize: false,
            layout,
            turn: 1,
        }
    }

    /// Whether the cell at `index` is still open for a move.
    fn cell_is_empty(&self, index: usize) -> (r: bool)
        requires
            self.wf(),
            index < 9,
        ensures
            r == (self.grid@[index as int] is Empty),
    {
        match self.grid[index] {
            Cell::Empty => true,
            _ => false,
        }
    }

    /// Attempts a move. The selector must denote an integer from 1
    /// through 9 whose cell is still empty; then that cell takes the
    /// current player's mark and the call returns true. On a
    /// non-numeric selector, an out-of-range value or an occupied cell
    /// the call returns false and nothing changes - the three failures
    /// are indistinguishable to the caller.
    pub fn mark(&mut self, grid_number: &str) -> (r: bool)
        requires
            old(self).wf(),
        ensures
            final(self).wf(),
            final(self).current_player == old(self).current_player,
            final(self).state == old(self).state,
            final(self).colorize == old(self).colorize,
            final(self).layout == old(self).layout,
            final(self).turn == old(self).turn,
            match selector_index(grid_number@) {
                Some(i) => if old(self).grid@[i] is Empty {
                    r && final(self).grid@ == old(self).grid@.update(
                        i,
                        mark_of(old(self).current_player),
                    )
                } else {
                    !r && final(self).grid@ == old(self).grid@
                },
                None => !r && final(self).grid@ == old(self).grid@,
            },
    {
        let index = match parse_selector(grid_number) {
            Some(i) => i,
            None => {
                return false;
            },
        };
        if self.cell_is_empty(index) {
            let m = match self.current_player {
                Player::X => Cell::X,
                Player::O => Cell::O,
            };
            self.grid[index] = m;
            true
        } else {
            false
        }
    }

    /// Whether the current player's mark fills the given line of three
    /// cell indices.
    fn match_pattern(&self, line: [usize; 3]) -> (r: bool)
        requires
            self.wf(),
            line@[0] < 9,
            line@[1] < 9,
            line@[2] < 9,
        ensures
            r == triple_matched(
                self.grid@,
                self.current_player,
                line@[0] as int,
                line@[1] as int,
                line@[2] as int,
            ),
    {
        let mark = match self.current_player {
            Player::X => Cell::X,
            Player::O => Cell::O,
        };
        self.grid[line[0]] == mark && self.grid[line[1]] == mark && self.grid[line[2]] == mark
    }

    /// Hands the turn over: swaps the current player and advances the
    /// turn count by one. To be called only while the game is still
    /// playing and the move just made produced no winner.
    pub fn next_turn(&mut self)
        requires
            old(self).wf(),
            old(self).state is Playing,
            old(self).turn < 255,
        ensures
            final(self).wf(),
            final(self).current_player == other_player(old(self).current_player),
            final(self).turn == old(self).turn + 1,
            final(self).grid@ == old(self).grid@,
            final(self).state == old(self).state,
            final(self).colorize == old(self).colorize,
            final(self).layout == old(self).layout,
    {
        self.current_player = match self.current_player {
            Player::X => Player::O,
            Player::O => Player::X,
        };
        self.turn = self.turn + 1;
    }

    /// Looks for a finished game after a move. Below turn 5 - the
    /// least number of marks any win takes - nothing is checked and
    /// nothing changes. From turn 5 on: if the current player (the one
    /// who just moved; the other player is never checked) fills one of
    /// the eight lines, the state becomes Win and that player is
    /// returned. Otherwise, on turn 9 the board is full and the state
    /// becomes Draw; on earlier turns the game goes on. The grid, the
    /// players and the turn count are never touched.
    pub fn check_winner(&mut self) -> (r: Option<Player>)
        requires
            old(self).wf(),
            old(self).state is Playing,
        ensures
            final(self).wf(),
            final(self).grid@ == old(self).grid@,
            final(self).current_player == old(self).current_player,
            final(self).turn == old(self).turn,
            final(self).colorize == old(self).colorize,
            final(self).layout == old(self).layout,
            old(self).turn < 5 ==> r is None && final(self).state == old(self).state,
            old(self).turn >= 5 ==> {
                if wins(old(self).grid@, old(self).current_player) {
                    r == Some(old(self).current_player) && final(self).state is Win
                } else if old(self).turn == 9 {
                    r is None && final(self).state is Draw
                } else {
                    r is None && final(self).state == old(self).state
                }
            },
            r is Some <==> old(self).turn >= 5 && wins(old(self).grid@, old(self).current_player),
            final(self).state is Draw <==> old(self).turn == 9 && !wins(
                old(self).grid@,
                old(self).current_player,
            ),
    {
        if self.turn < 5 {
            return None;
        }
        let horizontal_top = self.match_pattern([0, 1, 2]);
        let horizontal_center = self.match_pattern([3, 4, 5]);
        let horizontal_bottom = self.match_pattern([6, 7, 8]);

        let vertical_left = self.match_pattern([0, 3, 6]);
        let vertical_center = self.match_pattern([1, 4, 7]);
        let vertical_right = self.match_pattern([2, 5, 8]);

        let main_diagonal = self.match_pattern([0, 4, 8]);
        let anti_diagonal = self.match_pattern([2, 4, 6]);

        if horizontal_top || horizontal_center || horizontal_bottom || vertical_left
            || vertical_center || vertical_right || main_diagonal || anti_diagonal {
            self.state = BoardState::Win;
            return Some(self.current_player);
        }
        if self.turn == 9 {
            self.state = BoardState::Draw;
        }
        None
    }

    /// Flips the display mode of empty cells between numbered and
    /// blank. Occupancy, and every other part of the board, is
    /// untouched: cells holding a mark display the same either way.
    pub fn toggle_layout(&mut self)
        requires
            old(self).wf(),
        ensures
            final(self).wf(),
            final(self).layout == toggled(old(self).layout),
            final(self).grid@ == old(self).grid@,
            final(self).current_player == old(self).current_player,
            final(self).state == old(self).state,
            final(self).colorize == old(self).colorize,
            final(self).turn == old(self).turn,
    {
        self.layout = match self.layout {
            BoardLayout::Numbered => BoardLayout::Blank,
            BoardLayout::Blank => BoardLayout::Numbered,
        };
    }

    /// Flips the colorize flag. Display only: when set, a renderer is
    /// to highlight the X and O marks; empty cells are never colorized.
    pub fn toggle_color(&mut self)
        requires
            old(self).wf(),
        ensures
            final(self).wf(),
            final(self).colorize == !old(self).colorize,
            final(self).grid@ == old(self).grid@,
            final(self).current_player == old(self).current_player,
            final(self).state == old(self).state,
            final(self).layout == old(self).layout,
            final(self).turn == old(self).turn,
    {
        self.colorize = !self.colorize;
    }

    /// The character the cell at `index` displays: its mark, or its
    /// label under the current layout if it is empty.
    pub fn cell_display(&self, index: usize) -> (c: char)
        requires
            self.wf(),
            index < 9,
        ensures
            c == display_char(self.grid@[index as int], self.layout, index as int),
    {
        match self.grid[index] {
            Cell::X => 'X',
            Cell::O => 'O',
            Cell::Empty => self.layout.value(index),
        }
    }
}

impl BoardLayout {
    /// The label an empty cell at `index` displays under this layout:
    /// its 1-based position as a digit when numbered, a space when
    /// blank.
    pub fn value(&self, index: usize) -> (c: char)
        requires
            index < 9,
        ensures
            c == label_char(*self, index as int),
    {
        match self {
            BoardLayout::Numbered => match index {
                0 => '1',
                1 => '2',
                2 => '3',
                3 => '4',
                4 => '5',
                5 => '6',
                6 => '7',
                7 => '8',
                _ => '9',
            },
            BoardLayout::Blank => ' ',
        }
    }
}

/// The number of layout toggles `n` applied to `l`.
pub open spec fn toggled_n(l: BoardLayout, n: nat) -> BoardLayout
    decreases n,
{
    if n == 0 {
        l
    } else {
        toggled(toggled_n(l, (n - 1) as nat))
    }
}

/// Toggling the layout twice restores every cell's displayed
/// character, and a cell holding a mark displays the same under any
/// number of toggles.
pub proof fn lemma_toggle_layout_display(c: Cell, l: BoardLayout, index: int, n: nat)
    ensures
        display_char(c, toggled_n(l, 2), index) == display_char(c, l, index),
        c != Cell::Empty ==> display_char(c, toggled_n(l, n), index) == display_char(c, l, index),
    decreases n,
{
    assert(toggled_n(l, 1) == toggled(toggled_n(l, 0)));
    assert(toggled_n(l, 2) == toggled(toggled_n(l, 1)));
    if n > 0 {
        lemma_toggle_layout_display(c, l, index, (n - 1) as nat);
    }
}

/// Two layout toggles undo each other on a whole board: where `b1` is
/// `b0` after one `toggle_layout` and `b2` is `b1` after another, every
/// cell of `b2` displays exactly what it did on `b0`.
pub proof fn lemma_toggle_layout_twice(b0: Board, b1: Board, b2: Board, index: int)
    requires
        0 <= index < 9,
        b1.layout == toggled(b0.layout),
        b1.grid@ == b0.grid@,
        b2.layout == toggled(b1.layout),
        b2.grid@ == b1.grid@,
    ensures
        display_char(b2.grid@[index], b2.layout, index) == display_char(
            b0.grid@[index],
            b0.layout,
            index,
        ),
{
}

} // verus!
