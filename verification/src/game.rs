//! The tic-tac-toe state machine: board, selection cursor, turn, and status.
//!
//! The board is a fixed 3x3 grid of cells stored row-major, addressed by
//! `(column, row)` with both in `[0, 2]`. Every operation is total: moves on
//! an occupied square or after the game has ended are no-ops, and the cursor
//! clamps at the board's edges.

use vstd::prelude::*;

verus! {

/// One of the two players. `X` always moves first.
#[derive(Clone, Copy, PartialEq, Eq, Structural, Debug)]
pub enum Player {
    X,
    O,
}

/// One of the nine board squares: empty, or claimed by a player.
#[derive(Clone, Copy, PartialEq, Eq, Structural, Debug)]
pub enum Cell {
    Empty,
    Occupied(Player),
}

/// Whether the game is over, and how.
///
/// `Tie` and `Victory` are terminal: once reached, only `restart` changes the
/// game again.
#[derive(Clone, Copy, PartialEq, Eq, Structural, Debug)]
pub enum GameStatus {
    Tie,
    Victory(Player),
    Incomplete,
}

impl Player {
    /// The opposing player.
    pub open spec fn other(self) -> Player {
        match self {
            Player::X => Player::O,
            Player::O => Player::X,
        }
    }
}

/// The whole game state. The board is row-major: the cell at column `c`,
/// row `r` sits at index `r * 3 + c`.
#[derive(Clone, Copy)]
pub struct TicTacToe {
    pub status: GameStatus,
    pub board: [Cell; 9],
    pub selected: (u8, u8),
    pub turn: Player,
}

impl TicTacToe {
    /// The selection cursor stays on the board.
    pub open spec fn well_formed(self) -> bool {
        self.selected.0 < 3 && self.selected.1 < 3
    }

    /// The cell at column `c`, row `r`.
    pub open spec fn cell(self, c: int, r: int) -> Cell
        recommends
            0 <= c < 3,
            0 <= r < 3,
    {
        self.board@[r * 3 + c]
    }

    /// The flat board index of the selection cursor.
    pub open spec fn selected_index(self) -> int {
        self.selected.1 * 3 + self.selected.0
    }

    /// The cell under the selection cursor.
    pub open spec fn selected_cell(self) -> Cell {
        self.board@[self.selected_index()]
    }

    /// The three given squares are all claimed by `p`.
    pub open spec fn line_won(
        self,
        p: Player,
        c1: int,
        r1: int,
        c2: int,
        r2: int,
        c3: int,
        r3: int,
    ) -> bool {
        &&& self.cell(c1, r1) == Cell::Occupied(p)
        &&& self.cell(c2, r2) == Cell::Occupied(p)
        &&& self.cell(c3, r3) == Cell::Occupied(p)
    }

    /// `p` has completed one of the eight winning lines: a row, a column, or
    /// a diagonal.
    pub open spec fn player_wins(self, p: Player) -> bool {
        ||| self.line_won(p, 0, 0, 1, 0, 2, 0)
        ||| self.line_won(p, 0, 1, 1, 1, 2, 1)
        ||| self.line_won(p, 0, 2, 1, 2, 2, 2)
        ||| self.line_won(p, 0, 0, 0, 1, 0, 2)
        ||| self.line_won(p, 1, 0, 1, 1, 1, 2)
        ||| self.line_won(p, 2, 0, 2, 1, 2, 2)
        ||| self.line_won(p, 0, 0, 1, 1, 2, 2)
        ||| self.line_won(p, 2, 0, 1, 1, 0, 2)
    }

    /// Every square is claimed.
    pub open spec fn board_full(self) -> bool {
        forall|i: int| 0 <= i < 9 ==> self.board@[i] != Cell::Empty
    }

    /// `st` is the verdict that win/tie evaluation reaches on this board:
    /// a victory exactly when some player has a completed line (and then for
    /// a player who has one), a tie exactly when the board is full with no
    /// winner, and incomplete otherwise.
    pub open spec fn status_describes(self, st: GameStatus) -> bool {
        &&& (st == GameStatus::Victory(Player::X) ==> self.player_wins(Player::X))
        &&& (st == GameStatus::Victory(Player::O) ==> self.player_wins(Player::O))
        &&& ((st is Victory) <==> (self.player_wins(Player::X) || self.player_wins(Player::O)))
        &&& (st == GameStatus::Tie <==> self.board_full() && !self.player_wins(Player::X)
            && !self.player_wins(Player::O))
        &&& (st == GameStatus::Incomplete <==> !self.board_full() && !self.player_wins(Player::X)
            && !self.player_wins(Player::O))
    }

    /// The configuration a game starts in: empty board, cursor at `(0, 0)`,
    /// `X` to move, status incomplete.
    pub open spec fn is_initial(self) -> bool {
        &&& self.status == GameStatus::Incomplete
        &&& self.selected == (0u8, 0u8)
        &&& self.turn == Player::X
        &&& forall|i: int| 0 <= i < 9 ==> self.board@[i] == Cell::Empty
    }

    /// A fresh game in the initial configuration.
    pub fn new() -> (game: TicTacToe)
        ensures
            game.well_formed(),
            game.is_initial(),
    {
        TicTacToe {
            status: GameStatus::Incomplete,
            board: [Cell::Empty; 9],
            selected: (0, 0),
            turn: Player::X,
        }
    }

    /// Reset to the initial configuration, discarding all prior progress.
    pub fn restart(&mut self)
        ensures
            final(self).well_formed(),
            final(self).is_initial(),
    {
        self.status = GameStatus::Incomplete;
        self.board = [Cell::Empty; 9];
        self.selected = (0, 0);
        self.turn = Player::X;
    }

    /// Step the cursor one column left, clamped at column 0. The board, the
    /// turn, and the status are untouched.
    pub fn move_left(&mut self)
        requires
            old(self).well_formed(),
        ensures
            final(self).well_formed(),
            final(self).selected.0 == if old(self).selected.0 > 0 {
                old(self).selected.0 - 1
            } else {
                0
            },
            final(self).selected.1 == old(self).selected.1,
            final(self).board == old(self).board,
            final(self).turn == old(self).turn,
            final(self).status == old(self).status,
    {
        let (x, y) = self.selected;
        self.selected = (if x > 0 { x - 1 } else { 0 }, y);
    }

    /// Step the cursor one column right, clamped at column 2. The board, the
    /// turn, and the status are untouched.
    pub fn move_right(&mut self)
        requires
            old(self).well_formed(),
        ensures
            final(self).well_formed(),
            final(self).selected.0 == if old(self).selected.0 < 2 {
                old(self).selected.0 + 1
            } else {
                2
            },
            final(self).selected.1 == old(self).selected.1,
            final(self).board == old(self).board,
            final(self).turn == old(self).turn,
            final(self).status == old(self).status,
    {
        let (x, y) = self.selected;
        self.selected = (if x < 2 { x + 1 } else { 2 }, y);
    }

    /// Step the cursor one row up, clamped at row 0. The board, the turn,
    /// and the status are untouched.
    pub fn move_up(&mut self)
        requires
            old(self).well_formed(),
        ensures
            final(self).well_formed(),
            final(self).selected.0 == old(self).selected.0,
            final(self).selected.1 == if old(self).selected.1 > 0 {
                old(self).selected.1 - 1
            } else {
                0
            },
            final(self).board == old(self).board,
            final(self).turn == old(self).turn,
            final(self).status == old(self).status,
    {
        let (x, y) = self.selected;
        self.selected = (x, if y > 0 { y - 1 } else { 0 });
    }

    /// Step the cursor one row down, clamped at row 2. The board, the turn,
    /// and the status are untouched.
    pub fn move_down(&mut self)
        requires
            old(self).well_formed(),
        ensures
            final(self).well_formed(),
            final(self).selected.0 == old(self).selected.0,
            final(self).selected.1 == if old(self).selected.1 < 2 {
                old(self).selected.1 + 1
            } else {
                2
            },
            final(self).board == old(self).board,
            final(self).turn == old(self).turn,
            final(self).status == old(self).status,
    {
        let (x, y) = self.selected;
        self.selected = (x, if y < 2 { y + 1 } else { 2 });
    }

    /// The player who has claimed all three of the squares at flat indices
    /// `a`, `b`, `c`, if there is one.
    fn line_owner(&self, a: usize, b: usize, c: usize) -> (owner: Option<Player>)
        requires
            a < 9,
            b < 9,
            c < 9,
        ensures
            owner is Some ==> {
                &&& self.board@[a as int] == Cell::Occupied(owner->0)
                &&& self.board@[b as int] == Cell::Occupied(owner->0)
                &&& self.board@[c as int] == Cell::Occupied(owner->0)
            },
            owner is None ==> forall|p: Player|
                !(self.board@[a as int] == Cell::Occupied(p) && self.board@[b as int]
                    == Cell::Occupied(p) && self.board@[c as int] == Cell::Occupied(p)),
    {
        match (self.board[a], self.board[b], self.board[c]) {
            (Cell::Occupied(p1), Cell::Occupied(p2), Cell::Occupied(p3)) => {
                if p1 == p2 && p2 == p3 {
                    Some(p1)
                } else {
                    None
                }
            },
            _ => None,
        }
    }

    /// Whether every square is claimed.
    fn board_is_full(&self) -> (full: bool)
        ensures
            full == self.board_full(),
    {
        let mut i: usize = 0;
        while i < 9
            invariant
                i <= 9,
                forall|j: int| 0 <= j < i ==> self.board@[j] != Cell::Empty,
            decreases 9 - i,
        {
            if matches!(self.board[i], Cell::Empty) {
                return false;
            }
            i = i + 1;
        }
        true
    }

    /// Evaluate the board: the eight winning lines in a fixed order (rows top
    /// to bottom, columns left to right, the two diagonals), then the tie
    /// check, as `status_describes` states.
    fn check_game_status(&self) -> (st: GameStatus)
        ensures
            self.status_describes(st),
    {
        if let Some(p) = self.line_owner(0, 1, 2) {
            return GameStatus::Victory(p);
        }
        if let Some(p) = self.line_owner(3, 4, 5) {
            return GameStatus::Victory(p);
        }
        if let Some(p) = self.line_owner(6, 7, 8) {
            return GameStatus::Victory(p);
        }
        if let Some(p) = self.line_owner(0, 3, 6) {
            return GameStatus::Victory(p);
        }
        if let Some(p) = self.line_owner(1, 4, 7) {
            return GameStatus::Victory(p);
        }
        if let Some(p) = self.line_owner(2, 5, 8) {
            return GameStatus::Victory(p);
        }
        if let Some(p) = self.line_owner(0, 4, 8) {
            return GameStatus::Victory(p);
        }
        if let Some(p) = self.line_owner(2, 4, 6) {
            return GameStatus::Victory(p);
        }
        if self.board_is_full() {
            return GameStatus::Tie;
        }
        GameStatus::Incomplete
    }

    /// Play at the selection cursor. A no-op when the game is over or the
    /// square is already claimed; otherwise the square is claimed by the
    /// player whose turn it is, the turn flips, and the status is recomputed
    /// from the post-move board.
    pub fn select_square(&mut self)
        requires
            old(self).well_formed(),
        ensures
            final(self).well_formed(),
            !(old(self).status is Incomplete) ==> *final(self) == *old(self),
            old(self).status is Incomplete && !(old(self).selected_cell() is Empty) ==> *final(self)
                == *old(self),
            old(self).status is Incomplete && old(self).selected_cell() is Empty ==> {
                &&& final(self).board@ == old(self).board@.update(
                    old(self).selected_index(),
                    Cell::Occupied(old(self).turn),
                )
                &&& final(self).selected == old(self).selected
                &&& final(self).turn == old(self).turn.other()
                &&& final(self).status_describes(final(self).status)
            },
    {
        if !matches!(self.status, GameStatus::Incomplete) {
            return;
        }
        let x: usize = self.selected.0 as usize;
        let y: usize = self.selected.1 as usize;
        let idx: usize = y * 3 + x;
        if matches!(self.board[idx], Cell::Occupied(_)) {
            return;
        }
        self.board[idx] = Cell::Occupied(self.turn);
        self.turn = match self.turn {
            Player::X => Player::O,
            Player::O => Player::X,
        };
        self.status = self.check_game_status();
    }
}

/// Law: win detection is complete and attributes the win to the right
/// player. If `p` has completed a line and the opponent has not, every
/// verdict that describes the board is `Victory(p)`.
pub proof fn lemma_winner_detected(s: TicTacToe, st: GameStatus, p: Player)
    requires
        s.status_describes(st),
        s.player_wins(p),
        !s.player_wins(p.other()),
    ensures
        st == GameStatus::Victory(p),
{
}

/// Law: the initial configuration is a single state. Together with the
/// contract of `restart`, this says that `restart` puts any game back into
/// exactly the state `new` builds, whatever happened before.
pub proof fn lemma_initial_unique(a: TicTacToe, b: TicTacToe)
    requires
        a.is_initial(),
        b.is_initial(),
    ensures
        a == b,
{
    assert(a.board =~= b.board);
}

} // verus!
