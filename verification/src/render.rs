//! Projection of a game state into a display-agnostic render model.
//!
//! [`project`] is a pure view transform: it copies the board into a grid of
//! display symbols, passes the selection cursor through for highlighting, and
//! builds the status line. It performs no game logic and never mutates the
//! game, so redrawing every frame from the same state yields the same model.

use vstd::prelude::*;
use crate::game::Cell;
use crate::game::GameStatus;
use crate::game::Player;
use crate::game::TicTacToe;

verus! {

/// What a display surface needs to draw one frame: the nine cell symbols in
/// row-major order, the cell to highlight, and the status line under the
/// board.
pub struct RenderModel {
    pub symbols: [char; 9],
    pub selected: (u8, u8),
    pub status_line: String,
}

/// The display symbol of one board square.
pub open spec fn cell_symbol(c: Cell) -> char {
    match c {
        Cell::Empty => ' ',
        Cell::Occupied(Player::X) => 'X',
        Cell::Occupied(Player::O) => 'O',
    }
}

/// The status line: whose turn it is while the game runs, otherwise the
/// outcome.
pub open spec fn status_text(st: GameStatus, turn: Player) -> Seq<char> {
    match st {
        GameStatus::Incomplete => if turn == Player::X {
            "X's turn"@
        } else {
            "O's turn"@
        },
        GameStatus::Tie => "It's a tie!"@,
        GameStatus::Victory(p) => if p == Player::X {
            "X has won!"@
        } else {
            "O has won!"@
        },
    }
}

/// The display symbol of one board square.
pub fn cell_char(c: Cell) -> (s: char)
    ensures
        s == cell_symbol(c),
{
    match c {
        Cell::Empty => ' ',
        Cell::Occupied(Player::X) => 'X',
        Cell::Occupied(Player::O) => 'O',
    }
}

/// Project a game state into the model a display surface draws from. Pure:
/// the game is read, never changed, and equal states give equal models.
pub fn project(game: &TicTacToe) -> (model: RenderModel)
    ensures
        model.selected == game.selected,
        model.status_line@ == status_text(game.status, game.turn),
        forall|i: int| 0 <= i < 9 ==> model.symbols@[i] == cell_symbol(game.board@[i]),
{
    let mut symbols: [char; 9] = [' '; 9];
    let mut i: usize = 0;
    while i < 9
        invariant
            i <= 9,
            forall|j: int| 0 <= j < i ==> symbols@[j] == cell_symbol(game.board@[j]),
        decreases 9 - i,
    {
        symbols[i] = cell_char(game.board[i]);
        i = i + 1;
    }
    let status_line: String = match game.status {
        GameStatus::Incomplete => match game.turn {
            Player::X => String::from_str("X's turn"),
            Player::O => String::from_str("O's turn"),
        },
        GameStatus::Tie => String::from_str("It's a tie!"),
        GameStatus::Victory(Player::X) => String::from_str("X has won!"),
        GameStatus::Victory(Player::O) => String::from_str("O has won!"),
    };
    RenderModel { symbols, selected: game.selected, status_line }
}

} // verus!
