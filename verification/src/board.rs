//! What the move rules read of a board: whose turn it is, which colour a piece
//! has and whether a move is listed. The board itself is kept outside the
//! library; these facts are reported about it.
use vstd::prelude::*;
use crate::player::PlayerColor;

verus! {

/// Number of cells of the board.
pub const BOARD_CELLS: usize = 54;

/// The state of play recorded on a board.
#[derive(Clone, Copy, Debug, PartialEq, Eq, Structural)]
pub enum BoardStatus {
    WhitesMove,
    BlacksMove,
    Mate,
}

/// Whether `color` is to move in `status`; nobody moves once the game is over.
pub open spec fn turn_of(status: BoardStatus, color: PlayerColor) -> bool {
    match status {
        BoardStatus::WhitesMove => color == PlayerColor::White,
        BoardStatus::BlacksMove => color == PlayerColor::Black,
        BoardStatus::Mate => false,
    }
}

impl BoardStatus {
    /// Whether `color` is to move.
    pub fn is_turn_of(self, color: PlayerColor) -> (yes: bool)
        ensures
            yes == turn_of(self, color),
    {
        match self {
            BoardStatus::WhitesMove => color == PlayerColor::White,
            BoardStatus::BlacksMove => color == PlayerColor::Black,
            BoardStatus::Mate => false,
        }
    }
}

/// What a move request is judged on, read from the board before the move.
#[derive(Clone, Copy, Debug)]
pub struct MoveFacts {
    /// The board's status.
    pub status: BoardStatus,
    /// The colour of the piece on the cell the move starts from, if any.
    pub piece_at_from: Option<PlayerColor>,
    /// Whether the requested move is among the moves the board lists for that cell.
    pub move_listed: bool,
}

/// A move by `color` is played when it is that side's turn, the starting cell
/// holds no piece of the other side, and the board lists the move.
pub open spec fn move_allowed(facts: MoveFacts, color: PlayerColor) -> bool {
    &&& turn_of(facts.status, color)
    &&& !(facts.piece_at_from matches Some(c) && c != color)
    &&& facts.move_listed
}

/// Whether the board facts admit a move by `color`.
pub fn board_admits(facts: &MoveFacts, color: PlayerColor) -> (yes: bool)
    ensures
        yes == move_allowed(*facts, color),
{
    if !facts.status.is_turn_of(color) {
        return false;
    }
    match facts.piece_at_from {
        Some(c) => {
            if c != color {
                return false;
            }
        },
        None => {},
    }
    facts.move_listed
}

/// What is read of one cell after a move has been played.
#[derive(Clone, Copy, Debug)]
pub struct CellFacts {
    /// The colour of the piece on the cell, if any.
    pub piece: Option<PlayerColor>,
    /// How many moves the board lists for that piece.
    pub moves: usize,
}

/// A piece of the side that did not move, with at least one listed move.
pub open spec fn can_reply(cell: CellFacts, mover: PlayerColor) -> bool {
    cell.piece matches Some(c) && c != mover && cell.moves > 0
}

/// Whether the side that did not move has any move at all.
pub open spec fn reply_exists(cells: Seq<CellFacts>, mover: PlayerColor) -> bool {
    exists|i: int| 0 <= i < cells.len() && can_reply(#[trigger] cells[i], mover)
}

/// Scans the cells, in order, for a piece of the other side that can move.
pub fn opponent_can_move(cells: &Vec<CellFacts>, mover: PlayerColor) -> (found: bool)
    ensures
        found == reply_exists(cells@, mover),
{
    let mut i: usize = 0;
    while i < cells.len()
        invariant
            i <= cells.len(),
            forall|j: int| 0 <= j < i ==> !can_reply(#[trigger] cells@[j], mover),
        decreases cells.len() - i,
    {
        let cell = cells[i];
        match cell.piece {
            Some(c) => {
                if c != mover && cell.moves > 0 {
                    assert(can_reply(cells@[i as int], mover));
                    return true;
                }
            },
            None => {},
        }
        i = i + 1;
    }
    false
}

} // verus!
