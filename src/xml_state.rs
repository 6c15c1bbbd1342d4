//! The game state as the server's snapshot message lays it out.
use vstd::prelude::*;

use crate::enums::{PieceType, PlayerTeam};

verus! {

/// The team that made the first move.
#[derive(Debug, Clone, Copy, PartialEq, Eq)]
pub struct StartTeam {
    pub team: PlayerTeam,
}

/// A square as the server writes it.
#[derive(Debug, Clone, Copy, PartialEq, Eq)]
pub struct Coordinates {
    pub x: i32,
    pub y: i32,
}

/// A piece as the server writes it, without its square.
#[derive(Debug, Clone, Copy, PartialEq, Eq)]
pub struct Piece {
    pub piece_type: PieceType,
    pub team: PlayerTeam,
    pub count: i32,
}

/// One occupied square of the board.
#[derive(Debug, Clone, Copy, PartialEq, Eq)]
pub struct PiecesEntry {
    pub coordinates: Coordinates,
    pub piece: Piece,
}

/// The occupied squares of the board.
#[derive(Debug, Clone, PartialEq, Eq)]
pub struct Pieces {
    pub entries: Vec<PiecesEntry>,
}

#[derive(Debug, Clone, PartialEq, Eq)]
pub struct Board {
    pub pieces: Pieces,
}

/// The square a move starts from.
#[derive(Debug, Clone, Copy, PartialEq, Eq)]
pub struct From {
    pub x: i32,
    pub y: i32,
}

/// The square a move ends on.
#[derive(Debug, Clone, Copy, PartialEq, Eq)]
pub struct To {
    pub x: i32,
    pub y: i32,
}

#[derive(Debug, Clone, Copy, PartialEq, Eq)]
pub struct LastMove {
    pub from: From,
    pub to: To,
}

#[derive(Debug, Clone, Copy, PartialEq, Eq)]
pub struct Team {
    pub team: PlayerTeam,
}

#[derive(Debug, Clone, Copy, PartialEq, Eq)]
pub struct Int {
    pub value: i32,
}

/// The amber count of one team.
#[derive(Debug, Clone, Copy, PartialEq, Eq)]
pub struct AmbersEntry {
    pub team: Team,
    pub int: Int,
}

/// The amber counts of the teams.
#[derive(Debug, Clone, PartialEq, Eq)]
pub struct Ambers {
    pub enum_type: String,
    pub entries: Vec<AmbersEntry>,
}

/// The full state of a game, as a snapshot message carries it.
#[derive(Debug, Clone, PartialEq, Eq)]
pub struct State {
    pub start_team: StartTeam,
    pub board: Board,
    pub last_move: Option<LastMove>,
    pub ambers: Ambers,
    pub turn: i32,
}

} // verus!
