use vstd::prelude::*;

use crate::conversion::FromDeserializable;
use crate::coordinates::{Coordinates, Vec2};
use crate::enums::{is_light_kind, PieceType, PlayerTeam};
use crate::error::Error;
use crate::xml_state::PiecesEntry;

verus! {

/// A piece on the board: its kind, its owner, the square it stands on, and
/// how many pieces are stacked in it (1, or 2 once it has captured).
#[derive(Debug, Clone, Copy, PartialEq, Eq, Hash, Structural)]
pub struct Piece {
    pub piece_type: PieceType,
    pub team: PlayerTeam,
    pub coordinates: Coordinates,
    pub count: i32,
}

/// How far a piece stands from the column on which its team starts.
pub open spec fn dist_of(p: Piece) -> int {
    match p.team {
        PlayerTeam::One => p.coordinates.x as int,
        PlayerTeam::Two => 7 - p.coordinates.x,
    }
}

impl Piece {
    /// A stacked piece holds two pieces.
    pub fn is_stacked(&self) -> (r: bool)
        ensures
            r == (self.count == 2),
    {
        self.count == 2
    }

    /// Whether the piece is one of the light kinds.
    pub fn is_minor_piece(&self) -> (r: bool)
        ensures
            r == is_light_kind(self.piece_type),
    {
        self.piece_type.is_light()
    }

    /// The distance from the piece's column to its team's starting column.
    pub fn dist_from_starting_line(&self) -> (r: i32)
        requires
            7 - self.coordinates.x <= i32::MAX,
        ensures
            r == dist_of(*self),
    {
        match self.team {
            PlayerTeam::One => self.coordinates.x,
            PlayerTeam::Two => 7 - self.coordinates.x,
        }
    }
}

} // verus!

verus! {

/// The piece that a board entry describes, on the entry's square.
pub open spec fn piece_of_entry(e: PiecesEntry) -> Piece {
    Piece {
        piece_type: e.piece.piece_type,
        team: e.piece.team,
        coordinates: Vec2 { x: e.coordinates.x, y: e.coordinates.y },
        count: e.piece.count,
    }
}

impl FromDeserializable<PiecesEntry> for Piece {
    /// A piece holds one or two pieces; any other count is refused.
    open spec fn decodes(d: &PiecesEntry, r: &Result<Piece, Error>) -> bool {
        *r == if d.piece.count == 1 || d.piece.count == 2 {
            Ok::<Piece, Error>(piece_of_entry(*d))
        } else {
            Err::<Piece, Error>(Error::InvalidCount(d.piece.count))
        }
    }

    fn from_deserializable(d: &PiecesEntry) -> (r: Result<Piece, Error>) {
        let count = d.piece.count;
        if count != 1 && count != 2 {
            return Err(Error::InvalidCount(count));
        }
        let coordinates = match Coordinates::from_deserializable(&d.coordinates) {
            Ok(c) => c,
            Err(e) => return Err(e),
        };
        Ok(Piece { piece_type: d.piece.piece_type, team: d.piece.team, coordinates, count })
    }
}

} // verus!
