use vstd::prelude::*;

use crate::conversion::{FromSerializable, ToSerializable};
use crate::coordinates::{Coordinates, Vec2};
use crate::xml_client;
use crate::xml_state::LastMove;

verus! {

/// A move of the piece at `from` to the square `to`.
#[derive(Debug, Clone, Copy, PartialEq, Eq, Hash, Structural)]
pub struct Move {
    pub from: Coordinates,
    pub to: Coordinates,
}

impl FromSerializable<LastMove> for Move {
    open spec fn from_serializable_spec(s: &LastMove) -> Move {
        Move { from: Vec2 { x: s.from.x, y: s.from.y }, to: Vec2 { x: s.to.x, y: s.to.y } }
    }

    fn from_serializable(s: &LastMove) -> (r: Move) {
        let from = Coordinates::from_serializable(&s.from);
        let to = Coordinates::from_serializable(&s.to);
        Move { from, to }
    }
}

impl ToSerializable<xml_client::Move> for Move {
    open spec fn to_serializable_spec(&self) -> xml_client::Move {
        xml_client::Move {
            from: xml_client::From { x: self.from.x, y: self.from.y },
            to: xml_client::To { x: self.to.x, y: self.to.y },
        }
    }

    fn to_serializable(&self) -> (r: xml_client::Move) {
        xml_client::Move {
            from: xml_client::From { x: self.from.x, y: self.from.y },
            to: xml_client::To { x: self.to.x, y: self.to.y },
        }
    }
}

} // verus!
