//! The envelopes in which the server sends its messages.
use vstd::prelude::*;

use crate::enums::PlayerTeam;
use crate::xml_result::{Definition, Scores, Winner};
use crate::xml_state::State;

verus! {

/// The payload of a room message. `class` names its kind; the other fields
/// are present for some kinds only.
#[derive(Debug, Clone, PartialEq, Eq)]
pub struct Data {
    pub class: String,
    /// Present in a snapshot message.
    pub state: Option<State>,
    /// Present in a welcome message.
    pub color: Option<PlayerTeam>,
    /// Present in a result message.
    pub definition: Option<Definition>,
    /// Present in a result message.
    pub scores: Option<Scores>,
    /// Present in a result message that has a winner.
    pub winner: Option<Winner>,
}

/// A message for one room.
#[derive(Debug, Clone, PartialEq, Eq)]
pub struct Room {
    pub data: Data,
    pub room_id: String,
}

/// The notice that a room was left.
#[derive(Debug, Clone, PartialEq, Eq)]
pub struct Left {
    pub room_id: String,
}

/// One framed chunk of the server's stream.
#[derive(Debug, Clone, PartialEq, Eq)]
pub struct Received {
    pub left: Option<Left>,
    pub rooms: Vec<Room>,
}

/// The server's answer to a join request.
#[derive(Debug, Clone, PartialEq, Eq)]
pub struct Joined {
    pub room_id: String,
}

} // verus!
