//! The messages that the client sends and receives.
use vstd::prelude::*;

use crate::conversion::FromDeserializable;
use crate::coordinates::Coordinates;
use crate::enums::{DataClass, PlayerTeam};
use crate::error::Error;
use crate::game_result::GameResult;
use crate::game_state::GameState;
use crate::moves::Move;
use crate::text::{decimal, push_decimal};
use crate::xml_data::Received;

verus! {

/// A message from the client to the server.
#[derive(Debug, Clone, PartialEq, Eq)]
pub enum ClientSideMessage {
    /// Join any open game.
    JoinAnyGame,
    /// Join the game prepared under a reservation code.
    JoinPreparedGame { reservation: String },
    /// Play a move in a room.
    Move { sent_move: Move, room_id: String },
}

/// A message from the server to the client.
#[derive(Debug, Clone)]
pub enum ServerSideMessage {
    Error,
    WelcomeMessage { room_id: String, own_team: Option<PlayerTeam> },
    Left,
    MoveRequest,
    Memento { game_state: GameState },
    Result { result: GameResult },
}

/// The element that names a square, such as `<from x="1" y="2"/>`.
pub open spec fn coordinate_element(name: Seq<char>, c: Coordinates) -> Seq<char> {
    "<"@ + name + " x=\""@ + decimal(c.x as int) + "\" y=\""@ + decimal(c.y as int) + "\"/>"@
}

/// The kind of payload that a `class` attribute names, if any.
pub open spec fn data_class_of(name: Seq<char>) -> Option<DataClass> {
    if name == "welcomeMessage"@ {
        Some(DataClass::WelcomeMessage)
    } else if name == "memento"@ {
        Some(DataClass::Memento)
    } else if name == "moveRequest"@ {
        Some(DataClass::MoveRequest)
    } else if name == "result"@ {
        Some(DataClass::Result)
    } else if name == "error"@ {
        Some(DataClass::Error)
    } else {
        None
    }
}

impl DataClass {
    /// The kind of payload that the `class` attribute `name` names.
    pub fn from_name(name: &String) -> (r: Option<DataClass>)
        ensures
            r == data_class_of(name@),
    {
        if *name == String::from_str("welcomeMessage") {
            Some(DataClass::WelcomeMessage)
        } else if *name == String::from_str("memento") {
            Some(DataClass::Memento)
        } else if *name == String::from_str("moveRequest") {
            Some(DataClass::MoveRequest)
        } else if *name == String::from_str("result") {
            Some(DataClass::Result)
        } else if *name == String::from_str("error") {
            Some(DataClass::Error)
        } else {
            None
        }
    }
}

impl ClientSideMessage {
    /// The text that the message is sent as.
    pub open spec fn xml_text(&self) -> Seq<char> {
        match self {
            ClientSideMessage::JoinAnyGame => "<protocol><join />"@,
            ClientSideMessage::JoinPreparedGame { reservation } => "<protocol><joinPrepared reservationCode=\""@
                + reservation@ + "\" />"@,
            ClientSideMessage::Move { sent_move, room_id } => "<room roomId=\""@ + room_id@
                + "\"><data class=\"move\">"@ + coordinate_element("from"@, sent_move.from)
                + coordinate_element("to"@, sent_move.to) + "</data></room>"@,
        }
    }

    /// The request to join a game: the prepared one when there is a
    /// reservation code, any open one otherwise.
    pub fn join_request(reservation: Option<String>) -> (r: ClientSideMessage)
        ensures
            r == match reservation {
                Some(code) => ClientSideMessage::JoinPreparedGame { reservation: code },
                None => ClientSideMessage::JoinAnyGame,
            },
    {
        match reservation {
            Some(code) => ClientSideMessage::JoinPreparedGame { reservation: code },
            None => ClientSideMessage::JoinAnyGame,
        }
    }

    /// Renders the message as the text that is sent to the server.
    pub fn to_xml(&self) -> (r: Result<String, Error>)
        ensures
            r matches Ok(s) && s@ == self.xml_text(),
    {
        match self {
            ClientSideMessage::JoinAnyGame => Ok(String::from_str("<protocol><join />")),
            ClientSideMessage::JoinPreparedGame { reservation } => {
                let mut s = String::from_str("<protocol><joinPrepared reservationCode=\"");
                s.append(reservation.as_str());
                s.append("\" />");
                assert(s@ =~= self.xml_text());
                Ok(s)
            },
            ClientSideMessage::Move { sent_move, room_id } => {
                let mut s = String::from_str("<room roomId=\"");
                s.append(room_id.as_str());
                s.append("\"><data class=\"move\">");
                push_coordinate_element(&mut s, "from", &sent_move.from);
                push_coordinate_element(&mut s, "to", &sent_move.to);
                s.append("</data></room>");
                assert(s@ =~= self.xml_text());
                Ok(s)
            },
        }
    }
}

fn push_coordinate_element(s: &mut String, name: &str, c: &Coordinates)
    ensures
        final(s)@ == old(s)@ + coordinate_element(name@, *c),
{
    s.append("<");
    s.append(name);
    s.append(" x=\"");
    push_decimal(s, c.x);
    s.append("\" y=\"");
    push_decimal(s, c.y);
    s.append("\"/>");
    assert(final(s)@ =~= old(s)@ + coordinate_element(name@, *c));
}

impl ServerSideMessage {
    /// A snapshot message carries a well-formed state.
    pub open spec fn wf(&self) -> bool {
        match self {
            ServerSideMessage::Memento { game_state } => game_state.wf(),
            _ => true,
        }
    }

    /// Turns one framed envelope into a message. A left notice wins over any
    /// room in the envelope; otherwise the first room's `class` picks the kind.
    pub fn from_received(received: &Received) -> (r: Result<ServerSideMessage, Error>)
        ensures
            r matches Ok(m) ==> m.wf(),
            received.left is Some ==> r matches Ok(ServerSideMessage::Left),
            received.left is None && received.rooms@.len() == 0 ==> r matches Err(Error::EmptyEnvelope),
            received.left is None && received.rooms@.len() > 0 ==> ({
                let room = received.rooms@[0];
                let data = room.data;
                match data_class_of(data.class@) {
                    None => r matches Err(Error::UnknownDataClass(c)) && c@ == data.class@,
                    Some(DataClass::WelcomeMessage) => r matches Ok(
                        ServerSideMessage::WelcomeMessage { room_id, own_team },
                    ) && room_id@ == room.room_id@ && own_team == data.color,
                    Some(DataClass::Memento) => match data.state {
                        None => r matches Err(Error::MissingPayload(DataClass::Memento)),
                        Some(st) => match r {
                            Ok(ServerSideMessage::Memento { game_state }) => GameState::decodes(
                                &st,
                                &Ok::<GameState, Error>(game_state),
                            ),
                            Ok(_) => false,
                            Err(e) => GameState::decodes(&st, &Err::<GameState, Error>(e)),
                        },
                    },
                    Some(DataClass::MoveRequest) => r matches Ok(ServerSideMessage::MoveRequest),
                    Some(DataClass::Result) => r matches Ok(ServerSideMessage::Result { result }) && result
                        == GameResult {
                        winner_team: match data.winner {
                            Some(w) => Some(w.team),
                            None => None,
                        },
                    },
                    Some(DataClass::Error) => r matches Ok(ServerSideMessage::Error),
                }
            }),
    {
        if received.left.is_some() {
            return Ok(ServerSideMessage::Left);
        }
        if received.rooms.len() == 0 {
            return Err(Error::EmptyEnvelope);
        }
        let room = &received.rooms[0];
        let data = &room.data;
        match DataClass::from_name(&data.class) {
            None => Err(Error::UnknownDataClass(data.class.clone())),
            Some(DataClass::WelcomeMessage) => Ok(
                ServerSideMessage::WelcomeMessage { room_id: room.room_id.clone(), own_team: data.color },
            ),
            Some(DataClass::Memento) => match &data.state {
                None => Err(Error::MissingPayload(DataClass::Memento)),
                Some(state) => match GameState::from_deserializable(state) {
                    Ok(game_state) => Ok(ServerSideMessage::Memento { game_state }),
                    Err(e) => Err(e),
                },
            },
            Some(DataClass::MoveRequest) => Ok(ServerSideMessage::MoveRequest),
            Some(DataClass::Result) => match GameResult::from_deserializable(data) {
                Ok(result) => Ok(ServerSideMessage::Result { result }),
                Err(e) => Err(e),
            },
            Some(DataClass::Error) => Ok(ServerSideMessage::Error),
        }
    }
}

} // verus!
