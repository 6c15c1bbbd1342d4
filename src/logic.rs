//! The client's decisions: what it remembers from the server's messages and
//! what it answers.
use vstd::prelude::*;

use crate::enums::PlayerTeam;
use crate::game_state::GameState;
use crate::message::{ClientSideMessage, ServerSideMessage};
use crate::moves::Move;

verus! {

/// What the client knows of its game.
pub struct Logic {
    pub current_game_state: Option<GameState>,
    pub room_id: Option<String>,
    pub last_move: Option<Move>,
    pub own_team: Option<PlayerTeam>,
}

/// Whether the client goes on reading messages.
#[derive(Debug, Clone, Copy, PartialEq, Eq, Structural)]
pub enum ClientState {
    Running,
    ShouldTerminate,
}

/// Relies on rand's `SliceRandom::choose` with the thread-local generator:
/// `None` for an empty slice, otherwise one of its elements.
#[verifier::external_body]
fn choose_move(moves: &Vec<Move>) -> (r: Option<Move>)
    ensures
        r is None <==> moves@.len() == 0,
        r matches Some(m) ==> moves@.contains(m),
{
    rand::seq::SliceRandom::choose(moves.as_slice(), &mut rand::thread_rng()).copied()
}

impl Logic {
    /// A known game state is well formed.
    pub open spec fn wf(&self) -> bool {
        match self.current_game_state {
            Some(g) => g.wf(),
            None => true,
        }
    }

    /// The legal moves of the client's team in the known state; none while
    /// the state or the team is unknown.
    pub open spec fn candidate_moves(&self) -> Seq<Move> {
        match (self.current_game_state, self.own_team) {
            (Some(g), Some(t)) => g.moves_upto(t, 64),
            _ => seq![],
        }
    }

    /// The message that plays `chosen` in the client's room, when there is a
    /// move and the room is known.
    pub open spec fn reply_spec(&self, chosen: Option<Move>) -> Option<ClientSideMessage> {
        match (chosen, self.room_id) {
            (Some(m), Some(id)) => Some(ClientSideMessage::Move { sent_move: m, room_id: id }),
            _ => None,
        }
    }

    /// A client that knows nothing yet.
    pub fn new() -> (r: Logic)
        ensures
            r.wf(),
            r.current_game_state is None,
            r.room_id is None,
            r.last_move is None,
            r.own_team is None,
    {
        Logic { current_game_state: None, room_id: None, last_move: None, own_team: None }
    }

    /// Picks one of the legal moves of the client's team at random.
    fn calculate_move(&self) -> (r: Option<Move>)
        requires
            self.wf(),
        ensures
            r is None <==> self.candidate_moves().len() == 0,
            r matches Some(m) ==> self.candidate_moves().contains(m),
    {
        let game_state = match &self.current_game_state {
            Some(g) => g,
            None => return None,
        };
        let team = match &self.own_team {
            Some(t) => t,
            None => return None,
        };
        let possible_moves = game_state.calculate_possible_moves(team);
        choose_move(&possible_moves)
    }

    /// The message that plays `chosen` in the client's room.
    pub fn move_reply(&self, chosen: Option<Move>) -> (r: Option<ClientSideMessage>)
        ensures
            r == self.reply_spec(chosen),
    {
        match (chosen, &self.room_id) {
            (Some(m), Some(id)) => Some(ClientSideMessage::Move { sent_move: m, room_id: id.clone() }),
            _ => None,
        }
    }

    /// Takes in one message from the server. Returns whether to go on and
    /// the message to send back, if any: a move request is answered with a
    /// legal move of the client's team, when it has one and knows its room.
    pub fn process_server_side_message(&mut self, message: ServerSideMessage) -> (r: (
        ClientState,
        Option<ClientSideMessage>,
    ))
        requires
            old(self).wf(),
            message.wf(),
        ensures
            final(self).wf(),
            final(self).last_move == old(self).last_move,
            match message {
                ServerSideMessage::Left => r == (ClientState::ShouldTerminate, None::<ClientSideMessage>)
                    && *final(self) == *old(self),
                ServerSideMessage::Error => r == (ClientState::ShouldTerminate, None::<ClientSideMessage>)
                    && *final(self) == *old(self),
                ServerSideMessage::MoveRequest => {
                    &&& *final(self) == *old(self)
                    &&& r.0 == ClientState::Running
                    &&& old(self).candidate_moves().len() == 0 ==> r.1 is None
                    &&& old(self).room_id is None ==> r.1 is None
                    &&& old(self).candidate_moves().len() > 0 && old(self).room_id is Some ==> exists|m: Move|
                        old(self).candidate_moves().contains(m) && r.1 == old(self).reply_spec(Some(m))
                },
                ServerSideMessage::Memento { game_state } => r == (ClientState::Running, None::<ClientSideMessage>)
                    && final(self).current_game_state == Some(game_state) && final(self).room_id
                    == old(self).room_id && final(self).own_team == old(self).own_team,
                ServerSideMessage::Result { result } => r == (ClientState::Running, None::<ClientSideMessage>)
                    && *final(self) == *old(self),
                ServerSideMessage::WelcomeMessage { room_id, own_team } => r == (
                    ClientState::Running,
                    None::<ClientSideMessage>,
                ) && final(self).room_id == Some(room_id) && final(self).own_team == own_team
                    && final(self).current_game_state == old(self).current_game_state,
            },
    {
        match message {
            ServerSideMessage::Left => (ClientState::ShouldTerminate, None),
            ServerSideMessage::MoveRequest => {
                let chosen = self.calculate_move();
                let reply = self.move_reply(chosen);
                (ClientState::Running, reply)
            },
            ServerSideMessage::Memento { game_state } => {
                self.current_game_state = Some(game_state);
                (ClientState::Running, None)
            },
            ServerSideMessage::Result { .. } => (ClientState::Running, None),
            ServerSideMessage::WelcomeMessage { room_id, own_team } => {
                self.room_id = Some(room_id);
                self.own_team = own_team;
                (ClientState::Running, None)
            },
            ServerSideMessage::Error => (ClientState::ShouldTerminate, None),
        }
    }
}

} // verus!
