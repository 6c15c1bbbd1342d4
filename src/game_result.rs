use vstd::prelude::*;

use crate::conversion::FromDeserializable;
use crate::enums::PlayerTeam;
use crate::error::Error;
use crate::xml_data::Data;

verus! {

/// How the server says a game ended: the winning team, or none on a draw.
#[derive(Debug, Clone, Copy, PartialEq, Eq, Structural)]
pub struct GameResult {
    pub winner_team: Option<PlayerTeam>,
}

impl FromDeserializable<Data> for GameResult {
    open spec fn decodes(d: &Data, r: &Result<GameResult, Error>) -> bool {
        *r == Ok::<GameResult, Error>(
            GameResult {
                winner_team: match d.winner {
                    Some(w) => Some(w.team),
                    None => None,
                },
            },
        )
    }

    fn from_deserializable(d: &Data) -> (r: Result<GameResult, Error>) {
        let winner_team = match &d.winner {
            Some(w) => Some(w.team),
            None => None,
        };
        Ok(GameResult { winner_team })
    }
}

} // verus!
