//! The end of a game as the server's result message lays it out.
use vstd::prelude::*;

use crate::enums::PlayerTeam;

verus! {

#[derive(Debug, Clone, PartialEq, Eq)]
pub struct Aggregation {
    pub value: String,
}

#[derive(Debug, Clone, Copy, PartialEq, Eq)]
pub struct RelevantForRanking {
    pub is_relevant_for_ranking: bool,
}

/// One part of the score, as the result message defines it.
#[derive(Debug, Clone, PartialEq, Eq)]
pub struct Fragment {
    pub name: String,
    pub aggregation: Aggregation,
    pub relevant_for_ranking: RelevantForRanking,
}

#[derive(Debug, Clone, PartialEq, Eq)]
pub struct Definition {
    pub fragments: Vec<Fragment>,
}

#[derive(Debug, Clone, Copy, PartialEq, Eq)]
pub struct Player {
    pub team: PlayerTeam,
}

#[derive(Debug, Clone, Copy, PartialEq, Eq)]
pub struct Part {
    pub value: i32,
}

/// The score of one player and why the game ended for it.
#[derive(Debug, Clone, PartialEq, Eq)]
pub struct Score {
    pub cause: String,
    pub reason: String,
    pub parts: Vec<Part>,
}

#[derive(Debug, Clone, PartialEq, Eq)]
pub struct ScoresEntry {
    pub player: Player,
    pub score: Score,
}

#[derive(Debug, Clone, PartialEq, Eq)]
pub struct Scores {
    pub entries: Vec<ScoresEntry>,
}

/// The team that won the game.
#[derive(Debug, Clone, Copy, PartialEq, Eq)]
pub struct Winner {
    pub team: PlayerTeam,
}

} // verus!
