use vstd::prelude::*;

use crate::coordinates::{Coordinates, Vec2};

verus! {

/// One of the two teams.
#[derive(Debug, Clone, Copy, PartialEq, Eq, Hash, Structural)]
pub enum PlayerTeam {
    One,
    Two,
}

/// The team that plays against `t`.
pub open spec fn opponent_of(t: PlayerTeam) -> PlayerTeam {
    match t {
        PlayerTeam::One => PlayerTeam::Two,
        PlayerTeam::Two => PlayerTeam::One,
    }
}

/// The team to move after `n` more turns, starting from `t`.
pub open spec fn team_after(t: PlayerTeam, n: nat) -> PlayerTeam {
    if n % 2 == 0 {
        t
    } else {
        opponent_of(t)
    }
}

/// The column on which team `t` starts.
pub open spec fn start_line_of(t: PlayerTeam) -> int {
    match t {
        PlayerTeam::One => 0,
        PlayerTeam::Two => 7,
    }
}

impl PlayerTeam {
    pub fn start_line(&self) -> (r: i32)
        ensures
            r == start_line_of(*self),
    {
        match self {
            PlayerTeam::One => 0,
            PlayerTeam::Two => 7,
        }
    }

    pub fn opponent(&self) -> (r: PlayerTeam)
        ensures
            r == opponent_of(*self),
            r != *self,
    {
        match self {
            PlayerTeam::One => PlayerTeam::Two,
            PlayerTeam::Two => PlayerTeam::One,
        }
    }

    /// The team to move `n` turns after this one: the same team when `n` is
    /// even, the opponent when it is odd.
    pub fn next_n(&self, n: u32) -> (r: PlayerTeam)
        ensures
            r == team_after(*self, n as nat),
    {
        if n % 2 == 0 {
            return *self;
        }
        self.opponent()
    }
}

/// The colour that the server assigns to a team.
#[derive(Debug, Clone, Copy, PartialEq, Eq, Hash, Structural)]
pub enum PieceColor {
    Blue,
    Red,
}

/// The four kinds of pieces.
#[derive(Debug, Clone, Copy, PartialEq, Eq, Hash, Structural)]
pub enum PieceType {
    Herzmuschel,
    Moewe,
    Seestern,
    Robbe,
}

/// The light pieces, which decide a tie at the end of the game.
pub open spec fn is_light_kind(k: PieceType) -> bool {
    k != PieceType::Robbe
}

/// The offsets by which a piece of kind `k` owned by team `t` may move.
/// The offset of `x` columns and `y` rows.
pub open spec fn off(x: int, y: int) -> Coordinates {
    Vec2 { x: x as i32, y: y as i32 }
}

pub open spec fn offsets_of(k: PieceType, t: PlayerTeam) -> Seq<Coordinates> {
    match k {
        PieceType::Herzmuschel => match t {
            PlayerTeam::One => seq![off(1, -1), off(1, 1)],
            PlayerTeam::Two => seq![off(-1, -1), off(-1, 1)],
        },
        PieceType::Moewe => seq![
            off(0, -1),
            off(1, 0),
            off(0, 1),
            off(-1, 0),
        ],
        PieceType::Seestern => match t {
            PlayerTeam::One => seq![
                off(1, 0),
                off(1, -1),
                off(1, 1),
                off(-1, -1),
                off(-1, 1),
            ],
            PlayerTeam::Two => seq![
                off(-1, 0),
                off(1, -1),
                off(1, 1),
                off(-1, -1),
                off(-1, 1),
            ],
        },
        PieceType::Robbe => seq![
            off(-1, -2),
            off(1, -2),
            off(2, -1),
            off(2, 1),
            off(1, 2),
            off(-1, 2),
            off(-2, 1),
            off(-2, -1),
        ],
    }
}

/// Every offset moves at most two squares along each axis.
pub open spec fn small_offset(o: Coordinates) -> bool {
    -2 <= o.x <= 2 && -2 <= o.y <= 2
}

impl PieceType {
    /// Whether this kind is one of the light pieces.
    pub fn is_light(&self) -> (r: bool)
        ensures
            r == is_light_kind(*self),
    {
        match self {
            PieceType::Robbe => false,
            _ => true,
        }
    }

    /// The offsets by which a piece of this kind owned by `player_team` may move.
    pub fn calculate_offsets(&self, player_team: &PlayerTeam) -> (r: Vec<Coordinates>)
        ensures
            r@ == offsets_of(*self, *player_team),
            forall|i: int| 0 <= i < r@.len() ==> small_offset(#[trigger] r@[i]),
    {
        let r = match self {
            PieceType::Herzmuschel => match player_team {
                PlayerTeam::One => vec![Coordinates::new(1, -1), Coordinates::new(1, 1)],
                PlayerTeam::Two => vec![Coordinates::new(-1, -1), Coordinates::new(-1, 1)],
            },
            PieceType::Moewe => vec![
                Coordinates::new(0, -1),
                Coordinates::new(1, 0),
                Coordinates::new(0, 1),
                Coordinates::new(-1, 0),
            ],
            PieceType::Seestern => match player_team {
                PlayerTeam::One => vec![
                    Coordinates::new(1, 0),
                    Coordinates::new(1, -1),
                    Coordinates::new(1, 1),
                    Coordinates::new(-1, -1),
                    Coordinates::new(-1, 1),
                ],
                PlayerTeam::Two => vec![
                    Coordinates::new(-1, 0),
                    Coordinates::new(1, -1),
                    Coordinates::new(1, 1),
                    Coordinates::new(-1, -1),
                    Coordinates::new(-1, 1),
                ],
            },
            PieceType::Robbe => vec![
                Coordinates::new(-1, -2),
                Coordinates::new(1, -2),
                Coordinates::new(2, -1),
                Coordinates::new(2, 1),
                Coordinates::new(1, 2),
                Coordinates::new(-1, 2),
                Coordinates::new(-2, 1),
                Coordinates::new(-2, -1),
            ],
        };
        assert(r@ =~= offsets_of(*self, *player_team));
        r
    }
}

/// The kind of payload that a message from the server carries.
#[derive(Debug, Clone, Copy, PartialEq, Eq, Hash, Structural)]
pub enum DataClass {
    WelcomeMessage,
    Memento,
    MoveRequest,
    Result,
    Error,
}

} // verus!
