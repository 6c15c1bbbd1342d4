use vstd::prelude::*;

use crate::board::{decode_entries, placed_at, Board};
use crate::conversion::{FromDeserializable, FromSerializable};
use crate::coordinates::{coords_add, lemma_square_at, on_board, small_offset_sum, square_at, Coordinates};
use crate::enums::{is_light_kind, offsets_of, opponent_of, small_offset, start_line_of, team_after, PlayerTeam};
use crate::error::Error;
use crate::moves::Move;
use crate::piece::{dist_of, Piece};
use crate::xml_state::{AmbersEntry, State};

verus! {

/// A team wins at once on reaching this many ambers.
pub const WIN_AMBERS: i32 = 2;

/// From this turn on, the game is decided by the amber counts.
pub const LAST_TURN: u32 = 59;

/// The state of a game: who started, the board, the last move, the number of
/// turns played and the ambers of each team.
#[derive(Debug)]
pub struct GameState {
    pub start_team: PlayerTeam,
    pub board: Board,
    pub last_move: Option<Move>,
    pub turn: u32,
    pub ambers: (i32, i32),
}

impl Clone for GameState {
    fn clone(&self) -> (r: Self)
        ensures
            r.start_team == self.start_team,
            r.board.pieces@ == self.board.pieces@,
            r.last_move == self.last_move,
            r.turn == self.turn,
            r.ambers == self.ambers,
    {
        GameState {
            start_team: self.start_team,
            board: self.board.clone(),
            last_move: self.last_move,
            turn: self.turn,
            ambers: self.ambers,
        }
    }
}

/// How a game stands: won by a team, drawn, or not decided yet.
#[derive(Debug, Clone, Copy, PartialEq, Eq, Structural)]
pub enum GameStateResult {
    Player(PlayerTeam),
    Draw,
    Nothing,
}

/// The number of light pieces of `team` among `slots` at distance `d` from
/// their starting column.
pub open spec fn light_count(slots: Seq<Option<Piece>>, team: PlayerTeam, d: int) -> nat
    decreases slots.len(),
{
    if slots.len() == 0 {
        0
    } else {
        light_count(slots.drop_last(), team, d) + match slots.last() {
            Some(p) => if p.team == team && is_light_kind(p.piece_type) && dist_of(p) == d {
                1nat
            } else {
                0nat
            },
            None => 0nat,
        }
    }
}

/// The distances of the light pieces of `team` that are at least `lo`,
/// greatest first (distances on the board lie in `0..8`).
pub open spec fn sorted_light_dists(slots: Seq<Option<Piece>>, team: PlayerTeam, lo: int) -> Seq<i32>
    decreases 8 - lo,
{
    if lo >= 8 {
        seq![]
    } else {
        sorted_light_dists(slots, team, lo + 1) + Seq::new(
            light_count(slots, team, lo),
            |k: int| lo as i32,
        )
    }
}

/// Compares two lists of distances rank by rank from `i` on: the first rank
/// where they differ decides for the team with the greater distance (the one
/// closer to the opposite edge); when one list runs out first, it is a draw.
pub open spec fn rank_winner(a: Seq<i32>, b: Seq<i32>, i: int) -> GameStateResult
    decreases a.len() - i,
{
    if i < 0 || i >= a.len() || i >= b.len() {
        GameStateResult::Draw
    } else if a[i] > b[i] {
        GameStateResult::Player(PlayerTeam::One)
    } else if a[i] < b[i] {
        GameStateResult::Player(PlayerTeam::Two)
    } else {
        rank_winner(a, b, i + 1)
    }
}

/// Whether `m` is a legal move for `team` on `board` when `current` is to move.
pub open spec fn legal(board: Map<Coordinates, Piece>, current: PlayerTeam, m: Move, team: PlayerTeam) -> bool {
    &&& team == current
    &&& on_board(m.from)
    &&& on_board(m.to)
    &&& board.contains_key(m.from)
    &&& board[m.from].team == team
    &&& (board.contains_key(m.to) ==> board[m.to].team != team)
}

impl GameState {
    /// The board is well formed and no amber count is negative.
    pub open spec fn wf(&self) -> bool {
        &&& self.board.wf()
        &&& self.ambers.0 >= 0
        &&& self.ambers.1 >= 0
    }

    /// The team to move.
    pub open spec fn current_team_spec(&self) -> PlayerTeam {
        team_after(self.start_team, self.turn as nat)
    }

    pub open spec fn can_perform_spec(&self, m: Move, team: PlayerTeam) -> bool {
        legal(self.board@, self.current_team_spec(), m, team)
    }

    pub open spec fn ambers_of(&self, team: PlayerTeam) -> int {
        match team {
            PlayerTeam::One => self.ambers.0 as int,
            PlayerTeam::Two => self.ambers.1 as int,
        }
    }

    /// The board after the legal move `m`: onto a stacked piece, both pieces
    /// leave the board; onto another piece, the mover replaces it and becomes
    /// stacked; onto an empty square, the mover just moves.
    pub open spec fn board_after(&self, m: Move) -> Map<Coordinates, Piece> {
        let b = self.board@;
        if b.contains_key(m.to) {
            if b[m.to].count == 2 {
                b.remove(m.from).remove(m.to)
            } else {
                b.remove(m.from).insert(m.to, Piece { count: 2, ..placed_at(b[m.from], m.to) })
            }
        } else {
            b.remove(m.from).insert(m.to, placed_at(b[m.from], m.to))
        }
    }

    /// The amber counts after the legal move `m`: capturing a stacked piece
    /// earns the mover one amber.
    pub open spec fn ambers_after(&self, m: Move) -> (i32, i32) {
        let b = self.board@;
        if b.contains_key(m.to) && b[m.to].count == 2 {
            match self.current_team_spec() {
                PlayerTeam::One => ((self.ambers.0 + 1) as i32, self.ambers.1),
                PlayerTeam::Two => (self.ambers.0, (self.ambers.1 + 1) as i32),
            }
        } else {
            self.ambers
        }
    }

    /// The outcome of the game as the amber counts, the turn and, on a tie at
    /// the end, the light pieces decide it.
    pub open spec fn result_spec(&self) -> GameStateResult {
        let a = self.ambers.0;
        let b = self.ambers.1;
        if self.turn < LAST_TURN {
            if (a >= WIN_AMBERS || b >= WIN_AMBERS) && a != b {
                if a > b {
                    GameStateResult::Player(PlayerTeam::One)
                } else {
                    GameStateResult::Player(PlayerTeam::Two)
                }
            } else {
                GameStateResult::Nothing
            }
        } else if a > b {
            GameStateResult::Player(PlayerTeam::One)
        } else if b > a {
            GameStateResult::Player(PlayerTeam::Two)
        } else if a < WIN_AMBERS {
            self.light_piece_result()
        } else {
            GameStateResult::Nothing
        }
    }

    /// The tie-break on the distances of the light pieces.
    pub open spec fn light_piece_result(&self) -> GameStateResult {
        rank_winner(
            sorted_light_dists(self.board.pieces@, PlayerTeam::One, 0),
            sorted_light_dists(self.board.pieces@, PlayerTeam::Two, 0),
            0,
        )
    }

    /// The moves that a piece on the square with index `i` could make, before
    /// any check of legality.
    pub open spec fn square_moves(&self, i: int) -> Seq<Move> {
        match self.board.pieces@[i] {
            Some(p) => offsets_of(p.piece_type, p.team).map_values(
                |o: Coordinates| Move { from: square_at(i), to: coords_add(square_at(i), o) },
            ),
            None => seq![],
        }
    }

    /// The moves of `ms` that are legal for `team`, in order.
    pub open spec fn keep_legal(&self, ms: Seq<Move>, team: PlayerTeam) -> Seq<Move>
        decreases ms.len(),
    {
        if ms.len() == 0 {
            seq![]
        } else {
            let rest = self.keep_legal(ms.drop_last(), team);
            if self.can_perform_spec(ms.last(), team) {
                rest.push(ms.last())
            } else {
                rest
            }
        }
    }

    /// The legal moves of `team` from the first `n` squares, square by square
    /// and, for each, in the order of its piece's offsets.
    pub open spec fn moves_upto(&self, team: PlayerTeam, n: int) -> Seq<Move>
        decreases n,
    {
        if n <= 0 {
            seq![]
        } else {
            self.moves_upto(team, n - 1) + self.keep_legal(self.square_moves(n - 1), team)
        }
    }

    /// The team to move: the starting team on even turns, the other on odd ones.
    pub fn get_current_team(&self) -> (r: PlayerTeam)
        ensures
            r == self.current_team_spec(),
    {
        self.start_team.next_n(self.turn)
    }

    fn increment_ambers_for(&mut self, team: PlayerTeam)
        requires
            old(self).ambers_of(team) < i32::MAX,
        ensures
            final(self).ambers == (match team {
                PlayerTeam::One => ((old(self).ambers.0 + 1) as i32, old(self).ambers.1),
                PlayerTeam::Two => (old(self).ambers.0, (old(self).ambers.1 + 1) as i32),
            }),
            final(self).start_team == old(self).start_team,
            final(self).board == old(self).board,
            final(self).last_move == old(self).last_move,
            final(self).turn == old(self).turn,
    {
        match team {
            PlayerTeam::One => self.ambers.0 = self.ambers.0 + 1,
            PlayerTeam::Two => self.ambers.1 = self.ambers.1 + 1,
        }
    }

    /// Whether `m` is a legal move for `team`: it is `team`'s turn, both
    /// squares are on the board, `team` owns the piece on `from`, and `to` is
    /// empty or holds an opponent's piece.
    pub fn can_perform_move(&self, m: &Move, team: PlayerTeam) -> (r: bool)
        requires
            self.wf(),
        ensures
            r == self.can_perform_spec(*m, team),
    {
        if team != self.get_current_team() {
            return false;
        }
        if !m.to.in_bounds() || !m.from.in_bounds() {
            return false;
        }
        let piece_belongs_to_team = match self.board.get_piece_at(&m.from) {
            Some(piece) => piece.team == team,
            None => false,
        };
        let move_to_valid_field = match self.board.get_piece_at(&m.to) {
            Some(piece) => piece.team != team,
            None => true,
        };
        piece_belongs_to_team && move_to_valid_field
    }

    /// All legal moves of `team`, square by square in row-major order and,
    /// for each piece, in the order of its offsets.
    pub fn calculate_possible_moves(&self, team: &PlayerTeam) -> (r: Vec<Move>)
        requires
            self.wf(),
        ensures
            r@ == self.moves_upto(*team, 64),
            forall|k: int| 0 <= k < r@.len() ==> self.can_perform_spec(#[trigger] r@[k], *team),
            forall|k: int|
                0 <= k < r@.len() ==> !(self.board@.contains_key((#[trigger] r@[k]).to)
                    && self.board@[r@[k].to].team == *team),
    {
        let mut moves: Vec<Move> = Vec::new();
        let mut i: usize = 0;
        while i < 64
            invariant
                self.wf(),
                i <= 64,
                moves@ == self.moves_upto(*team, i as int),
                forall|k: int| 0 <= k < moves@.len() ==> self.can_perform_spec(#[trigger] moves@[k], *team),
            decreases 64 - i,
        {
            if let Some(piece) = self.board.pieces[i] {
                proof {
                    lemma_square_at(i as int);
                }
                let coordinates = piece.coordinates;
                let offsets = piece.piece_type.calculate_offsets(&piece.team);
                let ghost base = moves@;
                let mut j: usize = 0;
                while j < offsets.len()
                    invariant
                        self.wf(),
                        i < 64,
                        self.board.pieces@[i as int] == Some(piece),
                        coordinates == square_at(i as int),
                        on_board(coordinates),
                        offsets@ == offsets_of(piece.piece_type, piece.team),
                        forall|k: int| 0 <= k < offsets@.len() ==> small_offset(#[trigger] offsets@[k]),
                        j <= offsets@.len(),
                        base == self.moves_upto(*team, i as int),
                        moves@ == base + self.keep_legal(self.square_moves(i as int).take(j as int), *team),
                        forall|k: int| 0 <= k < moves@.len() ==> self.can_perform_spec(#[trigger] moves@[k], *team),
                    decreases offsets@.len() - j,
                {
                    let offset = offsets[j];
                    proof {
                        small_offset_sum(coordinates, offset);
                    }
                    let new_move = Move { from: coordinates, to: coordinates.add(offset) };
                    let ghost sq = self.square_moves(i as int);
                    assert(sq.take(j + 1).drop_last() =~= sq.take(j as int));
                    assert(sq.take(j + 1).last() == new_move);
                    if self.can_perform_move(&new_move, *team) {
                        moves.push(new_move);
                    }
                    j = j + 1;
                }
                assert(self.square_moves(i as int).take(offsets@.len() as int) =~= self.square_moves(i as int));
            } else {
                assert(self.keep_legal(self.square_moves(i as int), *team) =~= seq![]);
                assert(moves@ + seq![] =~= moves@);
            }
            i = i + 1;
        }
        moves
    }

    fn advance(&mut self)
        requires
            old(self).turn < u32::MAX,
        ensures
            final(self).turn == old(self).turn + 1,
            final(self).start_team == old(self).start_team,
            final(self).board == old(self).board,
            final(self).last_move == old(self).last_move,
            final(self).ambers == old(self).ambers,
    {
        self.turn = self.turn + 1;
    }

    /// Applies `m` for the team to move, if it is legal; otherwise leaves the
    /// state as it is and reports the move.
    pub fn perform_move(&mut self, m: &Move) -> (r: Result<(), Error>)
        requires
            old(self).wf(),
            old(self).turn < u32::MAX,
            old(self).ambers.0 < i32::MAX,
            old(self).ambers.1 < i32::MAX,
        ensures
            final(self).wf(),
            r is Ok <==> old(self).can_perform_spec(*m, old(self).current_team_spec()),
            r is Err ==> r == Err::<(), Error>(Error::IllegalMove(*m)) && *final(self) == *old(self),
            r is Ok ==> {
                &&& final(self).board@ == old(self).board_after(*m)
                &&& final(self).ambers == old(self).ambers_after(*m)
                &&& final(self).turn == old(self).turn + 1
                &&& final(self).last_move == Some(*m)
                &&& final(self).start_team == old(self).start_team
                &&& final(self).current_team_spec() == opponent_of(old(self).current_team_spec())
            },
    {
        let team = self.get_current_team();
        if !self.can_perform_move(m, team) {
            return Err(Error::IllegalMove(*m));
        }
        let move_from = m.from;
        let move_to = m.to;
        let target_stacked = match self.board.get_piece_at(&move_to) {
            Some(piece_at_target) => Some(piece_at_target.is_stacked()),
            None => None,
        };
        match target_stacked {
            Some(true) => {
                // Capturing a stacked piece takes both pieces off the board
                // and earns the mover an amber.
                self.board.remove_piece(&move_to);
                self.board.remove_piece(&move_from);
                self.increment_ambers_for(team);
            },
            Some(false) => {
                // Capturing a single piece stacks the mover.
                self.board.remove_piece(&move_to);
                self.board.move_piece(&move_from, &move_to);
                if let Some(moved_piece_at_target) = self.board.get_piece_at_ref_mut(&move_to) {
                    moved_piece_at_target.count = 2;
                }
            },
            None => {
                self.board.move_piece(&move_from, &move_to);
            },
        }
        proof {
            let b = old(self).board@;
            if b.contains_key(move_to) && b[move_to].count == 2 {
                assert(b.remove(move_to).remove(move_from) =~= b.remove(move_from).remove(move_to));
            } else if b.contains_key(move_to) {
                assert(b.remove(move_to).remove(move_from).insert(move_to, placed_at(b[move_from], move_to))
                    =~= b.remove(move_from).insert(move_to, placed_at(b[move_from], move_to)));
            }
        }
        self.advance();
        self.last_move = Some(*m);
        assert((self.turn as nat) % 2 != (old(self).turn as nat) % 2);
        Ok(())
    }

    /// The outcome of the game so far.
    pub fn get_result(&self) -> (r: GameStateResult)
        requires
            self.wf(),
        ensures
            r == self.result_spec(),
    {
        let a = self.ambers.0;
        let b = self.ambers.1;
        if self.turn < LAST_TURN {
            if (a >= WIN_AMBERS || b >= WIN_AMBERS) && a != b {
                if a > b {
                    return GameStateResult::Player(PlayerTeam::One);
                }
                return GameStateResult::Player(PlayerTeam::Two);
            }
            return GameStateResult::Nothing;
        }
        if a > b {
            GameStateResult::Player(PlayerTeam::One)
        } else if b > a {
            GameStateResult::Player(PlayerTeam::Two)
        } else if a < WIN_AMBERS {
            self.evaluate_light_piece_positions()
        } else {
            GameStateResult::Nothing
        }
    }

    /// How far `coordinates` lies from the starting column of `piece`'s team.
    fn piece_dist(coordinates: &Coordinates, piece: &Piece) -> (r: i32)
        requires
            on_board(*coordinates),
        ensures
            r == if coordinates.x >= start_line_of(piece.team) {
                coordinates.x - start_line_of(piece.team)
            } else {
                start_line_of(piece.team) - coordinates.x
            },
    {
        let diff = coordinates.x - piece.team.start_line();
        if diff < 0 {
            -diff
        } else {
            diff
        }
    }

    /// Decides a tie by the light pieces: each team's distances from its
    /// starting column, greatest first, are compared rank by rank.
    fn evaluate_light_piece_positions(&self) -> (r: GameStateResult)
        requires
            self.wf(),
        ensures
            r == self.light_piece_result(),
    {
        let ghost slots = self.board.pieces@;
        let mut counts_one: Vec<usize> = vec![0, 0, 0, 0, 0, 0, 0, 0];
        let mut counts_two: Vec<usize> = vec![0, 0, 0, 0, 0, 0, 0, 0];
        let mut i: usize = 0;
        while i < 64
            invariant
                self.wf(),
                slots == self.board.pieces@,
                i <= 64,
                counts_one@.len() == 8,
                counts_two@.len() == 8,
                forall|d: int| 0 <= d < 8 ==> #[trigger] counts_one@[d] == light_count(slots.take(i as int), PlayerTeam::One, d),
                forall|d: int| 0 <= d < 8 ==> #[trigger] counts_two@[d] == light_count(slots.take(i as int), PlayerTeam::Two, d),
                forall|d: int| 0 <= d < 8 ==> #[trigger] counts_one@[d] <= i,
                forall|d: int| 0 <= d < 8 ==> #[trigger] counts_two@[d] <= i,
            decreases 64 - i,
        {
            let ghost before = slots.take(i as int);
            assert(slots.take(i + 1).drop_last() =~= before);
            assert(slots.take(i + 1).last() == slots[i as int]);
            if let Some(piece) = self.board.pieces[i] {
                proof {
                    lemma_square_at(i as int);
                }
                if piece.is_minor_piece() {
                    let d = Self::piece_dist(&piece.coordinates, &piece) as usize;
                    match piece.team {
                        PlayerTeam::One => {
                            let n = counts_one[d];
                            counts_one.set(d, n + 1);
                        },
                        PlayerTeam::Two => {
                            let n = counts_two[d];
                            counts_two.set(d, n + 1);
                        },
                    }
                }
            }
            i = i + 1;
        }
        assert(slots.take(64) =~= slots);
        let dists_one = sorted_distances(&counts_one, Ghost(slots), Ghost(PlayerTeam::One));
        let dists_two = sorted_distances(&counts_two, Ghost(slots), Ghost(PlayerTeam::Two));
        compare_ranks(&dists_one, &dists_two)
    }
}

/// Lists the distances that `counts` tallies, greatest first.
fn sorted_distances(
    counts: &Vec<usize>,
    Ghost(slots): Ghost<Seq<Option<Piece>>>,
    Ghost(team): Ghost<PlayerTeam>,
) -> (r: Vec<i32>)
    requires
        counts@.len() == 8,
        forall|d: int| 0 <= d < 8 ==> #[trigger] counts@[d] == light_count(slots, team, d),
    ensures
        r@ == sorted_light_dists(slots, team, 0),
{
    let mut r: Vec<i32> = Vec::new();
    let mut d: usize = 8;
    while d > 0
        invariant
            d <= 8,
            counts@.len() == 8,
            forall|e: int| 0 <= e < 8 ==> #[trigger] counts@[e] == light_count(slots, team, e),
            r@ == sorted_light_dists(slots, team, d as int),
        decreases d,
    {
        d = d - 1;
        let n = counts[d];
        let ghost base = r@;
        let mut k: usize = 0;
        while k < n
            invariant
                d < 8,
                k <= n,
                n == light_count(slots, team, d as int),
                base == sorted_light_dists(slots, team, d + 1),
                r@ == base + Seq::new(k as nat, |j: int| d as i32),
            decreases n - k,
        {
            r.push(d as i32);
            k = k + 1;
            assert(r@ =~= base + Seq::new(k as nat, |j: int| d as i32));
        }
        assert(r@ =~= sorted_light_dists(slots, team, d as int));
    }
    r
}

/// Compares two lists of distances rank by rank.
fn compare_ranks(a: &Vec<i32>, b: &Vec<i32>) -> (r: GameStateResult)
    ensures
        r == rank_winner(a@, b@, 0),
{
    let mut i: usize = 0;
    while i < a.len() && i < b.len()
        invariant
            i <= a@.len(),
            rank_winner(a@, b@, 0) == rank_winner(a@, b@, i as int),
        decreases a@.len() - i,
    {
        if a[i] > b[i] {
            return GameStateResult::Player(PlayerTeam::One);
        }
        if a[i] < b[i] {
            return GameStateResult::Player(PlayerTeam::Two);
        }
        i = i + 1;
    }
    GameStateResult::Draw
}

} // verus!

verus! {

/// The amber count of `team` in a pair of counts.
pub open spec fn amber_count(ambers: (i32, i32), team: PlayerTeam) -> int {
    match team {
        PlayerTeam::One => ambers.0 as int,
        PlayerTeam::Two => ambers.1 as int,
    }
}

/// Capturing a stacked piece earns the mover exactly one amber, leaves the
/// opponent's count alone, and leaves both squares of the move empty.
/// Capturing a single piece leaves exactly one piece on the two squares: the
/// mover's, stacked, on the target square.
pub proof fn lemma_capture(s: GameState, m: Move)
    requires
        s.wf(),
        s.can_perform_spec(m, s.current_team_spec()),
        s.board@.contains_key(m.to),
        amber_count(s.ambers, s.current_team_spec()) < i32::MAX,
    ensures
        s.board@[m.to].count == 2 ==> {
            let t = s.current_team_spec();
            &&& amber_count(s.ambers_after(m), t) == amber_count(s.ambers, t) + 1
            &&& amber_count(s.ambers_after(m), opponent_of(t)) == amber_count(s.ambers, opponent_of(t))
            &&& !s.board_after(m).contains_key(m.from)
            &&& !s.board_after(m).contains_key(m.to)
        },
        s.board@[m.to].count != 2 ==> {
            &&& s.ambers_after(m) == s.ambers
            &&& !s.board_after(m).contains_key(m.from)
            &&& s.board_after(m).contains_key(m.to)
            &&& s.board_after(m)[m.to].count == 2
            &&& s.board_after(m)[m.to].team == s.current_team_spec()
            &&& s.board_after(m)[m.to].piece_type == s.board@[m.from].piece_type
        },
{
}

/// Once one team holds at least two ambers and the other fewer than two,
/// that team has won, and later turns with the same counts keep it the winner.
pub proof fn lemma_result_stable(s: GameState, later: GameState)
    requires
        later.ambers == s.ambers,
        later.turn >= s.turn,
        (s.ambers.0 >= 2 && s.ambers.1 < 2) || (s.ambers.1 >= 2 && s.ambers.0 < 2),
    ensures
        s.result_spec() != GameStateResult::Nothing,
        later.result_spec() == s.result_spec(),
{
}

} // verus!

verus! {

/// The error of the first amber entry with a negative count, if any.
pub open spec fn amber_error(es: Seq<AmbersEntry>) -> Option<Error>
    decreases es.len(),
{
    if es.len() == 0 {
        None
    } else {
        match amber_error(es.drop_last()) {
            Some(e) => Some(e),
            None => if es.last().int.value < 0 {
                Some(Error::NegativeValue(es.last().int.value))
            } else {
                None
            },
        }
    }
}

/// The count of the last amber entry for `team`, or 0 when there is none.
pub open spec fn amber_value(es: Seq<AmbersEntry>, team: PlayerTeam) -> i32
    decreases es.len(),
{
    if es.len() == 0 {
        0
    } else if es.last().team.team == team {
        es.last().int.value
    } else {
        amber_value(es.drop_last(), team)
    }
}

impl FromDeserializable<State> for GameState {
    /// A snapshot decodes when its board does, its turn is not negative and
    /// no amber count is negative; those are checked in this order.
    open spec fn decodes(d: &State, r: &Result<GameState, Error>) -> bool {
        match decode_entries(d.board.pieces.entries@) {
            Err(e) => *r == Err::<GameState, Error>(e),
            Ok(board) => if d.turn < 0 {
                *r == Err::<GameState, Error>(Error::NegativeValue(d.turn))
            } else {
                match amber_error(d.ambers.entries@) {
                    Some(e) => *r == Err::<GameState, Error>(e),
                    None => match r {
                        Ok(g) => {
                            &&& g.wf()
                            &&& g.board@ == board
                            &&& g.start_team == d.start_team.team
                            &&& g.last_move == match d.last_move {
                                Some(lm) => Some(Move::from_serializable_spec(&lm)),
                                None => None,
                            }
                            &&& g.turn == d.turn as u32
                            &&& g.ambers == (
                                amber_value(d.ambers.entries@, PlayerTeam::One),
                                amber_value(d.ambers.entries@, PlayerTeam::Two),
                            )
                        },
                        Err(_) => false,
                    },
                }
            },
        }
    }

    fn from_deserializable(d: &State) -> (r: Result<GameState, Error>) {
        let board = match Board::from_deserializable(&d.board) {
            Ok(b) => b,
            Err(e) => return Err(e),
        };
        if d.turn < 0 {
            return Err(Error::NegativeValue(d.turn));
        }
        let last_move = match &d.last_move {
            Some(lm) => Some(Move::from_serializable(lm)),
            None => None,
        };
        let entries = &d.ambers.entries;
        let mut team_one_ambers: i32 = 0;
        let mut team_two_ambers: i32 = 0;
        let mut i: usize = 0;
        while i < entries.len()
            invariant
                entries@ == d.ambers.entries@,
                board.wf(),
                decode_entries(d.board.pieces.entries@) == Ok::<Map<Coordinates, Piece>, Error>(board@),
                d.turn >= 0,
                i <= entries@.len(),
                amber_error(entries@.take(i as int)) is None,
                team_one_ambers == amber_value(entries@.take(i as int), PlayerTeam::One),
                team_two_ambers == amber_value(entries@.take(i as int), PlayerTeam::Two),
                team_one_ambers >= 0,
                team_two_ambers >= 0,
            decreases entries@.len() - i,
        {
            let entry = &entries[i];
            assert(entries@.take(i + 1).drop_last() =~= entries@.take(i as int));
            assert(entries@.take(i + 1).last() == *entry);
            if entry.int.value < 0 {
                proof {
                    assert(amber_error(entries@.take(i + 1)) == Some(Error::NegativeValue(entry.int.value)));
                    lemma_amber_error_stays(entries@, i as int + 1);
                }
                return Err(Error::NegativeValue(entry.int.value));
            }
            match entry.team.team {
                PlayerTeam::One => team_one_ambers = entry.int.value,
                PlayerTeam::Two => team_two_ambers = entry.int.value,
            }
            i = i + 1;
        }
        assert(entries@.take(entries@.len() as int) =~= entries@);
        Ok(GameState {
            start_team: d.start_team.team,
            board,
            last_move,
            turn: d.turn as u32,
            ambers: (team_one_ambers, team_two_ambers),
        })
    }
}

/// Once a prefix of the amber entries holds a negative count, the whole list
/// reports that same error.
proof fn lemma_amber_error_stays(es: Seq<AmbersEntry>, n: int)
    requires
        0 <= n <= es.len(),
        amber_error(es.take(n)) is Some,
    ensures
        amber_error(es) == amber_error(es.take(n)),
    decreases es.len() - n,
{
    if n < es.len() {
        assert(es.take(n + 1).drop_last() =~= es.take(n));
        lemma_amber_error_stays(es, n + 1);
    } else {
        assert(es.take(n) =~= es);
    }
}

} // verus!
