use vstd::prelude::*;

use crate::conversion::FromDeserializable;
use crate::coordinates::{on_board, square_at, square_index, lemma_square_at, lemma_square_index, Coordinates, Vec2};
use crate::enums::{PieceType, PlayerTeam};
use crate::error::Error;
use crate::piece::{piece_of_entry, Piece};
use crate::xml_state::{Board as XmlBoard, PiecesEntry};

verus! {

/// The pieces on the board, one slot per square in row-major order.
#[derive(Debug)]
pub struct Board {
    pub pieces: Vec<Option<Piece>>,
}

impl Clone for Board {
    fn clone(&self) -> (r: Self)
        ensures
            r.pieces@ == self.pieces@,
    {
        let mut pieces: Vec<Option<Piece>> = Vec::new();
        let mut i: usize = 0;
        while i < self.pieces.len()
            invariant
                i <= self.pieces@.len(),
                pieces@ == self.pieces@.take(i as int),
            decreases self.pieces@.len() - i,
        {
            pieces.push(self.pieces[i]);
            i = i + 1;
            assert(pieces@ =~= self.pieces@.take(i as int));
        }
        assert(pieces@ =~= self.pieces@);
        Board { pieces }
    }
}

/// `p` moved onto the square `to`.
pub open spec fn placed_at(p: Piece, to: Coordinates) -> Piece {
    Piece { coordinates: to, ..p }
}

/// The pieces of `team` among `slots`, in order.
pub open spec fn team_pieces(slots: Seq<Option<Piece>>, team: PlayerTeam) -> Seq<Piece>
    decreases slots.len(),
{
    if slots.len() == 0 {
        seq![]
    } else {
        let rest = team_pieces(slots.drop_last(), team);
        match slots.last() {
            Some(p) => if p.team == team {
                rest.push(p)
            } else {
                rest
            },
            None => rest,
        }
    }
}

/// The two-letter text of a square: the piece's kind and team, or `--`,
/// followed by a space.
pub open spec fn square_text(slot: Option<Piece>) -> Seq<char> {
    match slot {
        Some(p) => (match p.piece_type {
            PieceType::Herzmuschel => "H"@,
            PieceType::Moewe => "M"@,
            PieceType::Seestern => "S"@,
            PieceType::Robbe => "R"@,
        }) + (match p.team {
            PlayerTeam::One => "1"@,
            PlayerTeam::Two => "2"@,
        }) + " "@,
        None => "-- "@,
    }
}

/// The texts of the first `n` squares of row `y`, from column 0 on.
pub open spec fn row_text(slots: Seq<Option<Piece>>, y: int, n: int) -> Seq<char>
    decreases n,
{
    if n <= 0 {
        seq![]
    } else {
        row_text(slots, y, n - 1) + square_text(slots[(n - 1) * 8 + y])
    }
}

/// The first `m` rows of the board, one line each.
pub open spec fn board_text(slots: Seq<Option<Piece>>, m: int) -> Seq<char>
    decreases m,
{
    if m <= 0 {
        seq![]
    } else {
        board_text(slots, m - 1) + row_text(slots, m - 1, 8) + "\n"@
    }
}

impl View for Board {
    type V = Map<Coordinates, Piece>;

    /// The occupied squares and the piece on each.
    open spec fn view(&self) -> Map<Coordinates, Piece> {
        Map::new(
            |c: Coordinates| on_board(c) && self.pieces@[square_index(c)] is Some,
            |c: Coordinates| self.pieces@[square_index(c)]->Some_0,
        )
    }
}

impl Board {
    /// There is a slot for each of the 64 squares, and each piece knows the
    /// square it stands on.
    pub open spec fn wf(&self) -> bool {
        &&& self.pieces@.len() == 64
        &&& forall|i: int|
            0 <= i < 64 && (#[trigger] self.pieces@[i]) is Some ==> self.pieces@[i]->Some_0.coordinates
                == square_at(i)
    }

    /// An empty board.
    pub fn new() -> (r: Board)
        ensures
            r.wf(),
            r@ == Map::<Coordinates, Piece>::empty(),
    {
        let mut pieces: Vec<Option<Piece>> = Vec::new();
        let mut i: usize = 0;
        while i < 64
            invariant
                i <= 64,
                pieces@.len() == i,
                forall|j: int| 0 <= j < i ==> (#[trigger] pieces@[j]) is None,
            decreases 64 - i,
        {
            pieces.push(None);
            i = i + 1;
        }
        let r = Board { pieces };
        assert(r@ =~= Map::<Coordinates, Piece>::empty()) by {
            assert forall|c: Coordinates| !r@.contains_key(c) by {
                if on_board(c) {
                    lemma_square_index(c);
                }
            }
        }
        r
    }

    /// The piece on `coords`, if there is one.
    pub fn get_piece_at(&self, coords: &Coordinates) -> (r: Option<&Piece>)
        requires
            self.wf(),
        ensures
            match r {
                Some(p) => self@.contains_key(*coords) && *p == self@[*coords],
                None => !self@.contains_key(*coords),
            },
    {
        if !coords.in_bounds() {
            return None;
        }
        let i = coords.square_index();
        self.pieces[i].as_ref()
    }

    /// The piece on `coords`, to be changed in place. The board stays well
    /// formed as long as the piece keeps its square.
    pub fn get_piece_at_mut(&mut self, coords: Coordinates) -> (r: Option<&mut Piece>)
        requires
            old(self).wf(),
        ensures
            r is Some ==> old(self)@.contains_key(coords),
            r matches Some(p) ==> *p == old(self)@[coords],
            r matches Some(p) ==> final(self).pieces@ == old(self).pieces@.update(square_index(coords), Some(*final(p))),
            r matches Some(p) ==> final(self)@ == old(self)@.insert(coords, *final(p)),
            r matches Some(p) ==> (final(p).coordinates == coords ==> final(self).wf()),
            r is None ==> !old(self)@.contains_key(coords) && final(self).pieces@ == old(self).pieces@,
    {
        if !coords.in_bounds() {
            return None;
        }
        let i = coords.square_index();
        proof {
            lemma_square_index(coords);
            let prev = *old(self);
            assert forall|b: Board, q: Piece| #[trigger] b.pieces@ == #[trigger] prev.pieces@.update(i as int, Some(q))
                implies b@ == prev@.insert(coords, q) && (q.coordinates == coords ==> b.wf()) by {
                let ghost upd = b.pieces@[i as int];
                b.lemma_view_after_set(prev, i as int);
            }
        }
        self.pieces[i].as_mut()
    }

    /// The piece on `*coords`, to be changed in place; see [`Board::get_piece_at_mut`].
    pub fn get_piece_at_ref_mut(&mut self, coords: &Coordinates) -> (r: Option<&mut Piece>)
        requires
            old(self).wf(),
        ensures
            r is Some ==> old(self)@.contains_key(*coords),
            r matches Some(p) ==> *p == old(self)@[*coords],
            r matches Some(p) ==> final(self).pieces@ == old(self).pieces@.update(square_index(*coords), Some(*final(p))),
            r matches Some(p) ==> final(self)@ == old(self)@.insert(*coords, *final(p)),
            r matches Some(p) ==> (final(p).coordinates == *coords ==> final(self).wf()),
            r is None ==> !old(self)@.contains_key(*coords) && final(self).pieces@ == old(self).pieces@,
    {
        let coords = *coords;
        self.get_piece_at_mut(coords)
    }

    /// Puts `piece` on the square it names, replacing whatever stood there.
    pub fn set_piece(&mut self, piece: Piece)
        requires
            old(self).wf(),
            on_board(piece.coordinates),
        ensures
            final(self).wf(),
            final(self)@ == old(self)@.insert(piece.coordinates, piece),
    {
        let i = piece.coordinates.square_index();
        self.pieces.set(i, Some(piece));
        proof {
            lemma_square_index(piece.coordinates);
            self.lemma_view_after_set(*old(self), i as int);
        }
    }

    /// Takes the piece on `coords` off the board and returns it.
    pub fn remove_piece(&mut self, coords: &Coordinates) -> (r: Option<Piece>)
        requires
            old(self).wf(),
        ensures
            final(self).wf(),
            final(self)@ == old(self)@.remove(*coords),
            r == (if old(self)@.contains_key(*coords) {
                Some(old(self)@[*coords])
            } else {
                None
            }),
    {
        if !coords.in_bounds() {
            assert(self@ =~= old(self)@.remove(*coords));
            return None;
        }
        let i = coords.square_index();
        let r = self.pieces[i];
        self.pieces.set(i, None);
        proof {
            lemma_square_index(*coords);
            self.lemma_view_after_set(*old(self), i as int);
        }
        r
    }

    /// Moves whatever piece stands on `from` to `to`; whatever stood on `to`
    /// is gone afterwards. Nothing changes when `from` is empty.
    pub fn move_piece(&mut self, from: &Coordinates, to: &Coordinates)
        requires
            old(self).wf(),
            on_board(*to),
        ensures
            final(self).wf(),
            final(self)@ == (if old(self)@.contains_key(*from) {
                old(self)@.remove(*from).insert(*to, placed_at(old(self)@[*from], *to))
            } else {
                old(self)@
            }),
    {
        if let Some(piece) = self.remove_piece(from) {
            let moved = Piece { coordinates: *to, ..piece };
            self.set_piece(moved);
        }
    }

    /// The board as text: one line per row, one entry per square, such as
    /// `H1 ` for a piece and `-- ` for an empty square.
    pub fn render(&self) -> (r: String)
        requires
            self.wf(),
        ensures
            r@ == board_text(self.pieces@, 8),
    {
        let mut r = String::new();
        let mut y: usize = 0;
        while y < 8
            invariant
                self.wf(),
                y <= 8,
                r@ == board_text(self.pieces@, y as int),
            decreases 8 - y,
        {
            let ghost line_start = r@;
            let mut x: usize = 0;
            while x < 8
                invariant
                    self.wf(),
                    y < 8,
                    x <= 8,
                    r@ == line_start + row_text(self.pieces@, y as int, x as int),
                decreases 8 - x,
            {
                let ghost before = r@;
                match self.pieces[x * 8 + y] {
                    Some(piece) => {
                        let kind = match piece.piece_type {
                            PieceType::Herzmuschel => "H",
                            PieceType::Moewe => "M",
                            PieceType::Seestern => "S",
                            PieceType::Robbe => "R",
                        };
                        let team = match piece.team {
                            PlayerTeam::One => "1",
                            PlayerTeam::Two => "2",
                        };
                        r.append(kind);
                        r.append(team);
                        r.append(" ");
                    },
                    None => {
                        r.append("-- ");
                    },
                }
                assert(r@ =~= before + square_text(self.pieces@[x * 8 + y]));
                x = x + 1;
                assert(r@ =~= line_start + row_text(self.pieces@, y as int, x as int));
            }
            r.append("\n");
            y = y + 1;
            assert(r@ =~= board_text(self.pieces@, y as int));
        }
        r
    }

    /// The pieces owned by `team`, in row-major order of their squares.
    pub fn get_pieces_for_team(&self, team: PlayerTeam) -> (r: Vec<Piece>)
        requires
            self.wf(),
        ensures
            r@ == team_pieces(self.pieces@, team),
            forall|i: int| 0 <= i < r@.len() ==> (#[trigger] r@[i]).team == team
                && self@.contains_key(r@[i].coordinates) && self@[r@[i].coordinates] == r@[i],
    {
        let mut r: Vec<Piece> = Vec::new();
        let mut i: usize = 0;
        while i < 64
            invariant
                self.wf(),
                i <= 64,
                r@ == team_pieces(self.pieces@.take(i as int), team),
                forall|k: int| 0 <= k < r@.len() ==> (#[trigger] r@[k]).team == team
                    && self@.contains_key(r@[k].coordinates) && self@[r@[k].coordinates] == r@[k],
            decreases 64 - i,
        {
            assert(self.pieces@.take(i + 1).drop_last() =~= self.pieces@.take(i as int));
            if let Some(p) = self.pieces[i] {
                if p.team == team {
                    proof {
                        lemma_square_at(i as int);
                    }
                    r.push(p);
                }
            }
            i = i + 1;
        }
        assert(self.pieces@.take(64) =~= self.pieces@);
        r
    }

    proof fn lemma_view_after_set(&self, prev: Board, i: int)
        requires
            prev.wf(),
            self.pieces@.len() == 64,
            0 <= i < 64,
            self.pieces@ == prev.pieces@.update(i, self.pieces@[i]),
        ensures
            self.pieces@[i] is Some ==> self.pieces@[i]->Some_0.coordinates == square_at(i) ==> self.wf(),
            self.pieces@[i] is None ==> self.wf(),
            self@ == (match self.pieces@[i] {
                Some(p) => prev@.insert(square_at(i), p),
                None => prev@.remove(square_at(i)),
            }),
    {
        lemma_square_at(i);
        let expect = match self.pieces@[i] {
            Some(p) => prev@.insert(square_at(i), p),
            None => prev@.remove(square_at(i)),
        };
        assert forall|c: Coordinates| #[trigger] self@.contains_key(c) == expect.contains_key(c) by {
            if on_board(c) {
                lemma_square_index(c);
            }
        }
        assert forall|c: Coordinates| self@.contains_key(c) implies #[trigger] self@[c] == expect[c] by {
            lemma_square_index(c);
        }
        assert(self@ =~= expect);
    }
}

} // verus!

verus! {

/// The board that a list of entries describes, read in order (a later entry
/// for a square replaces an earlier one), or the error of the first entry
/// that names a square off the board or a bad piece.
pub open spec fn decode_entries(es: Seq<PiecesEntry>) -> Result<Map<Coordinates, Piece>, Error>
    decreases es.len(),
{
    if es.len() == 0 {
        Ok(Map::empty())
    } else {
        match decode_entries(es.drop_last()) {
            Err(e) => Err(e),
            Ok(m) => {
                let e = es.last();
                let c = Vec2 { x: e.coordinates.x, y: e.coordinates.y };
                if !on_board(c) {
                    Err(Error::OutOfBounds(c.x, c.y))
                } else if e.piece.count != 1 && e.piece.count != 2 {
                    Err(Error::InvalidCount(e.piece.count))
                } else {
                    Ok(m.insert(c, piece_of_entry(e)))
                }
            },
        }
    }
}

impl FromDeserializable<XmlBoard> for Board {
    open spec fn decodes(d: &XmlBoard, r: &Result<Board, Error>) -> bool {
        match r {
            Ok(b) => b.wf() && decode_entries(d.pieces.entries@) == Ok::<Map<Coordinates, Piece>, Error>(b@),
            Err(e) => decode_entries(d.pieces.entries@) == Err::<Map<Coordinates, Piece>, Error>(*e),
        }
    }

    fn from_deserializable(d: &XmlBoard) -> (r: Result<Board, Error>) {
        let entries = &d.pieces.entries;
        let mut board = Board::new();
        let mut i: usize = 0;
        while i < entries.len()
            invariant
                entries@ == d.pieces.entries@,
                i <= entries@.len(),
                board.wf(),
                decode_entries(entries@.take(i as int)) == Ok::<Map<Coordinates, Piece>, Error>(board@),
            decreases entries@.len() - i,
        {
            let entry = &entries[i];
            assert(entries@.take(i + 1).drop_last() =~= entries@.take(i as int));
            assert(entries@.take(i + 1).last() == *entry);
            let coordinates = match Coordinates::from_deserializable(&entry.coordinates) {
                Ok(c) => c,
                Err(e) => return Err(e),
            };
            if !coordinates.in_bounds() {
                proof {
                    assert(decode_entries(entries@.take(i + 1)) == Err::<Map<Coordinates, Piece>, Error>(
                        Error::OutOfBounds(coordinates.x, coordinates.y),
                    ));
                    lemma_decode_error_stays(entries@, i as int + 1);
                }
                return Err(Error::OutOfBounds(coordinates.x, coordinates.y));
            }
            let piece = match Piece::from_deserializable(entry) {
                Ok(p) => p,
                Err(e) => {
                    proof {
                        assert(decode_entries(entries@.take(i + 1)) == Err::<Map<Coordinates, Piece>, Error>(e));
                        lemma_decode_error_stays(entries@, i as int + 1);
                    }
                    return Err(e);
                },
            };
            board.set_piece(piece);
            i = i + 1;
        }
        assert(entries@.take(entries@.len() as int) =~= entries@);
        Ok(board)
    }
}

/// Once a prefix of the entries fails to decode, the whole list fails with
/// the same error.
proof fn lemma_decode_error_stays(es: Seq<PiecesEntry>, n: int)
    requires
        0 <= n <= es.len(),
        decode_entries(es.take(n)) is Err,
    ensures
        decode_entries(es) == decode_entries(es.take(n)),
    decreases es.len() - n,
{
    if n < es.len() {
        assert(es.take(n + 1).drop_last() =~= es.take(n));
        lemma_decode_error_stays(es, n + 1);
    } else {
        assert(es.take(n) =~= es);
    }
}

} // verus!
