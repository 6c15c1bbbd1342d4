use vstd::prelude::*;

use crate::conversion::{FromDeserializable, FromSerializable};
use crate::error::Error;

verus! {

/// A pair of values, used for board positions and for move offsets.
#[derive(Debug, Clone, Copy, PartialEq, Eq, Hash, Structural)]
pub struct Vec2<T> {
    pub x: T,
    pub y: T,
}

/// A position on the board, or an offset between two positions.
pub type Coordinates = Vec2<i32>;

/// The board is 8 squares wide and 8 squares high.
pub const BOARD_SIZE: i32 = 8;

/// Whether `c` names a square of the board.
pub open spec fn on_board(c: Coordinates) -> bool {
    0 <= c.x < 8 && 0 <= c.y < 8
}

/// The index of an on-board square in a row-major list of the 64 squares.
pub open spec fn square_index(c: Coordinates) -> int {
    c.x * 8 + c.y
}

/// The square at a given index of the row-major list of the 64 squares.
pub open spec fn square_at(i: int) -> Coordinates {
    Vec2 { x: (i / 8) as i32, y: (i % 8) as i32 }
}

/// The component-wise sum of two coordinate pairs.
pub open spec fn coords_add(a: Coordinates, b: Coordinates) -> Coordinates {
    Vec2 { x: (a.x + b.x) as i32, y: (a.y + b.y) as i32 }
}

/// Squares and indices are in one-to-one correspondence.
pub proof fn lemma_square_index(c: Coordinates)
    requires
        on_board(c),
    ensures
        0 <= square_index(c) < 64,
        square_at(square_index(c)) == c,
{
}

/// Every index below 64 names an on-board square.
pub proof fn lemma_square_at(i: int)
    requires
        0 <= i < 64,
    ensures
        on_board(square_at(i)),
        square_index(square_at(i)) == i,
{
}

/// A square plus an offset of at most two in each direction stays far from
/// the limits of `i32`.
pub proof fn small_offset_sum(c: Coordinates, o: Coordinates)
    requires
        on_board(c),
        -2 <= o.x <= 2 && -2 <= o.y <= 2,
    ensures
        i32::MIN <= c.x + o.x <= i32::MAX,
        i32::MIN <= c.y + o.y <= i32::MAX,
{
}

impl Vec2<i32> {
    pub fn new(x: i32, y: i32) -> (r: Coordinates)
        ensures
            r.x == x,
            r.y == y,
    {
        Vec2 { x, y }
    }

    /// Whether both components lie in `0..8`.
    pub fn in_bounds(&self) -> (r: bool)
        ensures
            r == on_board(*self),
    {
        self.x >= 0 && self.x < BOARD_SIZE && self.y >= 0 && self.y < BOARD_SIZE
    }

    /// The component-wise sum.
    pub fn add(self, other: Coordinates) -> (r: Coordinates)
        requires
            i32::MIN <= self.x + other.x <= i32::MAX,
            i32::MIN <= self.y + other.y <= i32::MAX,
        ensures
            r == coords_add(self, other),
    {
        Vec2 { x: self.x + other.x, y: self.y + other.y }
    }

    /// The component-wise difference.
    pub fn sub(self, other: Coordinates) -> (r: Coordinates)
        requires
            i32::MIN <= self.x - other.x <= i32::MAX,
            i32::MIN <= self.y - other.y <= i32::MAX,
        ensures
            r.x == self.x - other.x,
            r.y == self.y - other.y,
    {
        Vec2 { x: self.x - other.x, y: self.y - other.y }
    }

    /// The position of this square in the row-major list of the 64 squares.
    pub fn square_index(&self) -> (r: usize)
        requires
            on_board(*self),
        ensures
            r == square_index(*self),
            r < 64,
    {
        (self.x * BOARD_SIZE + self.y) as usize
    }
}

} // verus!

verus! {

impl FromDeserializable<crate::xml_state::Coordinates> for Vec2<i32> {
    open spec fn decodes(d: &crate::xml_state::Coordinates, r: &Result<Coordinates, Error>) -> bool {
        *r == Ok::<Coordinates, Error>(Vec2 { x: d.x, y: d.y })
    }

    fn from_deserializable(d: &crate::xml_state::Coordinates) -> (r: Result<Coordinates, Error>) {
        Ok(Vec2 { x: d.x, y: d.y })
    }
}

impl FromSerializable<crate::xml_state::From> for Vec2<i32> {
    open spec fn from_serializable_spec(s: &crate::xml_state::From) -> Coordinates {
        Vec2 { x: s.x, y: s.y }
    }

    fn from_serializable(s: &crate::xml_state::From) -> (r: Coordinates) {
        Vec2 { x: s.x, y: s.y }
    }
}

impl FromSerializable<crate::xml_state::To> for Vec2<i32> {
    open spec fn from_serializable_spec(s: &crate::xml_state::To) -> Coordinates {
        Vec2 { x: s.x, y: s.y }
    }

    fn from_serializable(s: &crate::xml_state::To) -> (r: Coordinates) {
        Vec2 { x: s.x, y: s.y }
    }
}

} // verus!
