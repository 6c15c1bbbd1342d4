use vstd::prelude::*;

use crate::enums::DataClass;
use crate::moves::Move;

verus! {

/// What can go wrong in the library.
#[derive(Debug, Clone, PartialEq, Eq)]
pub enum Error {
    /// The move is not legal in the current state.
    IllegalMove(Move),
    /// The opening response of the server, which does not begin with the
    /// protocol marker.
    MissingProtocolMarker(Vec<u8>),
    /// Bytes from the server that are not valid UTF-8.
    InvalidUtf8,
    /// A message's `class` is none that the protocol knows.
    UnknownDataClass(String),
    /// A message lacks a part that its kind requires.
    MissingPayload(DataClass),
    /// A square named by the server lies outside the board.
    OutOfBounds(i32, i32),
    /// A stack count other than 1 or 2.
    InvalidCount(i32),
    /// A negative turn number or amber count.
    NegativeValue(i32),
    /// An envelope with neither a room nor a left notice.
    EmptyEnvelope,
}

} // verus!
