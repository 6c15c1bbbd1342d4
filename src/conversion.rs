//! Conversions between the library's types and the shapes in which the
//! protocol carries them.
use vstd::prelude::*;

use crate::error::Error;

verus! {

/// A value that can be turned into the shape that the protocol sends.
pub trait ToSerializable<T>: Sized {
    /// What `self` turns into.
    spec fn to_serializable_spec(&self) -> T;

    fn to_serializable(&self) -> (r: T)
        ensures
            r == self.to_serializable_spec(),
    ;
}

/// A value that is built from a shape that the protocol carries, whatever
/// that shape holds.
pub trait FromSerializable<S>: Sized {
    /// What `s` turns into.
    spec fn from_serializable_spec(s: &S) -> Self;

    fn from_serializable(s: &S) -> (r: Self)
        ensures
            r == Self::from_serializable_spec(s),
    ;
}

/// A value that is built from a shape that the protocol carries, where that
/// shape may hold what the value cannot.
pub trait FromDeserializable<D>: Sized {
    /// Whether `r` is the outcome of decoding `d`.
    spec fn decodes(d: &D, r: &Result<Self, Error>) -> bool;

    fn from_deserializable(d: &D) -> (r: Result<Self, Error>)
        ensures
            Self::decodes(d, &r),
    ;
}

} // verus!
