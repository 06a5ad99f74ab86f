//! The size a response body declares before its first chunk is polled.

use vstd::prelude::*;

verus! {

/// Declared size of a response body.
#[derive(Clone, Copy, Debug, PartialEq, Eq, Structural)]
pub enum BodySize {
    /// No body at all: no bytes follow and no length is announced.
    NoBody,
    /// A body that is declared empty: a length of zero is announced.
    Empty,
    /// A body of exactly this many bytes.
    Sized(u64),
    /// A body of unknown length, streamed until its producer finishes.
    Stream,
}

impl BodySize {
    /// Whether a body of this size carries no bytes, so that the response
    /// ends with its head.
    pub open spec fn spec_is_eof(self) -> bool {
        self is NoBody || self is Empty || self == BodySize::Sized(0)
    }

    /// Returns `true` when the response ends with its head.
    pub fn is_eof(&self) -> (eof: bool)
        ensures
            eof == self.spec_is_eof(),
    {
        match self {
            BodySize::NoBody => true,
            BodySize::Empty => true,
            BodySize::Sized(n) => *n == 0,
            BodySize::Stream => false,
        }
    }
}

} // verus!
