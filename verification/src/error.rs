//! The error taxonomy: what a caller can branch on when an operation fails.

use vstd::prelude::*;

verus! {

/// A failure while decoding one result row into typed values.
#[derive(Debug, Clone, Copy, PartialEq, Eq, Structural)]
pub enum DecodeError {
    /// The cursor read past the last column of the row.
    OutOfBounds,
    /// A non-optional column held null.
    UnexpectedNull,
    /// The column held a value of a different type than the field expects.
    TypeMismatch,
}

/// Any failure surfaced by the persistence layer.
#[derive(Debug)]
pub enum Error {
    /// The pool or transport failed; not recoverable locally.
    Connection(String),
    /// The database engine rejected a statement.
    Query(String),
    /// A result row could not be decoded; never silently defaulted.
    Decode(DecodeError),
    /// A single-entity lookup found no row; distinct from other query errors
    /// so callers can branch on "absent" versus "broken".
    NotFound,
    /// A batch statement failed mid-sequence; the batch was rolled back
    /// before this error was surfaced.
    Transaction(String),
}

} // verus!
