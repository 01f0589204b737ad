//! How a command or a database request can turn out.

use vstd::prelude::*;

verus! {

/// The answers a client command can be given.
#[derive(Clone, Copy, Debug, PartialEq, Eq, Structural)]
pub enum ErrorType {
    NoError,
    Malformed,
    NotFound,
    Unauthorized,
    CondFail,
    DbFail,
}

/// How a database request can fail.
#[derive(Clone, Copy, Debug, PartialEq, Eq, Structural)]
pub enum DbError {
    /// The database itself failed.
    Internal,
    /// Nothing was found, or no row met the conditions.
    Empty,
    /// The password does not match.
    WrongPass,
    /// Any other refusal.
    Other,
}

} // verus!
