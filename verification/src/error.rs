//! Failure taxonomy shared by every component of the client.

use vstd::prelude::*;

verus! {

/// Everything that can go wrong while talking to the node.
///
/// Only `Transport` is ever retried, and then only while a connection is
/// being established; every other variant is returned to the caller.
#[derive(Debug, Clone, PartialEq, Eq)]
pub enum Error {
    /// Network or connection failure, carrying the transport's own message.
    Transport(String),
    /// A remote response could not be parsed into the expected shape.
    Decode(String),
    /// An overall deadline elapsed; distinct from the per-attempt cause.
    Timeout,
    /// An internal consistency assumption failed, such as a receipt missing
    /// right after a successful confirmation wait.
    InvariantViolation(String),
    /// The caller requested decoding into an incompatible result shape.
    InvalidOutputType(String),
}

impl Error {
    /// Connection establishment retries exactly the transport-level failures;
    /// anything else aborts the attempt loop at once.
    pub fn is_transient(&self) -> (r: bool)
        ensures
            r == (self is Transport),
    {
        match self {
            Error::Transport(_) => true,
            _ => false,
        }
    }
}

} // verus!
