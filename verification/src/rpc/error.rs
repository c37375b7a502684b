//! Errors surfaced by the RPC connection handler.

use vstd::prelude::*;

verus! {

/// An error that ends a connection.
#[derive(Clone, Copy, Debug, PartialEq, Eq, Structural)]
pub enum RPCError {
    /// We have intentionally disconnected.
    Disconnected,
}

impl RPCError {
    /// A short human-readable description.
    pub fn message(&self) -> (s: &'static str)
        ensures
            s@ == "RPC Error"@,
    {
        "RPC Error"
    }
}

} // verus!
