//! The error surface the server's caller sees.
//!
//! Whatever went wrong inside the core — transport failures, poisoned
//! state, a torn-down channel, an address in use — reaches the caller as
//! one I/O error kind.

use vstd::prelude::*;

verus! {

/// What went wrong, as reported at the server's boundary.
#[derive(Clone, Copy, Debug, PartialEq, Eq, Structural)]
pub enum ErrorKind {
    Io,
}

/// An error reported at the server's boundary.
#[derive(Clone, Copy, Debug, PartialEq, Eq, Structural)]
pub struct Error {
    pub kind: ErrorKind,
}

impl Error {
    /// Wraps a kind into an error.
    pub fn new(kind: ErrorKind) -> (r: Error)
        ensures
            r.kind == kind,
    {
        Error { kind }
    }

    /// Returns the kind this error was raised with.
    pub fn kind(&self) -> (r: &ErrorKind)
        ensures
            *r == self.kind,
    {
        &self.kind
    }
}

impl From<crate::model::error::Error> for Error {
    /// Every kind of the core surfaces as the single I/O kind.
    fn from(err: crate::model::error::Error) -> (r: Error) {
        match err.kind {
            crate::model::error::ErrorKind::Io
            | crate::model::error::ErrorKind::Poisoned(_)
            | crate::model::error::ErrorKind::Disconnected { .. }
            | crate::model::error::ErrorKind::PacketSizeLimitExceeded { .. }
            | crate::model::error::ErrorKind::AddressAlreadInUse { .. }
            | crate::model::error::ErrorKind::AddressNotAvailable { .. } => Error {
                kind: ErrorKind::Io,
            },
        }
    }
}

impl vstd::std_specs::convert::FromSpecImpl<crate::model::error::Error> for Error {
    open spec fn obeys_from_spec() -> bool {
        true
    }

    open spec fn from_spec(err: crate::model::error::Error) -> Error {
        Error { kind: ErrorKind::Io }
    }
}

} // verus!
