//! Errors raised inside the relay core.

use vstd::prelude::*;
use crate::model::model::SocketAddr;

verus! {

/// What went wrong, as the core distinguishes it.
#[derive(Debug)]
pub enum ErrorKind {
    /// A transport or timeout failure, including a rejected proxy handshake.
    Io,
    /// A worker thread panicked while holding shared session state.
    Poisoned(String),
    /// The peer of a command or cancellation channel is gone.
    Disconnected { name: String },
    /// Reserved for the unimplemented packet-oriented relay path.
    PacketSizeLimitExceeded { size: usize, limit: usize },
    /// The listen address was already bound when the server started.
    AddressAlreadInUse { addr: SocketAddr },
    /// The listen address cannot be bound on this host.
    AddressNotAvailable { addr: SocketAddr },
}

impl ErrorKind {
    /// Builds the error for a channel whose peer is gone, naming the channel.
    pub fn disconnected(name: String) -> (r: ErrorKind)
        ensures
            r == (ErrorKind::Disconnected { name }),
    {
        ErrorKind::Disconnected { name }
    }
}

impl Clone for ErrorKind {
    fn clone(&self) -> (r: ErrorKind)
        ensures
            r == *self,
    {
        match self {
            ErrorKind::Io => ErrorKind::Io,
            ErrorKind::Poisoned(msg) => ErrorKind::Poisoned(msg.clone()),
            ErrorKind::Disconnected { name } => ErrorKind::Disconnected { name: name.clone() },
            ErrorKind::PacketSizeLimitExceeded { size, limit } => {
                ErrorKind::PacketSizeLimitExceeded { size: *size, limit: *limit }
            },
            ErrorKind::AddressAlreadInUse { addr } => {
                ErrorKind::AddressAlreadInUse { addr: *addr }
            },
            ErrorKind::AddressNotAvailable { addr } => {
                ErrorKind::AddressNotAvailable { addr: *addr }
            },
        }
    }
}

/// An error of the relay core: its kind, carried to whoever joins the
/// session or started the server.
#[derive(Debug)]
pub struct Error {
    pub kind: ErrorKind,
}

impl Error {
    /// Wraps a kind into an error.
    pub fn new(kind: ErrorKind) -> (r: Error)
        ensures
            r.kind == kind,
    {
        Error { kind }
    }

    /// Returns the kind this error was raised with.
    pub fn kind(&self) -> (r: &ErrorKind)
        ensures
            *r == self.kind,
    {
        &self.kind
    }
}

impl Clone for Error {
    fn clone(&self) -> (r: Error)
        ensures
            r == *self,
    {
        Error { kind: self.kind.clone() }
    }
}

impl From<ErrorKind> for Error {
    fn from(kind: ErrorKind) -> (r: Error) {
        Error { kind }
    }
}

impl vstd::std_specs::convert::FromSpecImpl<ErrorKind> for Error {
    open spec fn obeys_from_spec() -> bool {
        true
    }

    open spec fn from_spec(kind: ErrorKind) -> Error {
        Error { kind }
    }
}

} // verus!
