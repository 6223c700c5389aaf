//! The control-plane messages consumed by the server's one command loop.

use vstd::prelude::*;
use crate::session::SessionId;

verus! {

/// A control-plane message. Sessions report their end with `Disconnect`;
/// a termination signal asks the whole server to drain with `Terminate`.
/// The server's own loop is the only consumer.
#[derive(Clone, Copy, Debug, PartialEq, Eq, Structural)]
pub enum ServerCommand {
    /// The session with this id has ended; reap it.
    Disconnect(SessionId),
    /// Stop accepting, cancel every live session, drain, and return.
    Terminate,
}

} // verus!
