//! The server: accepts connections, allocates session identifiers, keeps
//! the live-session registry, and drives graceful shutdown.
//!
//! The registry is owned by the server alone; everything else talks to it
//! through [`crate::server_command::ServerCommand`] messages. The state
//! machine here decides every step — what a fresh session looks like, when
//! an accept failure is fatal, what reaping and draining do — while the
//! listening socket, the threads and the command channel live outside the
//! library.

use vstd::prelude::*;
use crate::config::ServerConfig;
use crate::model::error::{Error, ErrorKind};
use crate::model::model::SocketAddr;
use crate::relay::CancelToken;
use crate::server_command::ServerCommand;
use crate::session::{DisconnectGuard, Session, SessionHandle, SessionId};

verus! {

/// The server's lifecycle. `Stopped` is terminal.
#[derive(Clone, Copy, Debug, PartialEq, Eq, Structural)]
pub enum ServerPhase {
    /// Created, not yet listening.
    Idle,
    /// Looping on accept and on the command channel.
    Accepting,
    /// No longer accepting; cancelling and joining live sessions.
    Draining,
    /// Done; `serve` returns.
    Stopped,
}

/// One live session as the registry records it: its id and its handle.
pub struct SessionEntry {
    pub id: SessionId,
    pub handle: SessionHandle,
}

/// Whether some entry of `s` carries the id.
pub open spec fn seq_contains_id(s: Seq<SessionEntry>, id: SessionId) -> bool {
    exists|i: int| 0 <= i < s.len() && s[i].id == id
}

/// Whether no two entries of `s` share an id.
pub open spec fn seq_ids_unique(s: Seq<SessionEntry>) -> bool {
    forall|i: int, j: int| 0 <= i < j < s.len() ==> s[i].id != s[j].id
}

/// Reaping one entry leaves every other id's membership as it was.
proof fn lemma_remove_preserves_other_ids(s: Seq<SessionEntry>, i: int, id2: SessionId)
    requires
        0 <= i < s.len(),
        s[i].id != id2,
    ensures
        seq_contains_id(s.remove(i), id2) == seq_contains_id(s, id2),
{
    s.remove_ensures(i);
    if seq_contains_id(s, id2) {
        let k = choose|k: int| 0 <= k < s.len() && s[k].id == id2;
        if k < i {
            assert(s.remove(i)[k] == s[k]);
        } else {
            assert(s.remove(i)[k - 1] == s[k]);
        }
        assert(seq_contains_id(s.remove(i), id2));
    }
    if seq_contains_id(s.remove(i), id2) {
        let k = choose|k: int| 0 <= k < s.remove(i).len() && s.remove(i)[k].id == id2;
        if k < i {
            assert(s.remove(i)[k] == s[k]);
        } else {
            assert(s.remove(i)[k] == s[k + 1]);
        }
        assert(seq_contains_id(s, id2));
    }
}

/// With unique ids, reaping an entry removes its id from the registry
/// entirely.
proof fn lemma_remove_unique_id_gone(s: Seq<SessionEntry>, i: int)
    requires
        seq_ids_unique(s),
        0 <= i < s.len(),
    ensures
        !seq_contains_id(s.remove(i), s[i].id),
{
    s.remove_ensures(i);
    assert forall|k: int| 0 <= k < s.remove(i).len() implies s.remove(i)[k].id != s[i].id by {
        if k < i {
            assert(s.remove(i)[k] == s[k]);
        } else {
            assert(s.remove(i)[k] == s[k + 1]);
        }
    }
}

/// The outcome of one bounded wait for a client connection.
#[derive(Debug)]
pub enum AcceptOutcome {
    /// A client connected from this address.
    Accepted(SocketAddr),
    /// The wait timed out with no connection; not an error.
    TimedOut,
    /// The wait failed.
    Failed(ErrorKind),
}

/// What the accept loop must do after one wait.
pub enum AcceptDecision {
    /// Spawn this session's relay work.
    Spawn(Session),
    /// Nothing happened or the failure was transient: poll again.
    Retry,
    /// The failure is fatal: stop accepting, drain, and propagate it.
    Fatal(Error),
}

/// The server: its configuration, its phase, the next session identifier,
/// and the registry of live sessions.
pub struct Server {
    pub config: ServerConfig,
    pub phase: ServerPhase,
    /// Identifier the next accepted connection will get. Monotone, so an id
    /// is assigned exactly once within a process lifetime.
    pub next_id: u32,
    /// The live sessions. Mutated only through the server's own steps.
    pub registry: Vec<SessionEntry>,
}

impl Server {
    /// Registry invariant: no id is shared between two live sessions, and
    /// every live id was allocated before `next_id`.
    pub open spec fn wf(&self) -> bool {
        &&& seq_ids_unique(self.registry@)
        &&& forall|i: int|
            0 <= i < self.registry@.len() ==> (#[trigger] self.registry@[i].id).0 < self.next_id
    }

    /// Whether a live session carries the id.
    pub open spec fn contains_id(&self, id: SessionId) -> bool {
        seq_contains_id(self.registry@, id)
    }

    /// How many sessions are live.
    pub open spec fn live_count(&self) -> nat {
        self.registry@.len()
    }

    /// A fresh server for this configuration: not yet listening, no live
    /// session, ids starting at zero.
    pub fn new(config: ServerConfig) -> (s: Server)
        ensures
            s.config == config,
            s.phase == ServerPhase::Idle,
            s.next_id == 0,
            s.live_count() == 0,
            s.wf(),
    {
        Server { config, phase: ServerPhase::Idle, next_id: 0, registry: Vec::new() }
    }

    /// Whether an accept failure is fatal. Only the bind-time address
    /// failures are: anything else is transient and the loop re-polls.
    pub open spec fn spec_accept_error_is_fatal(kind: ErrorKind) -> bool {
        ||| kind matches ErrorKind::AddressAlreadInUse { .. }
        ||| kind matches ErrorKind::AddressNotAvailable { .. }
    }

    /// Decides whether an accept failure ends the server.
    pub fn accept_error_is_fatal(kind: &ErrorKind) -> (r: bool)
        ensures
            r == Self::spec_accept_error_is_fatal(*kind),
    {
        match kind {
            ErrorKind::AddressAlreadInUse { .. } => true,
            ErrorKind::AddressNotAvailable { .. } => true,
            _ => false,
        }
    }

    /// Consumes the outcome of binding the listen address. On success the
    /// server starts accepting; a bind failure is fatal before any
    /// connection was accepted, and the server stops at once.
    pub fn on_bind(&mut self, outcome: Result<(), ErrorKind>) -> (r: Result<(), Error>)
        requires
            old(self).wf(),
            old(self).phase == ServerPhase::Idle,
        ensures
            final(self).wf(),
            final(self).config == old(self).config,
            final(self).next_id == old(self).next_id,
            final(self).registry@ == old(self).registry@,
            outcome is Ok ==> final(self).phase == ServerPhase::Accepting && r is Ok,
            outcome matches Err(k) ==> (final(self).phase == ServerPhase::Stopped && (r matches Err(
            e) && e.kind == k)),
    {
        match outcome {
            Ok(()) => {
                self.phase = ServerPhase::Accepting;
                Ok(())
            },
            Err(kind) => {
                self.phase = ServerPhase::Stopped;
                Err(Error::new(kind))
            },
        }
    }

    /// Consumes the outcome of one wait for a client.
    ///
    /// An accepted connection gets the next identifier — provably never one
    /// of a live session — a fresh session with its guard, and a registry
    /// entry with both directions' stop signals. A timeout is no event: the
    /// server is unchanged and simply re-polls. A transient failure is
    /// retried; a fatal one is handed back, and individual session failures
    /// never stop the loop.
    pub fn on_accept_outcome(&mut self, outcome: AcceptOutcome) -> (d: AcceptDecision)
        requires
            old(self).wf(),
            old(self).phase == ServerPhase::Accepting,
            old(self).next_id < u32::MAX,
        ensures
            final(self).wf(),
            final(self).config == old(self).config,
            final(self).phase == old(self).phase,
            outcome matches AcceptOutcome::Accepted(client_addr) ==> (d matches
                AcceptDecision::Spawn(s) && (s.id == SessionId(old(self).next_id)
                && !old(self).contains_id(s.id) && s.server_addr == old(self).config.server_addr
                && s.dst_addr == old(self).config.dst_addr && s.guard == (DisconnectGuard {
                id: s.id,
                refs: 1,
                fired: false,
            }) && final(self).next_id == old(self).next_id + 1 && final(self).registry@ == old(self).registry@.push(
                SessionEntry {
                    id: s.id,
                    handle: SessionHandle {
                        addr: client_addr,
                        cancel_up: CancelToken { requested: false },
                        cancel_down: CancelToken { requested: false },
                    },
                },
            ))),
            outcome is TimedOut ==> *final(self) == *old(self) && d is Retry,
            outcome matches AcceptOutcome::Failed(k) ==> (*final(self) == *old(self) && (
            if Self::spec_accept_error_is_fatal(k) {
                d matches AcceptDecision::Fatal(e) && e.kind == k
            } else {
                d is Retry
            })),
    {
        match outcome {
            AcceptOutcome::Accepted(client_addr) => {
                let ghost r0 = self.registry@;
                let ghost n0 = self.next_id;
                let id = SessionId(self.next_id);
                proof {
                    assert(forall|i: int|
                        0 <= i < r0.len() ==> (#[trigger] r0[i].id).0 < n0);
                    assert(!seq_contains_id(r0, id));
                }
                self.next_id = self.next_id + 1;
                let handle = SessionHandle::new(client_addr, CancelToken::new(), CancelToken::new());
                self.registry.push(SessionEntry { id, handle });
                proof {
                    assert forall|i: int, j: int|
                        0 <= i < j < self.registry@.len() implies self.registry@[i].id
                        != self.registry@[j].id by {
                        if j == r0.len() {
                            assert(self.registry@[i] == r0[i]);
                            assert(r0[i].id.0 < n0);
                        } else {
                            assert(self.registry@[i] == r0[i]);
                            assert(self.registry@[j] == r0[j]);
                        }
                    }
                    assert forall|i: int|
                        0 <= i < self.registry@.len() implies (#[trigger] self.registry@[i].id).0
                        < self.next_id by {
                        if i < r0.len() {
                            assert(self.registry@[i] == r0[i]);
                        }
                    }
                }
                let session = Session::new(id, self.config.server_addr, self.config.dst_addr.clone());
                AcceptDecision::Spawn(session)
            },
            AcceptOutcome::TimedOut => AcceptDecision::Retry,
            AcceptOutcome::Failed(kind) => {
                if Self::accept_error_is_fatal(&kind) {
                    AcceptDecision::Fatal(Error::new(kind))
                } else {
                    AcceptDecision::Retry
                }
            },
        }
    }

    /// Consumes one control-plane message.
    ///
    /// `Disconnect(id)` reaps exactly the session with that id — the caller
    /// joins what is handed back — and disturbs nothing else: every other
    /// session's membership, the phase, and the accept loop are as they
    /// were. A `Disconnect` for an id no longer live is benign and changes
    /// nothing. `Terminate` stops the accepting, requests the stop of both
    /// relay directions of every live session, and hands all of them back
    /// for joining: afterwards the registry is empty and the server drains.
    pub fn on_command(&mut self, cmd: ServerCommand) -> (reaped: Vec<SessionEntry>)
        requires
            old(self).wf(),
        ensures
            final(self).wf(),
            final(self).config == old(self).config,
            final(self).next_id == old(self).next_id,
            cmd is Disconnect ==> (final(self).phase == old(self).phase && !final(self).contains_id(cmd->0)),
            cmd is Disconnect && !old(self).contains_id(cmd->0) ==> (final(self).registry@ == old(self).registry@ && reaped@.len() == 0),
            cmd is Disconnect && old(self).contains_id(cmd->0) ==> (exists|i: int|
                0 <= i < old(self).registry@.len() && old(self).registry@[i].id == cmd->0 && final(self).registry@ == old(self).registry@.remove(i) && reaped@.len() == 1 && reaped@[0]
                    == old(self).registry@[i]),
            cmd is Disconnect ==> (forall|id2: SessionId|
                id2 != cmd->0 ==> final(self).contains_id(id2) == old(self).contains_id(id2)),
            cmd is Terminate ==> (final(self).phase == ServerPhase::Draining && final(self).live_count() == 0 && reaped@.len() == old(self).registry@.len() && (forall|i: int|
                0 <= i < reaped@.len() ==> ((#[trigger] reaped@[i]).id == old(self).registry@[i].id
                    && reaped@[i].handle.addr == old(self).registry@[i].handle.addr
                    && reaped@[i].handle.stop_requested()))),
    {
        match cmd {
            ServerCommand::Disconnect(id) => {
                let ghost r0 = self.registry@;
                let mut reaped: Vec<SessionEntry> = Vec::new();
                let mut sel: Option<usize> = None;
                let mut i: usize = 0;
                while i < self.registry.len()
                    invariant
                        self.registry@ == r0,
                        self.config == old(self).config,
                        self.phase == old(self).phase,
                        self.next_id == old(self).next_id,
                        i <= r0.len(),
                        sel is None ==> forall|k: int| 0 <= k < i ==> r0[k].id != id,
                        sel matches Some(j) ==> j < r0.len() && r0[j as int].id == id,
                    decreases r0.len() - i,
                {
                    if sel.is_none() && self.registry[i].id == id {
                        sel = Some(i);
                    }
                    i = i + 1;
                }
                match sel {
                    None => {
                        proof {
                            assert(forall|k: int| 0 <= k < r0.len() ==> r0[k].id != id);
                            assert(!seq_contains_id(r0, id));
                        }
                        reaped
                    },
                    Some(j) => {
                        let entry = self.registry.remove(j);
                        proof {
                            assert(entry == r0[j as int]);
                            assert(seq_contains_id(r0, id));
                            lemma_remove_unique_id_gone(r0, j as int);
                            assert forall|id2: SessionId| id2 != id implies seq_contains_id(
                                self.registry@,
                                id2,
                            ) == seq_contains_id(r0, id2) by {
                                lemma_remove_preserves_other_ids(r0, j as int, id2);
                            }
                            r0.remove_ensures(j as int);
                            assert forall|a: int, b: int|
                                0 <= a < b < self.registry@.len() implies self.registry@[a].id
                                != self.registry@[b].id by {
                                assert(self.registry@[a] == (if a < j as int {
                                    r0[a]
                                } else {
                                    r0[a + 1]
                                }));
                                assert(self.registry@[b] == (if b < j as int {
                                    r0[b]
                                } else {
                                    r0[b + 1]
                                }));
                            }
                            assert forall|k: int|
                                0 <= k < self.registry@.len() implies (
                                #[trigger] self.registry@[k].id).0 < self.next_id by {
                                assert(self.registry@[k] == (if k < j as int {
                                    r0[k]
                                } else {
                                    r0[k + 1]
                                }));
                            }
                        }
                        reaped.push(entry);
                        reaped
                    },
                }
            },
            ServerCommand::Terminate => {
                let ghost r0 = self.registry@;
                let mut reaped: Vec<SessionEntry> = Vec::new();
                while self.registry.len() > 0
                    invariant
                        self.config == old(self).config,
                        self.phase == old(self).phase,
                        self.next_id == old(self).next_id,
                        reaped@.len() + self.registry@.len() == r0.len(),
                        self.registry@ == r0.subrange(reaped@.len() as int, r0.len() as int),
                        forall|k: int|
                            0 <= k < reaped@.len() ==> ((#[trigger] reaped@[k]).id == r0[k].id
                                && reaped@[k].handle.addr == r0[k].handle.addr
                                && reaped@[k].handle.stop_requested()),
                    decreases self.registry.len(),
                {
                    let ghost m = reaped@.len() as int;
                    let mut entry = self.registry.remove(0);
                    proof {
                        assert(entry == r0[m]);
                        assert(self.registry@ =~= r0.subrange(m + 1, r0.len() as int));
                    }
                    entry.handle.stop();
                    reaped.push(entry);
                }
                self.phase = ServerPhase::Draining;
                reaped
            },
        }
    }

    /// The last step of the drain, taken once every session handed back by
    /// `Terminate` has been joined: the server stops, and `serve` returns.
    pub fn finish_drain(&mut self)
        requires
            old(self).wf(),
            old(self).phase == ServerPhase::Draining,
            old(self).live_count() == 0,
        ensures
            final(self).wf(),
            final(self).config == old(self).config,
            final(self).next_id == old(self).next_id,
            final(self).live_count() == 0,
            final(self).phase == ServerPhase::Stopped,
    {
        self.phase = ServerPhase::Stopped;
    }

    /// How many sessions are live right now.
    pub fn session_count(&self) -> (n: usize)
        ensures
            n == self.live_count(),
    {
        self.registry.len()
    }
}

} // verus!
