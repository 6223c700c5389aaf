//! Per-connection sessions: identity, the exactly-once disconnect guard,
//! and the handshake-then-handoff step that starts a relay.

use vstd::prelude::*;
use crate::model::error::Error;
use crate::model::model::{Address, SocketAddr};
use crate::relay::{spawn_relay, CancelToken, RelayHandle};

verus! {

/// Unique handle for one accepted connection. Assigned once by the server
/// at accept time and never reused within a process lifetime.
#[derive(Clone, Copy, Debug, PartialEq, Eq, PartialOrd, Ord, Hash, Structural)]
pub struct SessionId(pub u32);

impl From<u32> for SessionId {
    fn from(id: u32) -> (r: SessionId) {
        SessionId(id)
    }
}

impl vstd::std_specs::convert::FromSpecImpl<u32> for SessionId {
    open spec fn obeys_from_spec() -> bool {
        true
    }

    open spec fn from_spec(id: u32) -> SessionId {
        SessionId(id)
    }
}

/// The shared notifier that tells the server a session ended, exactly once.
///
/// Two strong references exist while a relay runs, one per direction; the
/// notification fires only when the last reference is released. Instead of
/// leaning on scope-exit ordering, the count and the fired flag are explicit
/// data, and [`DisconnectGuard::release`] says exactly when the one
/// notification happens.
#[derive(Clone, Copy, Debug)]
pub struct DisconnectGuard {
    pub id: SessionId,
    /// How many owners still hold the guard.
    pub refs: u32,
    /// Whether the disconnect notification has been produced.
    pub fired: bool,
}

impl DisconnectGuard {
    /// The guard's invariant: the notification has fired exactly when no
    /// owner is left.
    pub open spec fn wf(&self) -> bool {
        self.fired <==> self.refs == 0
    }

    /// A release fires the notification exactly when it is the last one.
    pub open spec fn release_fires(&self) -> bool {
        self.refs == 1
    }

    /// The guard after one release.
    pub open spec fn spec_release(&self) -> DisconnectGuard {
        DisconnectGuard {
            id: self.id,
            refs: (self.refs - 1) as u32,
            fired: self.refs == 1,
        }
    }

    /// How many of the next `n` releases fire the notification.
    pub open spec fn fires_within(&self, n: nat) -> nat
        decreases n,
    {
        if n == 0 {
            0
        } else {
            (if self.release_fires() {
                1nat
            } else {
                0nat
            }) + self.spec_release().fires_within((n - 1) as nat)
        }
    }

    /// A fresh guard for one session, held by its single creator.
    pub fn new(id: SessionId) -> (g: DisconnectGuard)
        ensures
            g.id == id,
            g.refs == 1,
            !g.fired,
            g.wf(),
    {
        DisconnectGuard { id, refs: 1, fired: false }
    }

    /// Hands a further owner a reference to the guard.
    pub fn retain(&mut self)
        requires
            old(self).wf(),
            1 <= old(self).refs < u32::MAX,
        ensures
            final(self).id == old(self).id,
            final(self).refs == old(self).refs + 1,
            !final(self).fired,
            final(self).wf(),
    {
        self.refs = self.refs + 1;
    }

    /// Releases one reference. Returns whether the caller must produce the
    /// disconnect notification now: true exactly for the last release.
    pub fn release(&mut self) -> (fire: bool)
        requires
            old(self).wf(),
            old(self).refs >= 1,
        ensures
            *final(self) == old(self).spec_release(),
            fire == old(self).release_fires(),
            final(self).wf(),
    {
        self.refs = self.refs - 1;
        if self.refs == 0 {
            self.fired = true;
            true
        } else {
            false
        }
    }
}

/// Exactly-once disconnect: however a session ends, once every owner of its
/// guard has released its reference, the disconnect notification has been
/// produced exactly once — whether the session failed before the relay
/// started (one owner) or both relay directions ran (two owners), and
/// whichever direction finished last.
pub proof fn lemma_disconnect_fires_exactly_once(g: DisconnectGuard)
    requires
        g.wf(),
        g.refs >= 1,
    ensures
        g.fires_within(g.refs as nat) == 1,
    decreases g.refs,
{
    if g.refs == 1 {
        assert(g.fires_within(1) == 1 + g.spec_release().fires_within(0));
    } else {
        lemma_disconnect_fires_exactly_once(g.spec_release());
        assert(g.fires_within(g.refs as nat) == g.spec_release().fires_within(
            (g.refs - 1) as nat,
        ));
    }
}

/// The server's bookkeeping record for one spawned session: the client's
/// address and the stop signals of the session's two relay directions.
#[derive(Debug)]
pub struct SessionHandle {
    /// client address
    pub addr: SocketAddr,
    /// stop signal of the client-to-destination direction
    pub cancel_up: CancelToken,
    /// stop signal of the destination-to-client direction
    pub cancel_down: CancelToken,
}

impl SessionHandle {
    /// The client address this handle was recorded with.
    pub open spec fn spec_client_addr(&self) -> SocketAddr {
        self.addr
    }

    /// Whether both directions have been asked to stop.
    pub open spec fn stop_requested(&self) -> bool {
        self.cancel_up.requested && self.cancel_down.requested
    }

    /// Records a freshly spawned session.
    pub fn new(addr: SocketAddr, cancel_up: CancelToken, cancel_down: CancelToken) -> (h:
        SessionHandle)
        ensures
            h.spec_client_addr() == addr,
            h.cancel_up == cancel_up,
            h.cancel_down == cancel_down,
    {
        SessionHandle { addr, cancel_up, cancel_down }
    }

    /// Returns the client's address.
    pub fn client_addr(&self) -> (a: SocketAddr)
        ensures
            a == self.spec_client_addr(),
    {
        self.addr
    }

    /// Requests that both relay directions stop. Idempotent, and a no-op on
    /// a session whose workers already stopped.
    pub fn stop(&mut self)
        ensures
            final(self).spec_client_addr() == old(self).spec_client_addr(),
            final(self).stop_requested(),
    {
        self.cancel_up.request();
        self.cancel_down.request();
    }
}

/// One accepted connection's relay context: its identity, where it listens
/// and where it must be relayed to, and its disconnect guard.
#[derive(Debug)]
pub struct Session {
    pub id: SessionId,
    pub server_addr: SocketAddr,
    pub dst_addr: Address,
    /// The disconnect notifier; shared by both relay directions once the
    /// relay starts.
    pub guard: DisconnectGuard,
}

/// What becomes of a session once the connector's outcome is known.
pub enum StartResult {
    /// The relay is running: two workers, each owning one guard reference.
    Launched(RelayHandle),
    /// The connector failed. No relay worker was ever spawned; the session's
    /// only guard reference was released, so the disconnect notification for
    /// `notify` must be produced now, and never again.
    Failed { err: Error, notify: SessionId },
}

impl Session {
    /// A fresh session, holding the one and only reference to its guard.
    pub fn new(id: SessionId, server_addr: SocketAddr, dst_addr: Address) -> (s: Session)
        ensures
            s.id == id,
            s.server_addr == server_addr,
            s.dst_addr == dst_addr,
            s.guard == (DisconnectGuard { id, refs: 1, fired: false }),
    {
        Session { id, server_addr, dst_addr, guard: DisconnectGuard::new(id) }
    }

    /// Consumes the session once the connector's attempt at the destination
    /// has an outcome.
    ///
    /// On success the relay is handed both endpoints' addresses and the
    /// guard, now with one reference per direction, and fresh running
    /// workers. On failure the connector's error is returned as is — no
    /// retry, no relay worker — and the guard has fired: the caller must
    /// send the one disconnect notification for this session.
    pub fn start(self, src_addr: SocketAddr, connected: Result<SocketAddr, Error>) -> (r:
        StartResult)
        requires
            self.guard.wf(),
            self.guard.refs == 1,
        ensures
            connected matches Ok(proxy_addr) ==> (r matches StartResult::Launched(h) && (
            h.client_addr == src_addr && h.proxy_addr == proxy_addr && h.guard.id == self.guard.id
                && h.guard.refs == 2 && !h.guard.fired && h.guard.wf() && h.up.is_running()
                && h.down.is_running() && h.up.transcript() == Seq::<u8>::empty()
                && h.down.transcript() == Seq::<u8>::empty())),
            connected matches Err(e) ==> (r matches StartResult::Failed { err, notify } && (err
                == e && notify == self.id)),
    {
        let Session { id, server_addr: _, dst_addr: _, mut guard } = self;
        match connected {
            Ok(proxy_addr) => StartResult::Launched(spawn_relay(src_addr, proxy_addr, guard)),
            Err(err) => {
                guard.release();
                StartResult::Failed { err, notify: id }
            },
        }
    }
}

} // verus!
