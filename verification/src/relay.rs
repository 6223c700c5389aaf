//! The relay engine: two independent directional copy loops over one
//! connection, coordinated by one-shot cancellation tokens and the shared
//! disconnect guard.
//!
//! The engine is a state machine per direction. The blocking reads and
//! writes happen outside the library; each I/O attempt's outcome is fed to
//! the direction's [`Worker`], which decides what happens next: forward the
//! chunk, half-close and stop the peer, record the terminal error, or keep
//! waiting. Timeouts double as the cancellation polling interval, so a
//! worker blocked in I/O observes a stop request within one timeout.

use vstd::prelude::*;
use crate::model::error::{Error, ErrorKind};
use crate::model::model::SocketAddr;
use crate::session::DisconnectGuard;

verus! {

/// Upper bound on the bytes moved per read, so that one relay holds at most
/// a small constant amount of buffered data.
pub const CHUNK_SIZE: usize = 4096;

/// Why a relay worker stopped.
#[derive(Debug)]
pub enum StopCause {
    /// The source reached end of stream; the write side was half-closed in
    /// an orderly way.
    Eof,
    /// A stop request was observed.
    Cancelled,
    /// An I/O failure other than clean end of stream.
    Failed(ErrorKind),
}

impl StopCause {
    /// Whether this cause carries a terminal error.
    pub open spec fn is_failure(&self) -> bool {
        self matches StopCause::Failed(_)
    }
}

impl Clone for StopCause {
    fn clone(&self) -> (r: StopCause)
        ensures
            r == *self,
    {
        match self {
            StopCause::Eof => StopCause::Eof,
            StopCause::Cancelled => StopCause::Cancelled,
            StopCause::Failed(kind) => StopCause::Failed(kind.clone()),
        }
    }
}

/// Whether a relay worker is still pumping bytes or has stopped, and why.
#[derive(Debug)]
pub enum WorkerStatus {
    Running,
    Done(StopCause),
}

/// A one-shot, idempotent stop signal for a single relay direction.
/// Requesting cancellation of an already-stopped worker is a no-op, never
/// an error.
#[derive(Clone, Copy, Debug, PartialEq, Eq, Structural)]
pub struct CancelToken {
    pub requested: bool,
}

impl CancelToken {
    /// A fresh token: no stop requested yet.
    pub fn new() -> (t: CancelToken)
        ensures
            !t.requested,
    {
        CancelToken { requested: false }
    }

    /// Requests a stop. Idempotent: requesting twice is the same as once.
    pub fn request(&mut self)
        ensures
            final(self).requested,
    {
        self.requested = true;
    }

    /// Whether a stop has been requested.
    pub fn is_requested(&self) -> (r: bool)
        ensures
            r == self.requested,
    {
        self.requested
    }
}

/// The outcome of one bounded read attempt on the source endpoint.
#[derive(Debug)]
pub enum ReadOutcome {
    /// Some bytes arrived.
    Data(Vec<u8>),
    /// Clean end of stream: the read returned zero bytes.
    Eof,
    /// The read timed out with nothing to deliver; not an error.
    TimedOut,
    /// The read failed.
    Failed(ErrorKind),
}

/// The outcome of writing one chunk to the sink endpoint.
#[derive(Debug)]
pub enum WriteOutcome {
    Written,
    Failed(ErrorKind),
}

/// What the caller driving a worker must do next.
#[derive(Debug)]
pub enum WorkerAction {
    /// Write these bytes to the sink, then report the write's outcome.
    Forward(Vec<u8>),
    /// Half-close the write side of the sink in an orderly way, then request
    /// the peer worker's cancellation; this worker is done.
    HalfCloseAndStopPeer,
    /// Request the peer worker's cancellation; this worker is done.
    StopPeer,
    /// Nothing to forward; poll the cancellation token and loop.
    Continue,
}

/// One direction of a relay: its status and, as a ghost transcript, the
/// bytes it has successfully forwarded so far.
pub struct Worker {
    pub status: WorkerStatus,
    pub forwarded: Ghost<Seq<u8>>,
}

impl Worker {
    /// Whether the worker's loop is still going.
    pub open spec fn is_running(&self) -> bool {
        self.status is Running
    }

    /// The bytes this worker has forwarded to its sink so far.
    pub open spec fn transcript(&self) -> Seq<u8> {
        self.forwarded@
    }

    /// A fresh worker: running, nothing forwarded yet.
    pub fn new() -> (w: Worker)
        ensures
            w.is_running(),
            w.transcript() == Seq::<u8>::empty(),
    {
        Worker { status: WorkerStatus::Running, forwarded: Ghost(Seq::empty()) }
    }

    /// Feeds the outcome of one read attempt to the worker.
    ///
    /// Data is passed through for forwarding, byte for byte. Clean end of
    /// stream stops the worker and asks for an orderly half-close plus the
    /// peer's cancellation. A timeout is no event at all: the worker stays
    /// running and the transcript is unchanged. A failure stops the worker,
    /// records the error, and asks for the peer's cancellation.
    pub fn on_read(&mut self, outcome: ReadOutcome) -> (action: WorkerAction)
        requires
            old(self).is_running(),
        ensures
            final(self).transcript() == old(self).transcript(),
            outcome matches ReadOutcome::Data(c) ==> {
                &&& final(self).is_running()
                &&& action == WorkerAction::Forward(c)
            },
            outcome is Eof ==> {
                &&& final(self).status == WorkerStatus::Done(StopCause::Eof)
                &&& action == WorkerAction::HalfCloseAndStopPeer
            },
            outcome is TimedOut ==> {
                &&& *final(self) == *old(self)
                &&& action == WorkerAction::Continue
            },
            outcome matches ReadOutcome::Failed(k) ==> {
                &&& final(self).status == WorkerStatus::Done(StopCause::Failed(k))
                &&& action == WorkerAction::StopPeer
            },
    {
        match outcome {
            ReadOutcome::Data(chunk) => WorkerAction::Forward(chunk),
            ReadOutcome::Eof => {
                self.status = WorkerStatus::Done(StopCause::Eof);
                WorkerAction::HalfCloseAndStopPeer
            },
            ReadOutcome::TimedOut => WorkerAction::Continue,
            ReadOutcome::Failed(kind) => {
                self.status = WorkerStatus::Done(StopCause::Failed(kind));
                WorkerAction::StopPeer
            },
        }
    }

    /// Feeds the outcome of writing `chunk` to the sink.
    ///
    /// On success the chunk joins the transcript unchanged and the worker
    /// keeps running; on failure the worker stops with that error and asks
    /// for the peer's cancellation, and the transcript is unchanged.
    pub fn on_write(&mut self, chunk: &Vec<u8>, outcome: WriteOutcome) -> (action: WorkerAction)
        requires
            old(self).is_running(),
        ensures
            outcome is Written ==> {
                &&& final(self).is_running()
                &&& final(self).transcript() == old(self).transcript() + chunk@
                &&& action == WorkerAction::Continue
            },
            outcome matches WriteOutcome::Failed(k) ==> {
                &&& final(self).status == WorkerStatus::Done(StopCause::Failed(k))
                &&& final(self).transcript() == old(self).transcript()
                &&& action == WorkerAction::StopPeer
            },
    {
        match outcome {
            WriteOutcome::Written => {
                self.forwarded = Ghost(self.forwarded@ + chunk@);
                WorkerAction::Continue
            },
            WriteOutcome::Failed(kind) => {
                self.status = WorkerStatus::Done(StopCause::Failed(kind));
                WorkerAction::StopPeer
            },
        }
    }

    /// One full turn of a relay worker's loop: the read's outcome, the
    /// write's outcome where bytes were read, then a poll of the
    /// cancellation token if the worker is still running.
    ///
    /// The contract carries two liveness rules of the engine. Bounded
    /// cancellation: whatever the I/O outcomes, a turn that finds the stop
    /// request set leaves the worker stopped — so a stop request is
    /// observed within one timeout-bounded I/O attempt. Idle is not dead:
    /// a turn whose read merely timed out, with no stop requested, leaves
    /// the worker exactly as it was, running; only end of stream, an I/O
    /// error or cancellation ever stops it.
    pub fn turn(&mut self, token: &CancelToken, outcome: ReadOutcome, written: WriteOutcome) -> (r:
        Option<StopCause>)
        requires
            old(self).is_running(),
        ensures
            token.requested ==> !final(self).is_running(),
            !token.requested && outcome is TimedOut ==> *final(self) == *old(self),
            r is None <==> final(self).is_running(),
            !token.requested && written is Written ==> (outcome matches ReadOutcome::Data(c) ==> (
            final(self).is_running() && final(self).transcript() == old(self).transcript() + c@)),
            !token.requested && outcome is Eof ==> final(self).status == WorkerStatus::Done(
                StopCause::Eof,
            ),
            final(self).status matches WorkerStatus::Done(c) ==> r == Some(c),
    {
        let action = self.on_read(outcome);
        if let WorkerAction::Forward(chunk) = action {
            self.on_write(&chunk, written);
        }
        match &self.status {
            WorkerStatus::Running => {
                self.observe_cancel(token);
            },
            _ => {},
        }
        match &self.status {
            WorkerStatus::Running => None,
            WorkerStatus::Done(cause) => Some(cause.clone()),
        }
    }

    /// Polls the direction's cancellation token.
    ///
    /// A requested stop is observed at once: the worker stops with
    /// [`StopCause::Cancelled`]. Without a request the worker is untouched.
    pub fn observe_cancel(&mut self, token: &CancelToken)
        requires
            old(self).is_running(),
        ensures
            token.requested ==> final(self).status == WorkerStatus::Done(StopCause::Cancelled),
            !token.requested ==> *final(self) == *old(self),
            final(self).transcript() == old(self).transcript(),
    {
        if token.requested {
            self.status = WorkerStatus::Done(StopCause::Cancelled);
        }
    }
}

/// A running relay: one worker per direction, both endpoint addresses, and
/// the session's disconnect guard with one reference per worker.
pub struct RelayHandle {
    /// the client's address
    pub client_addr: SocketAddr,
    /// the proxy-side address the upstream connection is bound to
    pub proxy_addr: SocketAddr,
    /// the client-to-destination worker
    pub up: Worker,
    /// the destination-to-client worker
    pub down: Worker,
    /// the shared disconnect notifier; fires when the last worker releases it
    pub guard: DisconnectGuard,
}

/// Sets a relay going once both endpoints exist: two fresh running workers,
/// and a second guard reference so that each direction owns one.
pub fn spawn_relay(client_addr: SocketAddr, proxy_addr: SocketAddr, guard: DisconnectGuard) -> (h:
    RelayHandle)
    requires
        guard.wf(),
        guard.refs == 1,
    ensures
        h.client_addr == client_addr,
        h.proxy_addr == proxy_addr,
        h.guard.id == guard.id,
        h.guard.refs == 2,
        !h.guard.fired,
        h.guard.wf(),
        h.up.is_running(),
        h.down.is_running(),
        h.up.transcript() == Seq::<u8>::empty(),
        h.down.transcript() == Seq::<u8>::empty(),
{
    let mut guard = guard;
    guard.retain();
    RelayHandle {
        client_addr,
        proxy_addr,
        up: Worker::new(),
        down: Worker::new(),
        guard,
    }
}

/// The relay's joined result once both workers have stopped: the first
/// failure encountered, checking the client-to-destination direction first,
/// or success when both directions ended cleanly or by cancellation.
pub fn join_result(up: StopCause, down: StopCause) -> (r: Result<(), Error>)
    ensures
        r is Ok <==> !up.is_failure() && !down.is_failure(),
        up matches StopCause::Failed(k) ==> r matches Err(e) && e.kind == k,
        !up.is_failure() ==> (down matches StopCause::Failed(k) ==> (r matches Err(e) && e.kind
            == k)),
{
    match up {
        StopCause::Failed(kind) => Err(Error::new(kind)),
        _ => match down {
            StopCause::Failed(kind) => Err(Error::new(kind)),
            _ => Ok(()),
        },
    }
}

/// Byte transparency, run to completion in memory: a worker fed the whole
/// of `src` in bounded chunks, every write succeeding, forwards exactly the
/// bytes of `src`, unmodified and in order, and then stops on the clean end
/// of stream. The returned sink holds precisely the source bytes.
pub fn relay_all(src: &Vec<u8>, chunk_size: usize) -> (dst: Vec<u8>)
    requires
        1 <= chunk_size,
    ensures
        dst@ == src@,
{
    let token = CancelToken::new();
    let mut worker = Worker::new();
    let mut dst: Vec<u8> = Vec::new();
    let mut i: usize = 0;
    while i < src.len()
        invariant
            i <= src.len(),
            1 <= chunk_size,
            worker.is_running(),
            !token.requested,
            worker.transcript() == dst@,
            dst@ == src@.subrange(0, i as int),
        decreases src.len() - i,
    {
        let end = if src.len() - i < chunk_size {
            src.len()
        } else {
            i + chunk_size
        };
        let mut chunk: Vec<u8> = Vec::new();
        let mut j: usize = i;
        while j < end
            invariant
                i <= j <= end <= src.len(),
                chunk@ == src@.subrange(i as int, j as int),
            decreases end - j,
        {
            chunk.push(src[j]);
            assert(chunk@ =~= src@.subrange(i as int, j + 1));
            j = j + 1;
        }
        let mut k: usize = 0;
        while k < chunk.len()
            invariant
                k <= chunk.len(),
                dst@ == src@.subrange(0, i as int) + chunk@.subrange(0, k as int),
            decreases chunk.len() - k,
        {
            dst.push(chunk[k]);
            assert(dst@ =~= src@.subrange(0, i as int) + chunk@.subrange(0, k + 1));
            k = k + 1;
        }
        assert(chunk@.subrange(0, chunk@.len() as int) =~= chunk@);
        worker.turn(&token, ReadOutcome::Data(chunk), WriteOutcome::Written);
        assert(dst@ =~= src@.subrange(0, end as int));
        i = end;
    }
    assert(src@.subrange(0, src@.len() as int) =~= src@);
    worker.turn(&token, ReadOutcome::Eof, WriteOutcome::Written);
    dst
}

} // verus!
