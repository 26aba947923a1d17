//! The adapter that drives a session from a cooperative scheduler.
//!
//! A single-threaded scheduler must never block, so the blocking dual wait of
//! the receive path is offloaded by the host onto a worker thread.  This
//! module holds everything the scheduler decides: the read-path state machine
//! (`Idle`, `Waiting`, `Closed`), what each poll does, and how a finished
//! wait is folded back in.  The host performs the wait itself and the
//! scheduler plumbing, and feeds outcomes back as [`WaitingStopReason`]
//! values.
use vstd::prelude::*;

use crate::error::Error;
use crate::session::{
    apply_op, try_receive_spec, shutdown_spec, Session, SessionOp, SessionView,
};

verus! {

/// Why an offloaded dual wait (data ready, shutdown) stopped.
#[derive(Clone, Copy, Debug, PartialEq, Eq, Structural)]
pub enum WaitingStopReason {
    /// The shutdown signal fired; the read path closes.
    Shutdown,
    /// The data-ready signal fired; the read path polls again.
    Ready,
}

/// Where the read path stands between polls.
#[derive(Clone, Copy, Debug, PartialEq, Eq, Structural)]
pub enum ReadState {
    /// Ready to poll the queue on the next read.
    Idle,
    /// An offloaded wait is in flight; reads stay pending until it finishes.
    Waiting,
    /// Shutdown was observed: every further read reports end of stream.
    Closed,
}

/// What one read poll decided.
pub enum ReadPoll {
    /// This many bytes were copied into the caller's buffer; zero means the
    /// stream has ended after shutdown.
    Ready(usize),
    /// Nothing was queued: the host must run (or keep running) the offloaded
    /// dual wait and report its outcome through `wait_finished`.
    MustWait,
    /// The read failed; the caller's buffer was too small for the datagram.
    Failed(Error),
}

/// The mathematical content of an async session.
#[verifier::ext_equal]
pub struct AsyncSessionView {
    pub session: SessionView,
    pub read_state: ReadState,
}

/// One read-path operation, for stating laws over whole histories.
pub enum ReadOp {
    /// One poll of the read path.
    PollRead,
    /// The host reports that the offloaded wait finished.
    WaitFinished(WaitingStopReason),
    /// One call of the buffered receive.
    Recv,
}

/// What one read-path operation does to the state.
pub open spec fn apply_read_op(v: AsyncSessionView, op: ReadOp) -> AsyncSessionView {
    match op {
        ReadOp::PollRead => match v.read_state {
            ReadState::Idle => if v.session.recv_queue.len() > 0 {
                AsyncSessionView { session: try_receive_spec(v.session), ..v }
            } else {
                AsyncSessionView { read_state: ReadState::Waiting, ..v }
            },
            ReadState::Waiting => v,
            ReadState::Closed => v,
        },
        ReadOp::WaitFinished(reason) => if v.read_state is Waiting {
            match reason {
                WaitingStopReason::Ready => AsyncSessionView { read_state: ReadState::Idle, ..v },
                WaitingStopReason::Shutdown => AsyncSessionView {
                    read_state: ReadState::Closed,
                    ..v
                },
            }
        } else {
            v
        },
        ReadOp::Recv => match v.read_state {
            ReadState::Closed => v,
            _ => if v.session.recv_queue.len() > 0 {
                AsyncSessionView { session: try_receive_spec(v.session), ..v }
            } else if v.session.shutdown {
                AsyncSessionView { read_state: ReadState::Closed, ..v }
            } else {
                v
            },
        },
    }
}

/// A whole history of read-path operations, oldest first.
pub open spec fn apply_read_ops(v: AsyncSessionView, ops: Seq<ReadOp>) -> AsyncSessionView
    decreases ops.len(),
{
    if ops.len() == 0 {
        v
    } else {
        apply_read_ops(apply_read_op(v, ops[0]), ops.drop_first())
    }
}

/// Law: once the read path has observed shutdown and closed, it stays closed
/// through every further read operation, so every subsequent read reports
/// end of stream (zero bytes) rather than an error.
pub proof fn lemma_closed_is_forever(v: AsyncSessionView, ops: Seq<ReadOp>)
    requires
        v.read_state is Closed,
    ensures
        apply_read_ops(v, ops).read_state is Closed,
        apply_read_ops(v, ops).session == v.session,
    decreases ops.len(),
{
    if ops.len() > 0 {
        let v1 = apply_read_op(v, ops[0]);
        assert(v1.read_state is Closed);
        lemma_closed_is_forever(v1, ops.drop_first());
    }
}

/// A session wrapped for a cooperative scheduler: the session itself plus
/// the read path's state.
pub struct AsyncSession {
    session: Session,
    read_state: ReadState,
}

impl View for AsyncSession {
    type V = AsyncSessionView;

    closed spec fn view(&self) -> AsyncSessionView {
        AsyncSessionView { session: self.session@, read_state: self.read_state }
    }
}

impl From<Session> for AsyncSession {
    /// Wraps a session; the read path starts out idle.
    fn from(session: Session) -> (r: AsyncSession) {
        AsyncSession { session, read_state: ReadState::Idle }
    }
}

impl vstd::std_specs::convert::FromSpecImpl<Session> for AsyncSession {
    open spec fn obeys_from_spec() -> bool {
        true
    }

    closed spec fn from_spec(session: Session) -> Self {
        AsyncSession { session, read_state: ReadState::Idle }
    }
}

/// What wrapping a session gives: the same session, an idle read path.
pub proof fn lemma_from_session(session: Session)
    ensures
        <AsyncSession as vstd::std_specs::convert::FromSpec<Session>>::from_spec(session)@
            == (AsyncSessionView { session: session@, read_state: ReadState::Idle }),
{
}

impl AsyncSession {
    /// The read path's current state.
    pub fn read_state(&self) -> (s: ReadState)
        ensures
            s == self@.read_state,
    {
        self.read_state
    }

    /// Whether the wrapped session's shutdown signal has been raised.
    pub fn is_shutdown(&self) -> (b: bool)
        ensures
            b == self@.session.shutdown,
    {
        self.session.is_shutdown()
    }

    /// The wrapped session, read-only.
    pub fn session(&self) -> (s: &Session)
        ensures
            s@ == self@.session,
    {
        &self.session
    }

    /// The host boundary for arrivals, passed through to the session.
    pub fn deliver_incoming(&mut self, bytes: Vec<u8>)
        requires
            old(self)@.session.wf(),
            bytes@.len() <= u16::MAX,
        ensures
            final(self)@.session.wf(),
            final(self)@.read_state == old(self)@.read_state,
            final(self)@.session == apply_op(
                old(self)@.session,
                SessionOp::DeliverIncoming(bytes@),
            ),
            final(self)@.session.recv_queue == old(self)@.session.recv_queue.push(bytes@),
    {
        self.session.deliver_incoming(bytes)
    }

    /// One poll of the read path, as a scheduler drives it.
    ///
    /// Idle with a datagram queued: the datagram is copied into the front of
    /// `buf` and its length returned, or the read fails with `SizeMismatch`
    /// when `buf` is smaller than the datagram (which is consumed either
    /// way).  Idle with nothing queued: the state moves to `Waiting` and the
    /// host must run the offloaded dual wait.  Waiting: still pending.
    /// Closed: end of stream, zero bytes, forever.
    pub fn poll_read(&mut self, buf: &mut Vec<u8>) -> (r: ReadPoll)
        requires
            old(self)@.session.wf(),
        ensures
            final(self)@.session.wf(),
            final(self)@ == apply_read_op(old(self)@, ReadOp::PollRead),
            old(self)@.read_state is Closed ==> (r matches ReadPoll::Ready(n) && n == 0) && final(buf)@ == old(buf)@,
            old(self)@.read_state is Waiting ==> (r is MustWait) && final(buf)@ == old(buf)@,
            old(self)@.read_state is Idle && old(self)@.session.recv_queue.len() == 0 ==> (r
                is MustWait) && final(buf)@ == old(buf)@ && final(self)@.read_state is Waiting,
            old(self)@.read_state is Idle && old(self)@.session.recv_queue.len() > 0 && old(self)@.session.recv_queue.first().len() <= old(buf)@.len() ==> (r matches ReadPoll::Ready(n)
                && n == old(self)@.session.recv_queue.first().len() && final(buf)@ == old(self)@.session.recv_queue.first() + old(buf)@.skip(
                old(self)@.session.recv_queue.first().len() as int,
            )),
            old(self)@.read_state is Idle && old(self)@.session.recv_queue.len() > 0 && old(self)@.session.recv_queue.first().len() > old(buf)@.len() ==> (r matches ReadPoll::Failed(e)
                && e == (Error::SizeMismatch {
                packet: old(self)@.session.recv_queue.first().len() as usize,
                buffer: old(buf)@.len() as usize,
            }) && final(buf)@ == old(buf)@),
    {
        match self.read_state {
            ReadState::Closed => ReadPoll::Ready(0),
            ReadState::Waiting => ReadPoll::MustWait,
            ReadState::Idle => {
                match self.session.try_recv(buf) {
                    Ok(Some(n)) => ReadPoll::Ready(n),
                    Ok(None) => {
                        self.read_state = ReadState::Waiting;
                        ReadPoll::MustWait
                    },
                    Err(e) => ReadPoll::Failed(e),
                }
            },
        }
    }

    /// Folds the outcome of the offloaded dual wait back into the read path:
    /// data ready means poll again, shutdown closes the stream for good.
    pub fn wait_finished(&mut self, reason: WaitingStopReason)
        requires
            old(self)@.session.wf(),
            old(self)@.read_state is Waiting,
        ensures
            final(self)@.session == old(self)@.session,
            final(self)@ == apply_read_op(old(self)@, ReadOp::WaitFinished(reason)),
            reason is Ready ==> final(self)@.read_state is Idle,
            reason is Shutdown ==> final(self)@.read_state is Closed,
    {
        match reason {
            WaitingStopReason::Ready => {
                self.read_state = ReadState::Idle;
            },
            WaitingStopReason::Shutdown => {
                self.read_state = ReadState::Closed;
            },
        }
    }

    /// The buffered receive a cooperative caller awaits.  In this
    /// state-machine form, the suspension on the dual wait is the host's (a
    /// caller that would block is not modelled here, exactly as in
    /// `Session::receive_blocking`), so a call finds either a queued
    /// datagram, a closed stream, or the shutdown signal.  Shutdown is
    /// delivered as end of stream — zero bytes, and the read path closes —
    /// not as an error, so a cooperative consumer needs no special case.
    pub fn recv(&mut self, buf: &mut Vec<u8>) -> (r: Result<usize, Error>)
        requires
            old(self)@.session.wf(),
            old(self)@.read_state is Closed || old(self)@.session.recv_queue.len() > 0 || old(self)@.session.shutdown,
        ensures
            final(self)@.session.wf(),
            final(self)@ == apply_read_op(old(self)@, ReadOp::Recv),
            old(self)@.read_state is Closed ==> (r matches Ok(n) && n == 0) && final(buf)@ == old(buf)@,
            !(old(self)@.read_state is Closed) && old(self)@.session.recv_queue.len() == 0 ==> (r
                matches Ok(n) && n == 0) && final(self)@.read_state is Closed && final(buf)@ == old(buf)@,
            !(old(self)@.read_state is Closed) && old(self)@.session.recv_queue.len() > 0 && old(self)@.session.recv_queue.first().len() <= old(buf)@.len() ==> (r matches Ok(n) && n == old(self)@.session.recv_queue.first().len() && final(buf)@ == old(self)@.session.recv_queue.first() + old(buf)@.skip(
                old(self)@.session.recv_queue.first().len() as int,
            )),
            !(old(self)@.read_state is Closed) && old(self)@.session.recv_queue.len() > 0 && old(self)@.session.recv_queue.first().len() > old(buf)@.len() ==> (r matches Err(e) && e
                == (Error::SizeMismatch {
                packet: old(self)@.session.recv_queue.first().len() as usize,
                buffer: old(buf)@.len() as usize,
            }) && final(buf)@ == old(buf)@),
    {
        match self.read_state {
            ReadState::Closed => Ok(0),
            _ => {
                match self.session.try_recv(buf) {
                    Ok(Some(n)) => Ok(n),
                    Err(e) => Err(e),
                    Ok(None) => {
                        // Nothing left to drain and the wait can only end
                        // with shutdown: the stream ends here.
                        self.read_state = ReadState::Closed;
                        Ok(0)
                    },
                }
            },
        }
    }

    /// The synchronous write path: reserves room, copies `buf` in and
    /// submits it within one suspension point, with no internal buffering.
    /// A write the ring has no room for — in particular one larger than the
    /// whole capacity — fails with `DriverOutOfResources`.
    pub fn send(&mut self, buf: &Vec<u8>) -> (r: Result<usize, Error>)
        requires
            old(self)@.session.wf(),
        ensures
            final(self)@.session.wf(),
            final(self)@.read_state == old(self)@.read_state,
            r is Ok <==> old(self)@.session.reserved + buf@.len() <= old(self)@.session.capacity,
            r matches Ok(n) ==> n == buf@.len() && final(self)@.session == (SessionView {
                delivered: old(self)@.session.delivered.push(buf@),
                ..old(self)@.session
            }),
            r is Err ==> (r matches Err(e) && e is DriverOutOfResources) && final(self)@ == old(self)@,
    {
        self.session.send(buf)
    }

    /// Closes the adapter voluntarily: raises the session's sticky shutdown
    /// signal, converging with the read path's `Closed` transition the next
    /// time a wait finishes.
    pub fn close(&mut self) -> (r: Result<(), Error>)
        requires
            old(self)@.session.wf(),
        ensures
            final(self)@.session.wf(),
            final(self)@.session == shutdown_spec(old(self)@.session),
            final(self)@.session == apply_op(old(self)@.session, SessionOp::Shutdown),
            final(self)@.read_state == old(self)@.read_state,
            r is Ok,
    {
        self.session.shutdown()
    }
}

} // verus!
