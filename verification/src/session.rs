//! The session: the synchronization nucleus of the layer.
//!
//! A session owns a ring sized to a validated capacity, hands out send
//! packets in allocation order, submits them in call order, queues received
//! datagrams, and carries a sticky shutdown signal.  The state is plain data;
//! the host layer performs the actual blocking waits and reports their
//! outcomes back as [`WaitOutcome`] values, so every decision the session
//! makes is a verified function here.
use vstd::prelude::*;

use crate::adapter::{Adapter, AdapterView};
use crate::error::Error;
use crate::handle::UnsafeHandle;
use crate::packet::{Packet, PacketKind};

verus! {

/// How many times a blocking receive polls the queue before it is willing to
/// fall back to a host wait, amortizing the wait's cost under bursty traffic.
pub const RECEIVE_POLL_ATTEMPTS: usize = 5;

/// The mathematical content of a session.
#[verifier::ext_equal]
pub struct SessionView {
    /// Ring capacity in bytes, fixed at start.
    pub capacity: u32,
    /// Received datagrams not yet handed to a caller; index 0 is the oldest.
    pub recv_queue: Seq<Seq<u8>>,
    /// Bytes of ring space reserved by allocated, not-yet-submitted packets.
    pub reserved: u64,
    /// Submitted datagrams, in submission order.
    pub delivered: Seq<Seq<u8>>,
    /// The sticky shutdown signal: once true, never false again.
    pub shutdown: bool,
    /// The "data ready" notification handle, once the host has resolved it;
    /// resolved at most once and cached for every later wait.
    pub read_event: Option<u64>,
    /// The adapter this session was started on.
    pub adapter: AdapterView,
}

impl SessionView {
    /// Validity of a session: its capacity was accepted at start, reserved
    /// space never exceeds the ring, and every queued datagram fits a packet.
    pub open spec fn wf(self) -> bool {
        &&& crate::adapter::valid_capacity(self.capacity)
        &&& self.reserved <= self.capacity
        &&& forall|i: int|
            0 <= i < self.recv_queue.len() ==> (#[trigger] self.recv_queue[i]).len() <= u16::MAX
    }
}

/// One session operation, for stating laws over whole histories.
pub enum SessionOp {
    /// Reserve `size` bytes of ring space for a send packet.
    AllocateSend(u16),
    /// Submit an allocated packet holding these bytes.
    SubmitSend(Seq<u8>),
    /// Take the oldest queued datagram, if any.
    TryReceive,
    /// The driver queues an arrived datagram.
    DeliverIncoming(Seq<u8>),
    /// Raise the sticky shutdown signal.
    Shutdown,
    /// Resolve the data-ready notification handle (cached after the first
    /// time).
    ResolveReadEvent(u64),
}

/// Whether an allocation of `size` bytes fits the ring right now.
pub open spec fn allocate_fits(s: SessionView, size: u16) -> bool {
    s.reserved + size <= s.capacity
}

/// What a successful allocation does to the session: it only reserves space.
pub open spec fn allocate_send_spec(s: SessionView, size: u16) -> SessionView {
    SessionView { reserved: (s.reserved + size) as u64, ..s }
}

/// What a submission does: the bytes join the wire in submission order and
/// their reservation is given back.
pub open spec fn submit_send_spec(s: SessionView, bytes: Seq<u8>) -> SessionView {
    SessionView {
        reserved: (s.reserved - bytes.len()) as u64,
        delivered: s.delivered.push(bytes),
        ..s
    }
}

/// What taking the oldest queued datagram does.
pub open spec fn try_receive_spec(s: SessionView) -> SessionView {
    SessionView { recv_queue: s.recv_queue.drop_first(), ..s }
}

/// What an arriving datagram does.
pub open spec fn deliver_incoming_spec(s: SessionView, bytes: Seq<u8>) -> SessionView {
    SessionView { recv_queue: s.recv_queue.push(bytes), ..s }
}

/// What raising the shutdown signal does: nothing but set it, idempotently.
pub open spec fn shutdown_spec(s: SessionView) -> SessionView {
    SessionView { shutdown: true, ..s }
}

/// What resolving the data-ready handle does: the first resolution is
/// cached, every later one is ignored.
pub open spec fn resolve_read_event_spec(s: SessionView, handle: u64) -> SessionView {
    if s.read_event is Some {
        s
    } else {
        SessionView { read_event: Some(handle), ..s }
    }
}

/// One step of session history.  An operation whose precondition does not
/// hold (an allocation that does not fit, a submission without reservation, a
/// receive from an empty queue) leaves the state unchanged, which is exactly
/// what the corresponding calls ensure on their failure paths.
pub open spec fn apply_op(s: SessionView, op: SessionOp) -> SessionView {
    match op {
        SessionOp::AllocateSend(size) => if allocate_fits(s, size) {
            allocate_send_spec(s, size)
        } else {
            s
        },
        SessionOp::SubmitSend(bytes) => if bytes.len() <= s.reserved {
            submit_send_spec(s, bytes)
        } else {
            s
        },
        SessionOp::TryReceive => if s.recv_queue.len() > 0 {
            try_receive_spec(s)
        } else {
            s
        },
        SessionOp::DeliverIncoming(bytes) => deliver_incoming_spec(s, bytes),
        SessionOp::Shutdown => shutdown_spec(s),
        SessionOp::ResolveReadEvent(handle) => resolve_read_event_spec(s, handle),
    }
}

/// A whole history of session operations, oldest first.
pub open spec fn apply_ops(s: SessionView, ops: Seq<SessionOp>) -> SessionView
    decreases ops.len(),
{
    if ops.len() == 0 {
        s
    } else {
        apply_ops(apply_op(s, ops[0]), ops.drop_first())
    }
}

/// Law: the shutdown signal is sticky.  Once raised, no session operation —
/// an allocation, a submission, a receive, an arrival, or another shutdown —
/// ever clears it, so every past, present and future waiter observes it.
pub proof fn lemma_shutdown_is_sticky(s: SessionView, ops: Seq<SessionOp>)
    requires
        s.shutdown,
    ensures
        apply_ops(s, ops).shutdown,
    decreases ops.len(),
{
    if ops.len() > 0 {
        let s1 = apply_op(s, ops[0]);
        assert(s1.shutdown);
        lemma_shutdown_is_sticky(s1, ops.drop_first());
    }
}

/// Law: raising the shutdown signal is idempotent — a second call changes
/// nothing at all.
pub proof fn lemma_shutdown_idempotent(s: SessionView)
    ensures
        apply_op(apply_op(s, SessionOp::Shutdown), SessionOp::Shutdown) == apply_op(
            s,
            SessionOp::Shutdown,
        ),
{
    assert(apply_op(apply_op(s, SessionOp::Shutdown), SessionOp::Shutdown) =~= apply_op(
        s,
        SessionOp::Shutdown,
    ));
}

/// Law: one shutdown call releases every blocked receiver, however many
/// there are and whatever else happens afterwards.  After `shutdown`, any
/// history of further operations still shows the signal raised; a blocking
/// receive that then finds its queue empty returns `Cancelled` instead of
/// waiting (the contract of `receive_blocking`), and one that still finds
/// queued datagrams drains them without ever blocking again.
pub proof fn lemma_shutdown_releases_every_waiter(s: SessionView, ops: Seq<SessionOp>)
    ensures
        apply_ops(apply_op(s, SessionOp::Shutdown), ops).shutdown,
{
    lemma_shutdown_is_sticky(apply_op(s, SessionOp::Shutdown), ops);
}

/// Law: the wire carries datagrams in submission order, not allocation
/// order.  Two packets allocated first-then-second but submitted in the
/// opposite order reach the wire in the opposite order: allocation only
/// reserves space and never touches the wire; each submission appends.
pub proof fn lemma_delivery_follows_submission_order(
    s: SessionView,
    size_a: u16,
    size_b: u16,
    bytes_a: Seq<u8>,
    bytes_b: Seq<u8>,
)
    requires
        s.reserved + size_a + size_b <= s.capacity,
        bytes_a.len() == size_a,
        bytes_b.len() == size_b,
    ensures
        apply_ops(
            s,
            seq![
                SessionOp::AllocateSend(size_a),
                SessionOp::AllocateSend(size_b),
                SessionOp::SubmitSend(bytes_b),
                SessionOp::SubmitSend(bytes_a),
            ],
        ).delivered == s.delivered.push(bytes_b).push(bytes_a),
{
    let ops = seq![
        SessionOp::AllocateSend(size_a),
        SessionOp::AllocateSend(size_b),
        SessionOp::SubmitSend(bytes_b),
        SessionOp::SubmitSend(bytes_a),
    ];
    let s1 = apply_op(s, ops[0]);
    let s2 = apply_op(s1, ops[1]);
    let s3 = apply_op(s2, ops[2]);
    let s4 = apply_op(s3, ops[3]);
    assert(allocate_fits(s, size_a));
    assert(allocate_fits(s1, size_b));
    assert(bytes_b.len() <= s2.reserved);
    assert(bytes_a.len() <= s3.reserved);
    assert(s4.delivered =~= s.delivered.push(bytes_b).push(bytes_a));
    let t1 = ops.drop_first();
    let t2 = t1.drop_first();
    let t3 = t2.drop_first();
    let t4 = t3.drop_first();
    assert(t1[0] == ops[1] && t2[0] == ops[2] && t3[0] == ops[3] && t4.len() == 0);
    assert(apply_ops(s, ops) == apply_ops(s1, t1));
    assert(apply_ops(s1, t1) == apply_ops(s2, t2));
    assert(apply_ops(s2, t2) == apply_ops(s3, t3));
    assert(apply_ops(s3, t3) == apply_ops(s4, t4));
    assert(apply_ops(s4, t4) == s4);
}

/// Law: content round trip.  A datagram submitted by one session and carried
/// by the host to a peer session arrives byte for byte: the wire's newest
/// entry is exactly the submitted bytes, and the peer's next receive takes
/// exactly what arrived (`try_receive` then hands out `recv_queue.first()`
/// unchanged, by its own contract).
pub proof fn lemma_content_round_trip(sender: SessionView, receiver: SessionView, data: Seq<u8>)
    requires
        0 < data.len() <= u16::MAX,
        sender.reserved + data.len() <= sender.capacity,
        receiver.recv_queue.len() == 0,
    ensures
        ({
            let sent = apply_ops(
                sender,
                seq![SessionOp::AllocateSend(data.len() as u16), SessionOp::SubmitSend(data)],
            );
            let arrived = apply_op(receiver, SessionOp::DeliverIncoming(sent.delivered.last()));
            &&& sent.delivered.last() == data
            &&& arrived.recv_queue.len() == 1
            &&& arrived.recv_queue.first() == data
        }),
{
    let ops = seq![SessionOp::AllocateSend(data.len() as u16), SessionOp::SubmitSend(data)];
    let s1 = apply_op(sender, ops[0]);
    let s2 = apply_op(s1, ops[1]);
    assert(allocate_fits(sender, data.len() as u16));
    assert(data.len() <= s1.reserved);
    let t1 = ops.drop_first();
    let t2 = t1.drop_first();
    assert(t1[0] == ops[1] && t2.len() == 0);
    assert(apply_ops(sender, ops) == apply_ops(s1, t1));
    assert(apply_ops(s1, t1) == apply_ops(s2, t2));
    assert(apply_ops(s2, t2) == s2);
    let arrived = apply_op(receiver, SessionOp::DeliverIncoming(s2.delivered.last()));
    assert(arrived.recv_queue.first() == data);
}

/// What a host wait on the pair of signals (data ready, shutdown) reported.
///
/// A blocking receive always waits on both signals together, never on data
/// alone; that is what lets one shutdown call release every waiter at once.
pub enum WaitOutcome {
    /// The data-ready signal fired.
    DataReady,
    /// The shutdown signal fired.
    ShutdownSignalled,
    /// The wait itself failed: the OS error code and its formatted message.
    WaitFailed(u32, String),
}

/// The decision a blocking receive makes from a finished wait: data means
/// try again, shutdown means the call was cancelled, and a failed wait
/// surfaces the OS error.
pub fn handle_wait_outcome(outcome: WaitOutcome) -> (r: Result<(), Error>)
    ensures
        outcome is DataReady <==> r is Ok,
        outcome is ShutdownSignalled ==> (r matches Err(e) && e is Cancelled),
        outcome matches WaitOutcome::WaitFailed(code, msg) ==> (r matches Err(e) && e
            matches Error::OsError(c, m) && c == code && m@ == msg@),
{
    match outcome {
        WaitOutcome::DataReady => Ok(()),
        WaitOutcome::ShutdownSignalled => Err(Error::Cancelled),
        WaitOutcome::WaitFailed(code, msg) => Err(Error::OsError(code, msg)),
    }
}

/// A zero-filled buffer of length `n`, the initial payload of a fresh send
/// packet.
fn zero_vec(n: usize) -> (v: Vec<u8>)
    ensures
        v@ == Seq::new(n as nat, |i: int| 0u8),
{
    let mut v: Vec<u8> = Vec::new();
    let mut i: usize = 0;
    while i < n
        invariant
            i == v@.len(),
            i <= n,
            forall|j: int| 0 <= j < i ==> v@[j] == 0u8,
        decreases n - i,
    {
        v.push(0u8);
        i = i + 1;
    }
    proof {
        assert(v@ =~= Seq::new(n as nat, |i: int| 0u8));
    }
    v
}

/// Copies all of `src` over the first `src.len()` bytes of `dst`, leaving
/// the rest of `dst` as it was.
fn copy_into(dst: &mut Vec<u8>, src: &Vec<u8>)
    requires
        src@.len() <= old(dst)@.len(),
    ensures
        final(dst)@ == src@ + old(dst)@.skip(src@.len() as int),
{
    let mut i: usize = 0;
    while i < src.len()
        invariant
            i <= src@.len(),
            src@.len() <= old(dst)@.len(),
            dst@.len() == old(dst)@.len(),
            forall|j: int| 0 <= j < i ==> dst@[j] == src@[j],
            forall|j: int| i <= j < dst@.len() ==> dst@[j] == old(dst)@[j],
        decreases src@.len() - i,
    {
        let b = src[i];
        dst[i] = b;
        i = i + 1;
    }
    proof {
        assert(dst@ =~= src@ + old(dst)@.skip(src@.len() as int));
    }
}

/// An owned copy of a byte buffer.
fn clone_bytes(src: &Vec<u8>) -> (r: Vec<u8>)
    ensures
        r@ == src@,
{
    let mut r: Vec<u8> = Vec::new();
    let mut i: usize = 0;
    while i < src.len()
        invariant
            i <= src@.len(),
            r@ == src@.take(i as int),
        decreases src@.len() - i,
    {
        r.push(src[i]);
        proof {
            assert(r@ =~= src@.take(i + 1 as int));
        }
        i = i + 1;
    }
    proof {
        assert(r@ =~= src@);
    }
    r
}

/// A session on a virtual interface: the ring state, the sticky shutdown
/// signal, and the adapter the session was started on.
pub struct Session {
    capacity: u32,
    recv_queue: Vec<Vec<u8>>,
    reserved: u64,
    delivered: Vec<Vec<u8>>,
    shutdown: bool,
    read_event: Option<UnsafeHandle<u64>>,
    adapter: Adapter,
}

impl View for Session {
    type V = SessionView;

    closed spec fn view(&self) -> SessionView {
        SessionView {
            capacity: self.capacity,
            recv_queue: self.recv_queue.deep_view(),
            reserved: self.reserved,
            delivered: self.delivered.deep_view(),
            shutdown: self.shutdown,
            read_event: match self.read_event {
                Some(h) => Some(h.0),
                None => None,
            },
            adapter: self.adapter@,
        }
    }
}

impl Session {
    /// A fresh session on `adapter`: empty queues, nothing reserved, the
    /// shutdown signal unset.  Reached only through a validated capacity.
    pub(crate) fn start(adapter: Adapter, capacity: u32) -> (s: Session)
        requires
            crate::adapter::valid_capacity(capacity),
        ensures
            s@ == (SessionView {
                capacity,
                recv_queue: Seq::empty(),
                reserved: 0,
                delivered: Seq::empty(),
                shutdown: false,
                read_event: None,
                adapter: adapter@,
            }),
            s@.wf(),
    {
        let s = Session {
            capacity,
            recv_queue: Vec::new(),
            reserved: 0,
            delivered: Vec::new(),
            shutdown: false,
            read_event: None,
            adapter,
        };
        proof {
            assert(s.recv_queue.deep_view() =~= Seq::<Seq<u8>>::empty());
            assert(s.delivered.deep_view() =~= Seq::<Seq<u8>>::empty());
            assert(s@ =~= (SessionView {
                capacity,
                recv_queue: Seq::empty(),
                reserved: 0,
                delivered: Seq::empty(),
                shutdown: false,
                read_event: None,
                adapter: s.adapter@,
            }));
        }
        s
    }

    /// The adapter this session runs on.
    pub fn get_adapter(&self) -> (a: &Adapter)
        ensures
            a@ == self@.adapter,
    {
        &self.adapter
    }

    /// The ring capacity this session was started with.
    pub fn capacity(&self) -> (c: u32)
        ensures
            c == self@.capacity,
    {
        self.capacity
    }

    /// Whether the sticky shutdown signal has been raised.
    pub fn is_shutdown(&self) -> (b: bool)
        ensures
            b == self@.shutdown,
    {
        self.shutdown
    }

    /// How many bytes of ring space allocated packets currently reserve.
    pub fn reserved_bytes(&self) -> (n: u64)
        ensures
            n == self@.reserved,
    {
        self.reserved
    }

    /// How many datagrams have been submitted to the wire so far.
    pub fn transmitted_count(&self) -> (n: usize)
        ensures
            n == self@.delivered.len(),
    {
        self.delivered.len()
    }

    /// The `i`-th datagram submitted to the wire, counted from the first
    /// submission.  The host boundary for departures: what it reads here, in
    /// this order, is what goes out.
    pub fn get_transmitted(&self, i: usize) -> (r: Option<&Vec<u8>>)
        ensures
            i < self@.delivered.len() ==> (r matches Some(b) && b@ == self@.delivered[i as int]),
            i >= self@.delivered.len() ==> r is None,
    {
        if i < self.delivered.len() {
            Some(&self.delivered[i])
        } else {
            None
        }
    }

    /// Reserves `size` bytes of ring space and hands out a zero-filled send
    /// packet of exactly that size.  Fails with `DriverOutOfResources` when
    /// the ring has no room, and then changes nothing; the caller may retry
    /// later or drop the request.  The reservation is given back only when
    /// the packet is submitted, so a packet that is allocated and never sent
    /// keeps its space until the session itself goes away.
    pub fn allocate_send_packet(&mut self, size: u16) -> (r: Result<Packet, Error>)
        requires
            old(self)@.wf(),
        ensures
            final(self)@.wf(),
            final(self)@ == apply_op(old(self)@, SessionOp::AllocateSend(size)),
            r is Ok <==> allocate_fits(old(self)@, size),
            r matches Ok(p) ==> {
                &&& p@.kind == PacketKind::SendAllocated
                &&& p@.bytes =~= Seq::new(size as nat, |i: int| 0u8)
            },
            r is Err ==> (r matches Err(e) && e is DriverOutOfResources) && final(self)@ == old(self)@,
    {
        if (size as u64) <= self.capacity as u64 - self.reserved {
            let bytes: Vec<u8> = zero_vec(size as usize);
            self.reserved = self.reserved + size as u64;
            let p = Packet::assemble(PacketKind::SendAllocated, bytes);
            proof {
                assert(self@ =~= allocate_send_spec(old(self)@, size));
            }
            Ok(p)
        } else {
            proof {
                assert(self@ =~= old(self)@);
            }
            Err(Error::DriverOutOfResources)
        }
    }

    /// Submits a packet previously obtained from `allocate_send_packet`,
    /// consuming it.  Datagrams reach the wire in the order they are
    /// submitted — the order of the `send_packet` calls, not the order the
    /// packets were allocated — and the packet's reservation is given back.
    pub fn send_packet(&mut self, packet: Packet)
        requires
            old(self)@.wf(),
            packet@.kind == PacketKind::SendAllocated,
            packet@.bytes.len() <= old(self)@.reserved,
        ensures
            final(self)@.wf(),
            final(self)@ == apply_op(old(self)@, SessionOp::SubmitSend(packet@.bytes)),
            final(self)@.delivered == old(self)@.delivered.push(packet@.bytes),
    {
        let n = packet.len();
        self.reserved = self.reserved - n as u64;
        let bytes = packet.into_bytes();
        self.delivered.push(bytes);
        proof {
            assert(self.delivered.deep_view() =~~= old(self).delivered.deep_view().push(
                packet@.bytes,
            ));
            assert(self@ =~~= submit_send_spec(old(self)@, packet@.bytes));
        }
    }

    /// Takes the oldest queued datagram without blocking.  An empty queue is
    /// not an error: the call returns `Ok(None)` at once and changes nothing.
    /// Otherwise the datagram comes back as a packet in `ReceivedPending`
    /// state, byte for byte as it was queued.
    pub fn try_receive(&mut self) -> (r: Result<Option<Packet>, Error>)
        requires
            old(self)@.wf(),
        ensures
            final(self)@.wf(),
            final(self)@ == apply_op(old(self)@, SessionOp::TryReceive),
            r is Ok,
            old(self)@.recv_queue.len() == 0 ==> (r matches Ok(None)) && final(self)@ == old(self)@,
            old(self)@.recv_queue.len() > 0 ==> (r matches Ok(Some(p)) && {
                &&& p@.kind == PacketKind::ReceivedPending
                &&& p@.bytes == old(self)@.recv_queue.first()
            }),
    {
        if self.recv_queue.len() == 0 {
            proof {
                assert(self@ =~= old(self)@);
            }
            Ok(None)
        } else {
            let bytes = self.recv_queue.remove(0);
            let p = Packet::assemble(PacketKind::ReceivedPending, bytes);
            proof {
                assert(self.recv_queue.deep_view() =~= old(self)@.recv_queue.drop_first());
                assert(self@ =~= try_receive_spec(old(self)@));
            }
            Ok(Some(p))
        }
    }

    /// Takes the oldest queued datagram, polling a few times before a caller
    /// would have to wait.  In this state-machine form the host's wait is
    /// already decided by the state itself: a wait with neither datagrams
    /// queued nor shutdown raised would never return, so such calls are the
    /// host's to make (poll, then wait on both signals, then call again) and
    /// are left out here.  Once shutdown is observed the call never blocks
    /// again: it returns `Cancelled`, and does so for every blocked caller.
    pub fn receive_blocking(&mut self) -> (r: Result<Packet, Error>)
        requires
            old(self)@.wf(),
            old(self)@.recv_queue.len() > 0 || old(self)@.shutdown,
        ensures
            final(self)@.wf(),
            old(self)@.recv_queue.len() > 0 ==> (r matches Ok(p) && {
                &&& p@.kind == PacketKind::ReceivedPending
                &&& p@.bytes == old(self)@.recv_queue.first()
            }) && final(self)@ == apply_op(old(self)@, SessionOp::TryReceive),
            old(self)@.recv_queue.len() == 0 ==> (r matches Err(e) && e is Cancelled) && final(self)@ == old(self)@,
    {
        let mut attempt: usize = 0;
        while attempt < RECEIVE_POLL_ATTEMPTS
            invariant
                old(self)@.wf(),
                self@ == old(self)@,
                old(self)@.recv_queue.len() > 0 || old(self)@.shutdown,
                attempt > 0 ==> self@.recv_queue.len() == 0,
            decreases RECEIVE_POLL_ATTEMPTS - attempt,
        {
            match self.try_receive() {
                Ok(Some(packet)) => {
                    return Ok(packet);
                },
                Ok(None) => {},
                Err(e) => {
                    return Err(e);
                },
            }
            attempt = attempt + 1;
        }
        // The queue stayed empty through every poll; waiting on the signal
        // pair can only end with shutdown, which the precondition guarantees
        // is already raised.
        if self.is_shutdown() {
            Err(Error::Cancelled)
        } else {
            proof {
                assert(false);
            }
            Err(Error::Cancelled)
        }
    }

    /// Raises the sticky shutdown signal, releasing every caller blocked in
    /// a receive wait.  Idempotent: raising it again changes nothing.  The
    /// ring itself stays; it goes away with the session.
    pub fn shutdown(&mut self) -> (r: Result<(), Error>)
        requires
            old(self)@.wf(),
        ensures
            final(self)@.wf(),
            final(self)@ == apply_op(old(self)@, SessionOp::Shutdown),
            final(self)@.shutdown,
            r is Ok,
    {
        self.shutdown = true;
        proof {
            assert(self@ =~= shutdown_spec(old(self)@));
        }
        Ok(())
    }

    /// Takes the oldest queued datagram without blocking and copies it into
    /// the front of `buf`, leaving the rest of `buf` alone.  An empty queue
    /// returns `Ok(None)` at once.  A destination smaller than the datagram
    /// is an error — `SizeMismatch`, reporting both sizes — and the datagram
    /// is consumed either way, as its ring slot is given back the moment it
    /// is taken out of the queue.
    pub fn try_recv(&mut self, buf: &mut Vec<u8>) -> (r: Result<Option<usize>, Error>)
        requires
            old(self)@.wf(),
        ensures
            final(self)@.wf(),
            final(self)@ == apply_op(old(self)@, SessionOp::TryReceive),
            old(self)@.recv_queue.len() == 0 ==> (r matches Ok(None)) && final(self)@ == old(self)@
                && final(buf)@ == old(buf)@,
            old(self)@.recv_queue.len() > 0 && old(self)@.recv_queue.first().len() <= old(buf)@.len() ==> (r matches Ok(Some(n)) && n == old(self)@.recv_queue.first().len() && final(buf)@ == old(self)@.recv_queue.first() + old(buf)@.skip(
                old(self)@.recv_queue.first().len() as int,
            )),
            old(self)@.recv_queue.len() > 0 && old(self)@.recv_queue.first().len() > old(buf)@.len() ==> (r matches Err(e) && e == (Error::SizeMismatch {
                packet: old(self)@.recv_queue.first().len() as usize,
                buffer: old(buf)@.len() as usize,
            }) && final(buf)@ == old(buf)@),
    {
        if self.recv_queue.len() == 0 {
            proof {
                assert(self@ =~~= old(self)@);
            }
            return Ok(None);
        }
        let bytes = self.recv_queue.remove(0);
        proof {
            assert(self.recv_queue.deep_view() =~~= old(self)@.recv_queue.drop_first());
            assert(self@ =~~= try_receive_spec(old(self)@));
        }
        let n = bytes.len();
        if n > buf.len() {
            return Err(Error::SizeMismatch { packet: n, buffer: buf.len() });
        }
        copy_into(buf, &bytes);
        Ok(Some(n))
    }

    /// The blocking variant of `try_recv`: polls a few times, then would
    /// fall back to the host's dual wait exactly as `receive_blocking` does,
    /// so the same precondition stands in for that wait.  Once shutdown is
    /// observed with nothing left to drain, the call is cancelled.
    pub fn recv(&mut self, buf: &mut Vec<u8>) -> (r: Result<usize, Error>)
        requires
            old(self)@.wf(),
            old(self)@.recv_queue.len() > 0 || old(self)@.shutdown,
        ensures
            final(self)@.wf(),
            final(self)@ == apply_op(old(self)@, SessionOp::TryReceive),
            old(self)@.recv_queue.len() == 0 ==> (r matches Err(e) && e is Cancelled) && final(buf)@ == old(buf)@,
            old(self)@.recv_queue.len() > 0 && old(self)@.recv_queue.first().len() <= old(buf)@.len() ==> (r matches Ok(n) && n == old(self)@.recv_queue.first().len() && final(buf)@ == old(self)@.recv_queue.first() + old(buf)@.skip(
                old(self)@.recv_queue.first().len() as int,
            )),
            old(self)@.recv_queue.len() > 0 && old(self)@.recv_queue.first().len() > old(buf)@.len() ==> (r matches Err(e) && e == (Error::SizeMismatch {
                packet: old(self)@.recv_queue.first().len() as usize,
                buffer: old(buf)@.len() as usize,
            }) && final(buf)@ == old(buf)@),
    {
        let mut attempt: usize = 0;
        while attempt < RECEIVE_POLL_ATTEMPTS
            invariant
                old(self)@.wf(),
                self@ == old(self)@,
                buf@ == old(buf)@,
                old(self)@.recv_queue.len() > 0 || old(self)@.shutdown,
                attempt > 0 ==> self@.recv_queue.len() == 0,
            decreases RECEIVE_POLL_ATTEMPTS - attempt,
        {
            match self.try_recv(buf) {
                Ok(Some(n)) => {
                    return Ok(n);
                },
                Ok(None) => {},
                Err(e) => {
                    return Err(e);
                },
            }
            attempt = attempt + 1;
        }
        if self.is_shutdown() {
            Err(Error::Cancelled)
        } else {
            proof {
                assert(false);
            }
            Err(Error::Cancelled)
        }
    }

    /// Reserves room for `buf`, copies it in, and submits it, all in one
    /// step; the net effect on the ring is one more datagram on the wire and
    /// no change in reserved space.  Fails with `DriverOutOfResources`, and
    /// changes nothing, when the ring has no room for `buf` on top of what
    /// is already reserved.
    pub fn send(&mut self, buf: &Vec<u8>) -> (r: Result<usize, Error>)
        requires
            old(self)@.wf(),
        ensures
            final(self)@.wf(),
            r is Ok <==> old(self)@.reserved + buf@.len() <= old(self)@.capacity,
            r matches Ok(n) ==> n == buf@.len() && final(self)@ == (SessionView {
                delivered: old(self)@.delivered.push(buf@),
                ..old(self)@
            }),
            r is Err ==> (r matches Err(e) && e is DriverOutOfResources) && final(self)@ == old(self)@,
    {
        if (buf.len() as u64) <= self.capacity as u64 - self.reserved {
            let bytes = clone_bytes(buf);
            self.delivered.push(bytes);
            proof {
                assert(self.delivered.deep_view() =~~= old(self)@.delivered.push(buf@));
                assert(self@ =~~= (SessionView {
                    delivered: old(self)@.delivered.push(buf@),
                    ..old(self)@
                }));
            }
            Ok(buf.len())
        } else {
            proof {
                assert(self@ =~~= old(self)@);
            }
            Err(Error::DriverOutOfResources)
        }
    }

    /// The "data ready" notification handle: the host resolves it against
    /// the driver once and hands the answer in; the first resolution is
    /// cached and every later call gets the cached handle back, so the
    /// driver is asked at most once per session.
    pub fn get_read_wait_event(&mut self, resolved: UnsafeHandle<u64>) -> (h: UnsafeHandle<u64>)
        requires
            old(self)@.wf(),
        ensures
            final(self)@.wf(),
            final(self)@ == apply_op(old(self)@, SessionOp::ResolveReadEvent(resolved.0)),
            old(self)@.read_event matches Some(cached) ==> h.0 == cached && final(self)@ == old(self)@,
            old(self)@.read_event is None ==> h.0 == resolved.0 && final(self)@.read_event
                == Some(resolved.0),
    {
        match self.read_event {
            Some(cached) => cached,
            None => {
                self.read_event = Some(resolved);
                proof {
                    assert(self@ =~~= resolve_read_event_spec(old(self)@, resolved.0));
                }
                resolved
            },
        }
    }

    /// The host boundary for arrivals: the driver has placed a datagram of
    /// at most a packet's worth of bytes in the ring.
    pub fn deliver_incoming(&mut self, bytes: Vec<u8>)
        requires
            old(self)@.wf(),
            bytes@.len() <= u16::MAX,
        ensures
            final(self)@.wf(),
            final(self)@ == apply_op(old(self)@, SessionOp::DeliverIncoming(bytes@)),
            final(self)@.recv_queue == old(self)@.recv_queue.push(bytes@),
    {
        self.recv_queue.push(bytes);
        proof {
            assert(self.recv_queue.deep_view() =~~= old(self)@.recv_queue.push(bytes@));
            assert(self@ =~~= deliver_incoming_spec(old(self)@, bytes@));
        }
    }
}

} // verus!
