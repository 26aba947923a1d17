//! Packets: transient views of buffers that live inside a session's ring.
use vstd::prelude::*;

verus! {

/// The three mutually exclusive lifecycle states of a packet.
///
/// A received packet must be given back to the ring exactly once, which in
/// this layer happens when the packet is dropped.  A send packet is reserved
/// capacity until it is submitted; submitting anything other than a
/// `SendAllocated` packet is a contract violation, so the submission calls
/// require that state.
#[derive(Clone, Copy, Debug, PartialEq, Eq, Structural)]
pub enum PacketKind {
    /// Obtained from a receive call; its bytes are the received datagram.
    ReceivedPending,
    /// Reserved ring capacity for a send, not yet submitted.
    SendAllocated,
    /// Submitted to the ring; nothing further may be done with it.
    SendSubmitted,
}

/// The mathematical content of a packet: its lifecycle state and its bytes.
pub struct PacketView {
    pub kind: PacketKind,
    pub bytes: Seq<u8>,
}

/// A packet: a buffer slot in the session's ring, tagged with its
/// lifecycle state.  Constructed only by session operations.
pub struct Packet {
    kind: PacketKind,
    bytes: Vec<u8>,
}

impl View for Packet {
    type V = PacketView;

    closed spec fn view(&self) -> PacketView {
        PacketView { kind: self.kind, bytes: self.bytes@ }
    }
}

impl Packet {
    /// Used by the session operations to produce packets in a known state.
    pub(crate) fn assemble(kind: PacketKind, bytes: Vec<u8>) -> (p: Packet)
        ensures
            p@.kind == kind,
            p@.bytes == bytes@,
    {
        Packet { kind, bytes }
    }

    /// The lifecycle state of this packet.
    pub fn kind(&self) -> (k: PacketKind)
        ensures
            k == self@.kind,
    {
        self.kind
    }

    /// The bytes of this packet.
    pub fn bytes(&self) -> (b: &Vec<u8>)
        ensures
            b@ == self@.bytes,
    {
        &self.bytes
    }

    /// How many bytes the packet holds.
    pub fn len(&self) -> (n: usize)
        ensures
            n == self@.bytes.len(),
    {
        self.bytes.len()
    }

    /// Overwrites the payload of a send packet that was allocated with
    /// exactly `data.len()` bytes.  The reservation size never changes, so
    /// the data must fill it exactly.
    pub fn fill(&mut self, data: &Vec<u8>)
        requires
            old(self)@.kind == PacketKind::SendAllocated,
            data@.len() == old(self)@.bytes.len(),
        ensures
            final(self)@.kind == old(self)@.kind,
            final(self)@.bytes == data@,
    {
        self.bytes.clear();
        self.bytes.extend_from_slice(data.as_slice());
        proof {
            assert(self.bytes@ =~= data@);
        }
    }

    /// Writes one byte of a send packet's payload.
    pub fn set_byte(&mut self, i: usize, value: u8)
        requires
            old(self)@.kind == PacketKind::SendAllocated,
            i < old(self)@.bytes.len(),
        ensures
            final(self)@.kind == old(self)@.kind,
            final(self)@.bytes == old(self)@.bytes.update(i as int, value),
    {
        self.bytes[i] = value;
    }

    /// Consumed by submission: the session takes the bytes and the packet is
    /// gone, so it can never be submitted twice.
    pub(crate) fn into_bytes(self) -> (b: Vec<u8>)
        ensures
            b@ == self@.bytes,
    {
        self.bytes
    }
}

} // verus!
