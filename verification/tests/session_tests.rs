use wintun_bindings::adapter::Adapter;
use wintun_bindings::error::Error;
use wintun_bindings::handle::UnsafeHandle;
use wintun_bindings::packet::PacketKind;
use wintun_bindings::session::{handle_wait_outcome, Session, WaitOutcome};
use wintun_bindings::{MAX_RING_CAPACITY, MIN_RING_CAPACITY};

fn demo_adapter() -> Adapter {
    Adapter::assemble(String::from("Demo"), 0x1234_5678, 7, 0xAABB_CCDD)
}

fn open_session(capacity: u32) -> Session {
    demo_adapter().start_session(capacity).expect("valid capacity")
}

#[test]
fn capacity_scenarios() {
    let adapter = demo_adapter();
    assert!(adapter.start_session(4096).is_ok());
    assert!(matches!(
        adapter.start_session(5000),
        Err(Error::CapacityNotPowerOfTwo(5000))
    ));
    assert!(matches!(
        adapter.start_session(64),
        Err(Error::CapacityOutOfRange(64))
    ));
}

#[test]
fn all_valid_capacities_open_a_session() {
    let adapter = demo_adapter();
    let mut c: u32 = 1;
    while c != 0 {
        let r = adapter.start_session(c);
        if c >= MIN_RING_CAPACITY && c <= MAX_RING_CAPACITY {
            assert!(r.is_ok(), "power of two {} in range must open", c);
        } else {
            assert!(matches!(r, Err(Error::CapacityOutOfRange(_))));
        }
        c = c.wrapping_shl(1);
    }
    // a few non-powers of two inside the bounds
    for c in [4097u32, 6000, 12345, 0x3F0_0000] {
        assert!(matches!(
            adapter.start_session(c),
            Err(Error::CapacityNotPowerOfTwo(_))
        ));
    }
}

#[test]
fn fresh_session_state() {
    let session = open_session(MIN_RING_CAPACITY);
    assert!(!session.is_shutdown());
    assert_eq!(session.capacity(), MIN_RING_CAPACITY);
    assert_eq!(session.reserved_bytes(), 0);
    assert_eq!(session.transmitted_count(), 0);
    assert_eq!(session.get_adapter().get_guid(), 0x1234_5678);
}

#[test]
fn try_receive_on_empty_returns_none_immediately() {
    let mut session = open_session(4096);
    let started = std::time::Instant::now();
    for _ in 0..1000 {
        let r = session.try_receive().expect("try_receive never errors");
        assert!(r.is_none());
    }
    // a thousand calls on an empty queue finish in well under a second
    assert!(started.elapsed() < std::time::Duration::from_secs(1));
}

#[test]
fn content_round_trip() {
    let mut sender = open_session(4096);
    let mut receiver = open_session(4096);

    let data = vec![0xDEu8, 0xAD, 0xBE, 0xEF, 0x42];
    let mut packet = sender
        .allocate_send_packet(data.len() as u16)
        .expect("ring has room");
    assert_eq!(packet.kind(), PacketKind::SendAllocated);
    assert_eq!(packet.len(), data.len());
    packet.fill(&data);
    sender.send_packet(packet);

    // the host carries the wire's newest datagram to the peer
    let wire = sender.get_transmitted(0).expect("one datagram sent").clone();
    assert_eq!(wire, data);
    receiver.deliver_incoming(wire);

    let got = receiver
        .try_receive()
        .expect("no error")
        .expect("one datagram queued");
    assert_eq!(got.kind(), PacketKind::ReceivedPending);
    assert_eq!(got.bytes().as_slice(), data.as_slice());
}

#[test]
fn round_trip_every_small_size() {
    let mut sender = open_session(0x10000);
    let mut receiver = open_session(0x10000);
    for s in 1usize..=32 {
        let data: Vec<u8> = (0..s).map(|i| (i * 7 + s) as u8).collect();
        let mut packet = sender.allocate_send_packet(s as u16).unwrap();
        packet.fill(&data);
        sender.send_packet(packet);
        let wire = sender
            .get_transmitted(sender.transmitted_count() - 1)
            .unwrap()
            .clone();
        receiver.deliver_incoming(wire);
        let got = receiver.receive_blocking().unwrap();
        assert_eq!(got.bytes().as_slice(), data.as_slice());
    }
}

#[test]
fn submission_order_beats_allocation_order() {
    let mut session = open_session(4096);
    let mut a = session.allocate_send_packet(2).unwrap();
    let mut b = session.allocate_send_packet(2).unwrap();
    a.fill(&vec![0xAA, 0xAA]);
    b.fill(&vec![0xBB, 0xBB]);
    // allocated A then B, submitted B then A
    session.send_packet(b);
    session.send_packet(a);
    assert_eq!(session.transmitted_count(), 2);
    assert_eq!(session.get_transmitted(0).unwrap().as_slice(), &[0xBB, 0xBB]);
    assert_eq!(session.get_transmitted(1).unwrap().as_slice(), &[0xAA, 0xAA]);
}

#[test]
fn allocation_fails_when_ring_is_full() {
    let mut session = open_session(MIN_RING_CAPACITY); // 4096 bytes
    let first = session.allocate_send_packet(4096).expect("fills the ring");
    assert!(matches!(
        session.allocate_send_packet(1),
        Err(Error::DriverOutOfResources)
    ));
    // an allocated, never-submitted packet keeps its space reserved
    drop(first);
    assert_eq!(session.reserved_bytes(), 4096);
    // submitting another packet is what frees space; nothing was freed here
    assert!(matches!(
        session.allocate_send_packet(1),
        Err(Error::DriverOutOfResources)
    ));
}

#[test]
fn send_gives_back_reservation() {
    let mut session = open_session(4096);
    let packet = session.allocate_send_packet(4000).unwrap();
    assert_eq!(session.reserved_bytes(), 4000);
    session.send_packet(packet);
    assert_eq!(session.reserved_bytes(), 0);
    assert!(session.allocate_send_packet(4096).is_ok());
}

#[test]
fn buffered_send_larger_than_capacity_fails() {
    let mut session = open_session(4096);
    let big = vec![0u8; 4097];
    assert!(matches!(session.send(&big), Err(Error::DriverOutOfResources)));
    let fits = vec![1u8; 4096];
    assert_eq!(session.send(&fits).unwrap(), 4096);
    assert_eq!(session.transmitted_count(), 1);
}

#[test]
fn try_recv_copies_and_reports_size_mismatch() {
    let mut session = open_session(4096);
    session.deliver_incoming(vec![1, 2, 3, 4, 5]);
    session.deliver_incoming(vec![9, 9]);

    // too small: the datagram is consumed and both sizes are reported
    let mut small = vec![0u8; 3];
    match session.try_recv(&mut small) {
        Err(Error::SizeMismatch { packet, buffer }) => {
            assert_eq!(packet, 5);
            assert_eq!(buffer, 3);
        }
        _ => panic!("expected SizeMismatch"),
    }
    assert_eq!(small, vec![0u8; 3]);

    // the next datagram fits; the rest of the buffer stays as it was
    let mut buf = vec![7u8; 4];
    let n = session.try_recv(&mut buf).unwrap().unwrap();
    assert_eq!(n, 2);
    assert_eq!(buf, vec![9, 9, 7, 7]);

    // drained
    assert!(session.try_recv(&mut buf).unwrap().is_none());
}

#[test]
fn shutdown_is_sticky_and_cancels_blocked_receivers() {
    let mut session = open_session(4096);
    session.shutdown().unwrap();
    assert!(session.is_shutdown());
    // idempotent
    session.shutdown().unwrap();
    assert!(session.is_shutdown());

    // every would-be waiter returns Cancelled, however many times it is tried
    for _ in 0..8 {
        assert!(matches!(session.receive_blocking(), Err(Error::Cancelled)));
        let mut buf = vec![0u8; 16];
        assert!(matches!(session.recv(&mut buf), Err(Error::Cancelled)));
    }

    // other operations never clear the signal
    let p = session.allocate_send_packet(4).unwrap();
    session.send_packet(p);
    session.deliver_incoming(vec![1]);
    let _ = session.try_receive().unwrap();
    assert!(session.is_shutdown());
}

#[test]
fn shutdown_drains_queued_datagrams_before_cancelling() {
    let mut session = open_session(4096);
    session.deliver_incoming(vec![5, 6]);
    session.shutdown().unwrap();
    // already-queued data is still handed out, without blocking
    let got = session.receive_blocking().unwrap();
    assert_eq!(got.bytes().as_slice(), &[5, 6]);
    // then the cancellation is observed
    assert!(matches!(session.receive_blocking(), Err(Error::Cancelled)));
}

#[test]
fn wait_outcome_decisions() {
    assert!(handle_wait_outcome(WaitOutcome::DataReady).is_ok());
    assert!(matches!(
        handle_wait_outcome(WaitOutcome::ShutdownSignalled),
        Err(Error::Cancelled)
    ));
    match handle_wait_outcome(WaitOutcome::WaitFailed(87, String::from("bad parameter"))) {
        Err(Error::OsError(code, msg)) => {
            assert_eq!(code, 87);
            assert_eq!(msg, "bad parameter");
        }
        _ => panic!("expected OsError"),
    }
}

#[test]
fn read_wait_event_is_resolved_once() {
    let mut session = open_session(4096);
    let first = session.get_read_wait_event(UnsafeHandle(0x1111u64));
    assert_eq!(first.0, 0x1111);
    // a later resolution is ignored: the cached handle wins
    let second = session.get_read_wait_event(UnsafeHandle(0x2222u64));
    assert_eq!(second.0, 0x1111);
    assert_eq!(second.into_inner(), 0x1111);
}

#[test]
fn packet_set_byte_edits_payload() {
    let mut session = open_session(4096);
    let mut packet = session.allocate_send_packet(3).unwrap();
    packet.set_byte(0, 0x10);
    packet.set_byte(1, 0x20);
    packet.set_byte(2, 0x30);
    session.send_packet(packet);
    assert_eq!(session.get_transmitted(0).unwrap().as_slice(), &[0x10, 0x20, 0x30]);
}
