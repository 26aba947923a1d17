use wintun_bindings::adapter::Adapter;
use wintun_bindings::async_session::{AsyncSession, ReadPoll, ReadState, WaitingStopReason};
use wintun_bindings::error::Error;
use wintun_bindings::Session;

fn open_async() -> AsyncSession {
    let adapter = Adapter::assemble(String::from("Demo"), 1, 2, 3);
    let session: Session = adapter.start_session(4096).unwrap();
    AsyncSession::from(session)
}

#[test]
fn read_path_starts_idle() {
    let s = open_async();
    assert_eq!(s.read_state(), ReadState::Idle);
    assert!(!s.is_shutdown());
}

#[test]
fn poll_with_data_stays_idle_and_copies() {
    let mut s = open_async();
    s.deliver_incoming(vec![1, 2, 3]);
    let mut buf = vec![0u8; 8];
    match s.poll_read(&mut buf) {
        ReadPoll::Ready(n) => {
            assert_eq!(n, 3);
            assert_eq!(&buf[..3], &[1, 2, 3]);
        }
        _ => panic!("expected data"),
    }
    assert_eq!(s.read_state(), ReadState::Idle);
}

#[test]
fn poll_without_data_offloads_a_wait() {
    let mut s = open_async();
    let mut buf = vec![0u8; 8];
    assert!(matches!(s.poll_read(&mut buf), ReadPoll::MustWait));
    assert_eq!(s.read_state(), ReadState::Waiting);
    // while the offloaded wait runs, further polls stay pending
    assert!(matches!(s.poll_read(&mut buf), ReadPoll::MustWait));
    assert_eq!(s.read_state(), ReadState::Waiting);
    // data arrived: the wait finishes and the next poll reads it
    s.deliver_incoming(vec![9]);
    s.wait_finished(WaitingStopReason::Ready);
    assert_eq!(s.read_state(), ReadState::Idle);
    match s.poll_read(&mut buf) {
        ReadPoll::Ready(n) => assert_eq!(n, 1),
        _ => panic!("expected data after the wait"),
    }
}

#[test]
fn poll_read_reports_too_small_buffer() {
    let mut s = open_async();
    s.deliver_incoming(vec![1, 2, 3, 4]);
    let mut buf = vec![0u8; 2];
    match s.poll_read(&mut buf) {
        ReadPoll::Failed(Error::SizeMismatch { packet, buffer }) => {
            assert_eq!(packet, 4);
            assert_eq!(buffer, 2);
        }
        _ => panic!("expected SizeMismatch"),
    }
}

#[test]
fn shutdown_closes_the_read_path_for_good() {
    let mut s = open_async();
    let mut buf = vec![0u8; 8];
    assert!(matches!(s.poll_read(&mut buf), ReadPoll::MustWait));
    // the offloaded dual wait ends with the shutdown signal
    s.wait_finished(WaitingStopReason::Shutdown);
    assert_eq!(s.read_state(), ReadState::Closed);
    // every subsequent read reports end of stream, never an error
    for _ in 0..5 {
        match s.poll_read(&mut buf) {
            ReadPoll::Ready(n) => assert_eq!(n, 0),
            _ => panic!("closed stream must report zero bytes"),
        }
        assert_eq!(s.recv(&mut buf).unwrap(), 0);
        assert_eq!(s.read_state(), ReadState::Closed);
    }
}

#[test]
fn recv_observing_shutdown_reports_end_of_stream() {
    let mut s = open_async();
    s.deliver_incoming(vec![7, 8]);
    s.close().unwrap();
    assert!(s.is_shutdown());
    let mut buf = vec![0u8; 8];
    // what was queued before shutdown still drains
    assert_eq!(s.recv(&mut buf).unwrap(), 2);
    assert_eq!(&buf[..2], &[7, 8]);
    // then the stream ends quietly, and the read path converges to Closed
    assert_eq!(s.recv(&mut buf).unwrap(), 0);
    assert_eq!(s.read_state(), ReadState::Closed);
    assert_eq!(s.recv(&mut buf).unwrap(), 0);
}

#[test]
fn write_path_is_synchronous() {
    let mut s = open_async();
    let data = vec![0xCAu8, 0xFE];
    assert_eq!(s.send(&data).unwrap(), 2);
    assert_eq!(s.session().transmitted_count(), 1);
    assert_eq!(s.session().get_transmitted(0).unwrap().as_slice(), &[0xCA, 0xFE]);
    // a write larger than the whole ring fails like the session itself
    let big = vec![0u8; 5000];
    assert!(matches!(s.send(&big), Err(Error::DriverOutOfResources)));
}

#[test]
fn close_raises_the_session_shutdown_signal() {
    let mut s = open_async();
    assert_eq!(s.read_state(), ReadState::Idle);
    s.close().unwrap();
    assert!(s.is_shutdown());
    // the read path converges on the next wait, not at close itself
    assert_eq!(s.read_state(), ReadState::Idle);
    let mut buf = vec![0u8; 4];
    assert_eq!(s.recv(&mut buf).unwrap(), 0);
    assert_eq!(s.read_state(), ReadState::Closed);
}
