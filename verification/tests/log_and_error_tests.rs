use wintun_bindings::error::{get_os_error_from_id, Error};
use wintun_bindings::log::{extract_wintun_log_error, get_worst_log_msg, LogItem, LogLevel};

fn item(level: LogLevel, msg: &str, t: u64) -> LogItem {
    LogItem::new(level, String::from(msg), t)
}

#[test]
fn worst_log_is_the_last_of_maximal_severity() {
    let logs = vec![
        item(LogLevel::Info, "starting", 1),
        item(LogLevel::Error, "first failure", 2),
        item(LogLevel::Warn, "odd state", 3),
        item(LogLevel::Error, "second failure", 4),
        item(LogLevel::Info, "done", 5),
    ];
    let worst = get_worst_log_msg(&logs).expect("non-empty");
    assert_eq!(worst.msg, "second failure");
    assert_eq!(worst.timestamp, 4);
}

#[test]
fn worst_log_without_errors_falls_back_by_rank() {
    let logs = vec![
        item(LogLevel::Info, "a", 1),
        item(LogLevel::Warn, "b", 2),
        item(LogLevel::Info, "c", 3),
    ];
    assert_eq!(get_worst_log_msg(&logs).unwrap().msg, "b");
    assert!(get_worst_log_msg(&Vec::new()).is_none());
}

#[test]
fn driver_rejection_quotes_the_worst_line() {
    let logs = vec![
        item(LogLevel::Warn, "ring too large", 1),
        item(LogLevel::Error, "driver refused the session", 2),
    ];
    match extract_wintun_log_error("session start failed", &logs) {
        Error::DriverRejected(m) => {
            assert_eq!(m, "session start failed \"driver refused the session\"");
        }
        _ => panic!("expected DriverRejected"),
    }
    match extract_wintun_log_error("create failed", &Vec::new()) {
        Error::DriverRejected(m) => assert_eq!(m, "create failed \"No logs\""),
        _ => panic!("expected DriverRejected"),
    }
}

#[test]
fn os_status_words() {
    assert!(get_os_error_from_id(0, String::from("unused")).is_ok());
    match get_os_error_from_id(5, String::from("access denied")) {
        Err(Error::OsError(code, msg)) => {
            assert_eq!(code, 5);
            assert_eq!(msg, "access denied");
        }
        _ => panic!("expected OsError"),
    }
}

#[test]
fn error_labels() {
    assert_eq!(Error::Cancelled.label(), "cancelled");
    assert_eq!(Error::DriverOutOfResources.label(), "driver out of resources");
    assert_eq!(Error::CapacityOutOfRange(64).label(), "capacity out of range");
    assert_eq!(
        Error::CapacityNotPowerOfTwo(5000).label(),
        "capacity not a power of two"
    );
    assert_eq!(
        Error::SizeMismatch { packet: 5, buffer: 3 }.label(),
        "size mismatch"
    );
    assert_eq!(Error::OsError(1, String::new()).label(), "os error");
    assert_eq!(Error::DriverRejected(String::new()).label(), "driver rejected");
}
