use std::io::{Error, ErrorKind};

use socketcan::retry::{retry_decision, IoErrorClass, ShouldRetry};

#[test]
fn decision_table() {
    assert!(retry_decision(IoErrorClass::WouldBlock, None, 115));
    assert!(retry_decision(IoErrorClass::Other, Some(115), 115));
    assert!(!retry_decision(IoErrorClass::Other, Some(11), 115));
    assert!(!retry_decision(IoErrorClass::Other, None, 115));
    assert!(!retry_decision(IoErrorClass::AnyOther, Some(115), 115));
}

#[test]
fn would_block_is_retried() {
    assert!(Error::new(ErrorKind::WouldBlock, "later").should_retry());
    assert!(Error::from_raw_os_error(libc::EAGAIN).should_retry());
}

#[test]
fn other_failures_are_fatal() {
    assert!(!Error::new(ErrorKind::NotFound, "gone").should_retry());
    assert!(!Error::new(ErrorKind::Other, "no code").should_retry());
    assert!(!Error::from_raw_os_error(libc::EBADF).should_retry());
}

#[test]
fn results_are_retried_only_on_transient_errors() {
    let ok: std::io::Result<u8> = Ok(1);
    assert!(!ok.should_retry());
    let wb: std::io::Result<u8> = Err(Error::new(ErrorKind::WouldBlock, "later"));
    assert!(wb.should_retry());
    let bad: std::io::Result<u8> = Err(Error::new(ErrorKind::InvalidInput, "bad"));
    assert!(!bad.should_retry());
}
