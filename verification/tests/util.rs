use std::io;
use tio::net::util::{first_address, may_block, resolve_none, settle_socket, AddrAttempts};
use tio::task::Poll;

const RESOLVE_NONE_TEXT: &str = "could not resolve to any valid addresses";

#[test]
fn may_block_turns_would_block_into_pending() {
    let polled = may_block::<u32>(Err(io::Error::new(io::ErrorKind::WouldBlock, "later")));
    assert!(matches!(polled, Poll::Pending));
}

#[test]
fn may_block_keeps_success_ready() {
    match may_block::<u32>(Ok(5)) {
        Poll::Ready(Ok(v)) => assert_eq!(v, 5),
        _ => panic!("success must stay ready"),
    }
}

#[test]
fn may_block_keeps_other_errors_ready() {
    for kind in [io::ErrorKind::Other, io::ErrorKind::InvalidInput, io::ErrorKind::Interrupted, io::ErrorKind::NotFound] {
        match may_block::<u32>(Err(io::Error::new(kind, "boom"))) {
            Poll::Ready(Err(err)) => {
                assert_eq!(err.kind(), kind);
                assert_eq!(err.to_string(), "boom");
            }
            _ => panic!("other errors must stay ready"),
        }
    }
}

#[test]
fn resolve_none_is_invalid_input() {
    let err = resolve_none();
    assert_eq!(err.kind(), io::ErrorKind::InvalidInput);
    assert_eq!(err.to_string(), RESOLVE_NONE_TEXT);
}

#[test]
fn settle_socket_keeps_socket_without_pending_error() {
    assert_eq!(settle_socket("sock", Ok(None)).unwrap(), "sock");
}

#[test]
fn settle_socket_rejects_on_pending_error() {
    let err = settle_socket("sock", Ok(Some(io::Error::new(io::ErrorKind::ConnectionRefused, "refused")))).unwrap_err();
    assert_eq!(err.kind(), io::ErrorKind::ConnectionRefused);
}

#[test]
fn settle_socket_rejects_when_error_cannot_be_read() {
    let err = settle_socket("sock", Err(io::Error::new(io::ErrorKind::PermissionDenied, "denied"))).unwrap_err();
    assert_eq!(err.kind(), io::ErrorKind::PermissionDenied);
}

#[test]
fn first_address_takes_the_first() {
    assert_eq!(first_address(Some(42u16)).unwrap(), 42);
}

#[test]
fn first_address_of_nothing_is_resolve_none() {
    let err = first_address::<u16>(None).unwrap_err();
    assert_eq!(err.kind(), io::ErrorKind::InvalidInput);
    assert_eq!(err.to_string(), RESOLVE_NONE_TEXT);
}

fn run_attempts(results: Vec<io::Result<u8>>) -> io::Result<u8> {
    let mut attempts = AddrAttempts::new();
    for result in results {
        if let Some(done) = attempts.record(result) {
            return done;
        }
    }
    attempts.finish()
}

#[test]
fn attempts_yield_first_success() {
    let results = vec![
        Err(io::Error::new(io::ErrorKind::AddrInUse, "in use")),
        Ok(2),
        Ok(3),
    ];
    assert_eq!(run_attempts(results).unwrap(), 2);
}

#[test]
fn attempts_yield_last_failure() {
    let results = vec![
        Err(io::Error::new(io::ErrorKind::AddrInUse, "in use")),
        Err(io::Error::new(io::ErrorKind::PermissionDenied, "denied")),
    ];
    let err = run_attempts(results).unwrap_err();
    assert_eq!(err.kind(), io::ErrorKind::PermissionDenied);
    assert_eq!(err.to_string(), "denied");
}

#[test]
fn attempts_without_address_yield_resolve_none() {
    let err = run_attempts(Vec::new()).unwrap_err();
    assert_eq!(err.kind(), io::ErrorKind::InvalidInput);
    assert_eq!(err.to_string(), RESOLVE_NONE_TEXT);
}
