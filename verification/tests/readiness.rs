use std::io;
use tio::net::poll::{Channel, Entry};
use tio::net::reactor::Registry;
use tio::task::Poll;

fn would_block() -> io::Error {
    io::Error::new(io::ErrorKind::WouldBlock, "try again")
}

#[test]
fn channel_starts_not_ready_with_nobody_waiting() {
    let mut channel = Channel::new();
    assert!(!channel.is_ready());
    assert!(channel.make_ready().is_empty());
    assert!(channel.is_ready());
}

#[test]
fn channel_wakes_waiters_oldest_first() {
    let mut channel = Channel::new();
    channel.wait(7);
    channel.wait(3);
    channel.wait(9);
    assert_eq!(channel.make_ready(), vec![7, 3, 9]);
    assert!(channel.is_ready());
    assert!(channel.make_ready().is_empty());
}

#[test]
fn channel_poll_ready_waits_then_is_ready() {
    let mut channel = Channel::new();
    assert!(matches!(channel.poll_ready(1), Poll::Pending));
    assert!(matches!(channel.poll_ready(2), Poll::Pending));
    assert_eq!(channel.make_ready(), vec![1, 2]);
    assert!(matches!(channel.poll_ready(3), Poll::Ready(())));
    // a ready channel keeps nobody waiting
    assert!(channel.make_ready().is_empty());
}

#[test]
fn channel_readiness_is_permanent() {
    let mut channel = Channel::new();
    channel.make_ready();
    channel.wait(4);
    assert!(channel.is_ready());
    assert!(matches!(channel.poll_io::<usize>(5, Err(would_block())), Poll::Pending));
    assert!(channel.is_ready());
    assert_eq!(channel.make_ready(), vec![4, 5]);
}

#[test]
fn channel_poll_io_keeps_waker_only_when_blocking() {
    let mut channel = Channel::new();
    match channel.poll_io::<usize>(1, Ok(12)) {
        Poll::Ready(Ok(n)) => assert_eq!(n, 12),
        _ => panic!("a finished read is ready"),
    }
    match channel.poll_io::<usize>(2, Err(io::Error::new(io::ErrorKind::ConnectionReset, "reset"))) {
        Poll::Ready(Err(err)) => assert_eq!(err.kind(), io::ErrorKind::ConnectionReset),
        _ => panic!("a failed read is ready"),
    }
    assert!(matches!(channel.poll_io::<usize>(3, Err(would_block())), Poll::Pending));
    assert_eq!(channel.make_ready(), vec![3]);
}

#[test]
fn entry_event_wakes_matching_directions() {
    let mut entry = Entry::new();
    entry.read(1);
    entry.write(2);
    entry.read(3);
    assert_eq!(entry.on_event(false, false), Vec::<u64>::new());
    assert_eq!(entry.on_event(true, false), vec![1, 3]);
    assert!(entry.reader.is_ready());
    assert!(!entry.writer.is_ready());
    entry.read(4);
    entry.write(5);
    assert_eq!(entry.on_event(true, true), vec![4, 2, 5]);
    assert!(entry.writer.is_ready());
}

#[test]
fn registry_tokens_are_distinct() {
    let mut registry = Registry::new();
    let a = registry.insert();
    let b = registry.insert();
    let c = registry.insert();
    assert_ne!(a, b);
    assert_ne!(b, c);
    assert_ne!(a, c);
}

#[test]
fn registry_dispatch_ignores_unknown_tokens() {
    let mut registry = Registry::new();
    let token = registry.insert();
    assert!(matches!(registry.poll_write_ready(token, 8), Poll::Pending));
    assert!(registry.dispatch(token + 1000, true, true).is_empty());
    assert_eq!(registry.dispatch(token, false, true), vec![8]);
    assert!(matches!(registry.poll_write_ready(token, 9), Poll::Ready(())));
}

#[test]
fn registry_read_waiters_are_woken_by_readable_events() {
    let mut registry = Registry::new();
    let first = registry.insert();
    let second = registry.insert();
    assert!(matches!(registry.poll_read::<usize>(first, 10, Err(would_block())), Poll::Pending));
    assert!(matches!(registry.poll_read::<usize>(second, 11, Err(would_block())), Poll::Pending));
    assert!(matches!(registry.poll_write::<usize>(second, 12, Err(would_block())), Poll::Pending));
    assert!(registry.dispatch(first, false, true).is_empty());
    assert_eq!(registry.dispatch(second, true, true), vec![11, 12]);
    assert_eq!(registry.dispatch(first, true, false), vec![10]);
    match registry.poll_read::<usize>(first, 13, Ok(3)) {
        Poll::Ready(Ok(n)) => assert_eq!(n, 3),
        _ => panic!("a finished read is ready"),
    }
}

#[test]
fn registry_remove_forgets_the_socket() {
    let mut registry = Registry::new();
    let token = registry.insert();
    assert!(matches!(registry.poll_read::<usize>(token, 1, Err(would_block())), Poll::Pending));
    let mut entry = registry.remove(token);
    assert!(registry.dispatch(token, true, true).is_empty());
    assert_eq!(entry.on_event(true, false), vec![1]);
}

#[test]
fn registry_contains_only_registered_tokens() {
    let mut registry = Registry::new();
    assert!(!registry.contains(0));
    let token = registry.insert();
    assert!(registry.contains(token));
    registry.remove(token);
    assert!(!registry.contains(token));
}
