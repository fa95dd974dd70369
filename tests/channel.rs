use maybe_async_channel::{bounded, unbounded, NextResult, SendError, SendResult};
use std::future::Future;
use std::task::{Context, Poll, Waker};

fn run_to_completion<F: Future>(f: F) -> F::Output {
    let mut f = Box::pin(f);
    let mut cx = Context::from_waker(Waker::noop());
    loop {
        if let Poll::Ready(v) = f.as_mut().poll(&mut cx) {
            return v;
        }
    }
}

#[test]
fn test_sync_call() {
    let (mut sender, _receiver) = bounded::<usize, false>(10);
    match sender.send(42) {
        SendResult::Done(r) => r.ok().unwrap(),
        SendResult::Pending(_) => panic!("a blocking channel sends at once"),
    }
}

#[test]
fn test_async_call() {
    let (mut sender, _receiver) = bounded::<usize, true>(42);
    match sender.send(42) {
        SendResult::Pending(f) => run_to_completion(f).unwrap(),
        SendResult::Done(_) => panic!("an async channel hands back a future"),
    }
}

#[test]
fn sync_recv() {
    let (mut sender, mut receiver) = bounded::<usize, false>(10);
    assert!(matches!(sender.send(42), SendResult::Done(Ok(()))));
    drop(sender);
    let mut seen = 0;
    loop {
        match receiver.next() {
            NextResult::Ready(Some(elem)) => {
                assert_eq!(elem, 42);
                seen += 1;
            }
            NextResult::Ready(None) => break,
            NextResult::Pending(_) => panic!("a blocking channel receives at once"),
        }
    }
    assert_eq!(seen, 1);
}

#[test]
fn async_recv() {
    let (mut sender, mut receiver) = bounded::<usize, true>(42);
    match sender.send(42) {
        SendResult::Pending(f) => run_to_completion(f).unwrap(),
        SendResult::Done(_) => panic!("an async channel hands back a future"),
    }
    drop(sender);
    let mut seen = 0;
    loop {
        let next = match receiver.next() {
            NextResult::Pending(f) => run_to_completion(f).ok(),
            NextResult::Ready(_) => panic!("an async channel hands back a future"),
        };
        match next {
            Some(elem) => {
                assert_eq!(elem, 42);
                seen += 1;
            }
            None => break,
        }
    }
    assert_eq!(seen, 1);
}

#[test]
fn send_after_receiver_dropped_hands_message_back() {
    let (mut sender, receiver) = bounded::<u32, false>(1);
    drop(receiver);
    match sender.send(7) {
        SendResult::Done(Err(SendError(m))) => assert_eq!(m, 7),
        _ => panic!("the message must come back"),
    }
}

#[test]
fn unbounded_blocking_keeps_order() {
    let (mut sender, mut receiver) = unbounded::<u32, false>();
    for i in 0..100 {
        assert!(matches!(sender.send(i), SendResult::Done(Ok(()))));
    }
    drop(sender);
    for i in 0..100 {
        assert!(matches!(receiver.next(), NextResult::Ready(Some(x)) if x == i));
    }
    assert!(matches!(receiver.next(), NextResult::Ready(None)));
}

#[test]
fn unbounded_async_round_trip() {
    let (mut sender, mut receiver) = unbounded::<u32, true>();
    match sender.send(5) {
        SendResult::Pending(f) => run_to_completion(f).unwrap(),
        SendResult::Done(_) => panic!("an async channel hands back a future"),
    }
    match receiver.next() {
        NextResult::Pending(f) => assert_eq!(run_to_completion(f).ok(), Some(5)),
        NextResult::Ready(_) => panic!("an async channel hands back a future"),
    }
}

#[test]
fn zero_capacity_blocking_channel_is_made() {
    let (mut sender, receiver) = bounded::<u8, false>(0);
    drop(receiver);
    assert!(matches!(sender.send(1), SendResult::Done(Err(SendError(1)))));
}
