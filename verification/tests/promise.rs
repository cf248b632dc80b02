use std::sync::atomic::{AtomicUsize, Ordering};
use std::sync::Arc;

use futures::slot::TryConsumeError;
use futures::{promise, Future, Payload, PollError, Tokens, Wake};

fn waker(hits: &Arc<AtomicUsize>, by: usize) -> Arc<Box<dyn Wake>> {
    let hits = hits.clone();
    Arc::new(Box::new(move |_tokens: &Tokens| {
        hits.fetch_add(by, Ordering::SeqCst);
    }))
}

#[test]
fn identifiers_are_drawn_from_the_counter() {
    let count = AtomicUsize::new(5);
    let (mut p, _c) = promise::<u8, u8>(&count);
    let (mut q, _d) = promise::<u8, u8>(&count);
    assert_eq!(count.load(Ordering::SeqCst), 7);
    let hits = Arc::new(AtomicUsize::new(0));
    let interest = p.schedule(waker(&hits, 1));
    assert!(interest.may_contain(&Tokens::from_id(5)));
    assert!(!interest.may_contain(&Tokens::from_id(6)));
    let interest = q.schedule(waker(&hits, 1));
    assert!(interest.may_contain(&Tokens::from_id(6)));
    assert!(!interest.may_contain(&Tokens::from_id(5)));
    assert_eq!(hits.load(Ordering::SeqCst), 0);
}

#[test]
fn the_waker_is_called_with_the_promise_s_own_token() {
    let count = AtomicUsize::new(3);
    let (mut p, c) = promise::<u8, u8>(&count);
    let seen = Arc::new(AtomicUsize::new(0));
    let held = seen.clone();
    let wake: Arc<Box<dyn Wake>> = Arc::new(Box::new(move |tokens: &Tokens| {
        if tokens.may_contain(&Tokens::from_id(3)) && !tokens.may_contain(&Tokens::from_id(4)) {
            held.fetch_add(1, Ordering::SeqCst);
        }
    }));
    let _interest = p.schedule(wake);
    c.finish(1);
    assert_eq!(seen.load(Ordering::SeqCst), 1);
}

#[test]
fn a_fresh_promise_is_not_ready() {
    let count = AtomicUsize::new(0);
    let (mut p, _c) = promise::<u8, u8>(&count);
    assert_eq!(p.poll(&Tokens::all()), None);
    assert_eq!(p.poll(&Tokens::from_id(9)), None);
    assert!(p.tailcall().is_none());
}

#[test]
fn finish_resolves_with_the_value() {
    let count = AtomicUsize::new(0);
    let (mut p, c) = promise::<u8, u8>(&count);
    c.finish(4);
    assert_eq!(p.poll(&Tokens::all()), Some(Ok(4)));
    assert_eq!(
        p.poll(&Tokens::all()),
        Some(Err(PollError::Panicked(Payload::Reused)))
    );
}

#[test]
fn fail_resolves_with_the_error() {
    let count = AtomicUsize::new(0);
    let (mut p, c) = promise::<u8, u8>(&count);
    c.fail(6);
    assert_eq!(p.poll(&Tokens::all()), Some(Err(PollError::Other(6))));
    assert_eq!(
        p.poll(&Tokens::all()),
        Some(Err(PollError::Panicked(Payload::Reused)))
    );
}

#[test]
fn abandon_resolves_as_canceled_once() {
    let count = AtomicUsize::new(0);
    let (mut p, mut c) = promise::<u8, u8>(&count);
    c.abandon();
    c.abandon();
    drop(c);
    assert_eq!(
        p.poll(&Tokens::all()),
        Some(Err(PollError::Panicked(Payload::Canceled)))
    );
    assert_eq!(
        p.poll(&Tokens::all()),
        Some(Err(PollError::Panicked(Payload::Reused)))
    );
}

#[test]
fn settle_turns_what_was_found_into_the_outcome() {
    let count = AtomicUsize::new(0);
    let (mut p, _c) = promise::<u8, u8>(&count);
    assert_eq!(p.settle(Err(TryConsumeError)), None);
    assert_eq!(p.settle(Ok(Some(Ok(1)))), Some(Ok(1)));
    let (mut p, _c) = promise::<u8, u8>(&count);
    assert_eq!(p.settle(Ok(Some(Err(2)))), Some(Err(PollError::Other(2))));
    let (mut p, _c) = promise::<u8, u8>(&count);
    assert_eq!(
        p.settle(Ok(None)),
        Some(Err(PollError::Panicked(Payload::Canceled)))
    );
    assert_eq!(
        p.poll(&Tokens::all()),
        Some(Err(PollError::Panicked(Payload::Reused)))
    );
}

#[test]
fn a_scheduled_promise_waits_for_its_waker() {
    let count = AtomicUsize::new(0);
    let (mut p, c) = promise::<u8, u8>(&count);
    let hits = Arc::new(AtomicUsize::new(0));
    let _interest = p.schedule(waker(&hits, 1));
    assert_eq!(p.poll(&Tokens::all()), None);
    assert_eq!(hits.load(Ordering::SeqCst), 0);
    c.finish(1);
    assert_eq!(hits.load(Ordering::SeqCst), 1);
    assert_eq!(p.poll(&Tokens::all()), Some(Ok(1)));
}

#[test]
fn only_the_most_recent_waker_is_called() {
    let count = AtomicUsize::new(0);
    let (mut p, c) = promise::<u8, u8>(&count);
    let hits = Arc::new(AtomicUsize::new(0));
    let _interest = p.schedule(waker(&hits, 1));
    let _interest = p.schedule(waker(&hits, 10));
    let _interest = p.schedule(waker(&hits, 100));
    c.finish(1);
    assert_eq!(hits.load(Ordering::SeqCst), 100);
    assert_eq!(p.poll(&Tokens::all()), Some(Ok(1)));
}

#[test]
fn scheduling_a_completed_promise_wakes_at_once() {
    let count = AtomicUsize::new(7);
    let (mut p, c) = promise::<u8, u8>(&count);
    c.finish(1);
    let hits = Arc::new(AtomicUsize::new(0));
    let interest = p.schedule(waker(&hits, 1));
    assert_eq!(hits.load(Ordering::SeqCst), 1);
    assert!(interest.may_contain(&Tokens::from_id(7)));
    assert!(!interest.may_contain(&Tokens::from_id(8)));
    assert_eq!(p.poll(&Tokens::all()), Some(Ok(1)));
}

#[test]
fn scheduling_a_used_promise_asks_for_a_poll_at_once() {
    let count = AtomicUsize::new(7);
    let (mut p, c) = promise::<u8, u8>(&count);
    c.finish(1);
    assert_eq!(p.poll(&Tokens::all()), Some(Ok(1)));
    let hits = Arc::new(AtomicUsize::new(0));
    let interest = p.schedule(waker(&hits, 1));
    assert_eq!(hits.load(Ordering::SeqCst), 1);
    assert!(interest.may_contain(&Tokens::from_id(8)));
    assert_eq!(
        p.poll(&Tokens::all()),
        Some(Err(PollError::Panicked(Payload::Reused)))
    );
}

#[test]
fn a_promise_that_is_let_go_without_revoking_keeps_its_waker() {
    let count = AtomicUsize::new(0);
    let (mut p, c) = promise::<u8, u8>(&count);
    let hits = Arc::new(AtomicUsize::new(0));
    let _interest = p.schedule(waker(&hits, 1));
    drop(p);
    c.finish(1);
    assert_eq!(hits.load(Ordering::SeqCst), 1);
}

#[test]
fn a_completer_that_is_let_go_without_abandoning_leaves_the_promise_waiting() {
    let count = AtomicUsize::new(0);
    let (mut p, c) = promise::<u8, u8>(&count);
    drop(c);
    assert_eq!(p.poll(&Tokens::all()), None);
}

#[test]
fn a_parting_completer_hands_over_no_result_once() {
    let count = AtomicUsize::new(0);
    let (_p, mut c) = promise::<u8, u8>(&count);
    assert_eq!(c.parting(), Some(None));
    assert_eq!(c.parting(), None);
    assert_eq!(c.parting(), None);
}

#[test]
fn a_promise_waits_exactly_while_a_wake_is_pending_and_it_is_unused() {
    let count = AtomicUsize::new(0);
    let (mut p, c) = promise::<u8, u8>(&count);
    assert!(p.waits(true));
    assert!(!p.waits(false));
    c.finish(1);
    assert!(p.waits(true));
    assert_eq!(p.poll(&Tokens::all()), Some(Ok(1)));
    assert!(!p.waits(true));
    assert!(!p.waits(false));
}

#[test]
fn a_poll_while_a_wake_is_pending_leaves_the_slot_alone() {
    let count = AtomicUsize::new(0);
    let (mut p, c) = promise::<u8, u8>(&count);
    let hits = Arc::new(AtomicUsize::new(0));
    let held = hits.clone();
    let wake: Arc<Box<dyn Wake>> = Arc::new(Box::new(move |_tokens: &Tokens| {
        held.fetch_add(1, Ordering::SeqCst);
    }));
    let _interest = p.schedule(wake);
    for tokens in [Tokens::all(), Tokens::from_id(0), Tokens::from_id(9)] {
        assert_eq!(p.poll(&tokens), None);
    }
    c.finish(5);
    assert_eq!(hits.load(Ordering::SeqCst), 1);
    assert_eq!(p.poll(&Tokens::from_id(9)), Some(Ok(5)));
}

#[test]
fn revoke_takes_the_waker_back() {
    let count = AtomicUsize::new(0);
    let (mut p, c) = promise::<u8, u8>(&count);
    let hits = Arc::new(AtomicUsize::new(0));
    let _interest = p.schedule(waker(&hits, 1));
    p.revoke();
    p.revoke();
    c.finish(1);
    assert_eq!(hits.load(Ordering::SeqCst), 0);
}

#[test]
fn a_poll_given_a_pending_wake_returns_nothing_and_takes_nothing() {
    let count = AtomicUsize::new(0);
    let (mut p, c) = promise::<u8, u8>(&count);
    c.finish(5);
    assert_eq!(p.poll_when(true), None);
    assert_eq!(p.poll_when(true), None);
    assert_eq!(p.poll_when(false), Some(Ok(5)));
    assert_eq!(
        p.poll_when(true),
        Some(Err(PollError::Panicked(Payload::Reused)))
    );
    assert_eq!(
        p.poll_when(false),
        Some(Err(PollError::Panicked(Payload::Reused)))
    );
}

#[test]
fn a_poll_given_no_pending_wake_asks_the_slot() {
    let count = AtomicUsize::new(0);
    let (mut p, c) = promise::<u8, u8>(&count);
    assert_eq!(p.poll_when(false), None);
    c.fail(2);
    assert_eq!(p.poll_when(false), Some(Err(PollError::Other(2))));
    let (mut p, mut c) = promise::<u8, u8>(&count);
    c.abandon();
    assert_eq!(
        p.poll_when(false),
        Some(Err(PollError::Panicked(Payload::Canceled)))
    );
}
