use std::sync::atomic::{AtomicUsize, Ordering};
use std::sync::Arc;

use futures::slot::{Slot, State, Token, TryConsumeError, Waiter};
use futures::{Tokens, Wake};

fn waiter(hits: &Arc<AtomicUsize>, by: usize) -> Waiter {
    let hits = hits.clone();
    let wake: Arc<Box<dyn Wake>> = Arc::new(Box::new(move |_tokens: &Tokens| {
        hits.fetch_add(by, Ordering::SeqCst);
    }));
    Waiter {
        wake,
        tokens: Tokens::all(),
    }
}

#[test]
fn a_new_state_holds_what_it_was_given() {
    let empty: State<u8> = State::new(None);
    assert_eq!(empty.value, None);
    assert_eq!(empty.queued, None);
    assert!(empty.waiter.is_none());
    assert_eq!(empty.next_id, 0);
    let full: State<u8> = State::new(Some(4));
    assert_eq!(full.value, Some(4));
}

#[test]
fn produce_fills_an_empty_slot_and_is_refused_by_a_full_one() {
    let mut s: State<u8> = State::new(None);
    assert!(matches!(s.produce(1), Ok(None)));
    assert_eq!(s.value, Some(1));
    match s.produce(2) {
        Err(full) => assert_eq!(full.into_inner(), 2),
        Ok(_) => panic!("a full slot took a value"),
    }
    assert_eq!(s.value, Some(1));
}

#[test]
fn consume_empties_a_full_slot_and_is_refused_by_an_empty_one() {
    let mut s: State<u8> = State::new(Some(9));
    assert_eq!(s.consume(), Ok(9));
    assert_eq!(s.value, None);
    assert_eq!(s.consume(), Err(TryConsumeError));
}

#[test]
fn a_waiter_comes_due_when_the_slot_fills() {
    let hits = Arc::new(AtomicUsize::new(0));
    let mut s: State<u8> = State::new(None);
    let (token, due) = s.on_full(waiter(&hits, 1));
    assert_eq!(token, Token { id: 0 });
    assert!(due.is_none());
    assert!(s.waiter.is_some());
    match s.produce(3) {
        Ok(Some(due)) => due.fire(),
        _ => panic!("the waiter did not come due"),
    }
    assert_eq!(hits.load(Ordering::SeqCst), 1);
    assert!(s.waiter.is_none());
    assert_eq!(s.consume(), Ok(3));
    assert!(matches!(s.produce(4), Ok(None)));
}

#[test]
fn a_waiter_on_a_full_slot_is_due_at_once() {
    let hits = Arc::new(AtomicUsize::new(0));
    let mut s: State<u8> = State::new(Some(1));
    let (token, due) = s.on_full(waiter(&hits, 1));
    assert_eq!(token, Token { id: 0 });
    assert!(due.is_some());
    assert!(s.waiter.is_none());
    assert_eq!(s.next_id, 1);
}

#[test]
fn a_later_waiter_replaces_an_earlier_one() {
    let hits = Arc::new(AtomicUsize::new(0));
    let mut s: State<u8> = State::new(None);
    let (first, _) = s.on_full(waiter(&hits, 1));
    let (second, _) = s.on_full(waiter(&hits, 10));
    assert_eq!(first, Token { id: 0 });
    assert_eq!(second, Token { id: 1 });
    match s.produce(3) {
        Ok(Some(due)) => due.fire(),
        _ => panic!("the waiter did not come due"),
    }
    assert_eq!(hits.load(Ordering::SeqCst), 10);
}

#[test]
fn cancel_revokes_the_named_registration_only() {
    let hits = Arc::new(AtomicUsize::new(0));
    let mut s: State<u8> = State::new(None);
    let (first, _) = s.on_full(waiter(&hits, 1));
    let (second, _) = s.on_full(waiter(&hits, 10));
    s.cancel(first);
    assert!(s.waiter.is_some());
    s.cancel(second);
    assert!(s.waiter.is_none());
    assert!(matches!(s.produce(3), Ok(None)));
    s.cancel(second);
    assert_eq!(s.value, Some(3));
}

#[test]
fn a_queued_value_moves_in_when_the_slot_empties() {
    let mut s: State<u8> = State::new(Some(1));
    let (token, due) = s.on_empty(2);
    assert_eq!(token, Token { id: 0 });
    assert!(due.is_none());
    assert_eq!(s.queued, Some(2));
    assert_eq!(s.consume(), Ok(1));
    assert_eq!(s.value, Some(2));
    assert_eq!(s.queued, None);
    assert_eq!(s.consume(), Ok(2));
    assert_eq!(s.consume(), Err(TryConsumeError));
}

#[test]
fn a_value_for_an_empty_slot_is_produced_at_once() {
    let hits = Arc::new(AtomicUsize::new(0));
    let mut s: State<u8> = State::new(None);
    let _ = s.on_full(waiter(&hits, 1));
    let (token, due) = s.on_empty(5);
    assert_eq!(token, Token { id: 1 });
    assert!(due.is_some());
    assert_eq!(s.value, Some(5));
    assert_eq!(s.queued, None);
}

#[test]
fn a_queued_value_can_be_revoked() {
    let mut s: State<u8> = State::new(Some(1));
    let (token, _) = s.on_empty(2);
    s.cancel(token);
    assert_eq!(s.queued, None);
    assert_eq!(s.consume(), Ok(1));
    assert_eq!(s.value, None);
}

#[test]
fn registration_numbers_start_over_after_the_largest() {
    let hits = Arc::new(AtomicUsize::new(0));
    let mut s: State<u8> = State::new(None);
    s.next_id = usize::MAX;
    let (last, _) = s.on_full(waiter(&hits, 1));
    assert_eq!(last, Token { id: usize::MAX });
    assert_eq!(s.next_id, 0);
    let (first, _) = s.on_full(waiter(&hits, 1));
    assert_eq!(first, Token { id: 0 });
    assert_eq!(s.next_id, 1);
}

#[test]
fn a_shared_slot_behaves_as_its_state() {
    let hits = Arc::new(AtomicUsize::new(0));
    let slot: Slot<u8> = Slot::new(None);
    assert_eq!(slot.try_consume(), Err(TryConsumeError));
    let (token, due) = slot.on_full(waiter(&hits, 1));
    assert!(due.is_none());
    slot.cancel(token);
    assert!(matches!(slot.try_produce(1), Ok(None)));
    let (_, due) = slot.on_full(waiter(&hits, 1));
    assert!(due.is_some());
    match slot.try_produce(2) {
        Err(full) => {
            let (_, due) = slot.on_empty(full.into_inner());
            assert!(due.is_none());
        }
        Ok(_) => panic!("a full slot took a value"),
    }
    assert_eq!(slot.try_consume(), Ok(1));
    assert_eq!(slot.try_consume(), Ok(2));
    assert_eq!(slot.try_consume(), Err(TryConsumeError));
    let full: Slot<u8> = Slot::new(Some(7));
    assert_eq!(full.try_consume(), Ok(7));
}
