use std::sync::atomic::{AtomicUsize, Ordering};
use std::sync::mpsc::channel;
use std::sync::Arc;

use futures::{
    done, empty, failed, finished, promise, Complete, Future, FutureExt, Lost, Payload,
    PollError, Tokens, Wake,
};

struct Parting<T, E>(Complete<T, E>)
where
    T: Send + Sync + 'static,
    E: Send + Sync + 'static;

impl<T, E> Drop for Parting<T, E>
where
    T: Send + Sync + 'static,
    E: Send + Sync + 'static,
{
    fn drop(&mut self) {
        self.0.abandon();
    }
}

fn counting_waker(hits: &Arc<AtomicUsize>) -> Arc<Box<dyn Wake>> {
    let hits = hits.clone();
    Arc::new(Box::new(move |_tokens: &Tokens| {
        hits.fetch_add(1, Ordering::SeqCst);
    }))
}

#[test]
fn immediate_value() {
    let mut f = done::<u32, u32>(Ok(1)).map(|x| x + 3);
    assert_eq!(f.poll(&Tokens::all()), Some(Ok(4)));
    assert_eq!(
        f.poll(&Tokens::all()),
        Some(Err(PollError::Panicked(Payload::Reused)))
    );
}

#[test]
fn promise_happy_path() {
    let count = AtomicUsize::new(0);
    let (p, c) = promise::<i32, i32>(&count);
    let (tx, rx) = channel();
    let mut f = p.map(move |i| tx.send(i).unwrap());
    assert_eq!(f.poll(&Tokens::all()), None);
    let hits = Arc::new(AtomicUsize::new(0));
    let _interest = f.schedule(counting_waker(&hits));
    c.finish(3);
    assert_eq!(hits.load(Ordering::SeqCst), 1);
    assert_eq!(f.poll(&Tokens::all()), Some(Ok(())));
    assert_eq!(rx.recv().unwrap(), 3);
}

#[test]
fn promise_cancellation() {
    let count = AtomicUsize::new(0);
    let (mut p, c) = promise::<(), ()>(&count);
    drop(Parting(c));
    assert_eq!(
        p.poll(&Tokens::all()),
        Some(Err(PollError::Panicked(Payload::Canceled)))
    );
}

#[test]
fn promise_cancellation_wakes_the_driver() {
    let count = AtomicUsize::new(0);
    let (mut p, c) = promise::<u8, u8>(&count);
    let hits = Arc::new(AtomicUsize::new(0));
    let _interest = p.schedule(counting_waker(&hits));
    assert_eq!(p.poll(&Tokens::all()), None);
    drop(Parting(c));
    assert_eq!(hits.load(Ordering::SeqCst), 1);
    assert_eq!(
        p.poll(&Tokens::all()),
        Some(Err(PollError::Panicked(Payload::Canceled)))
    );
    assert_eq!(
        p.poll(&Tokens::all()),
        Some(Err(PollError::Panicked(Payload::Reused)))
    );
}

#[test]
fn select_winner_with_loser_continuation() {
    let mut s = finished::<u32, u32>(1).select(empty::<u32, u32>());
    let mut next = match s.poll(&Tokens::all()) {
        Some(Ok((1, next))) => next,
        _ => panic!("the finished side should have won with 1"),
    };
    for _ in 0..5 {
        assert_eq!(next.poll(&Tokens::all()), None);
    }
    assert!(next.tailcall().is_none());
    drop(next);
    assert!(matches!(
        s.poll(&Tokens::all()),
        Some(Err(PollError::Panicked(Lost {
            cause: Payload::Reused,
            next: None,
        })))
    ));
}

#[test]
fn join_short_circuit_on_error() {
    let mut j = finished::<u32, u32>(1).join(failed::<u32, u32>(9));
    assert_eq!(j.poll(&Tokens::all()), Some(Err(PollError::Other(9))));
    assert_eq!(
        j.poll(&Tokens::all()),
        Some(Err(PollError::Panicked(Payload::Reused)))
    );
}
