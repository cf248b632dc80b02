use std::sync::atomic::{AtomicUsize, Ordering};
use std::sync::{Arc, Mutex};

use futures::error::{opt2poll, reused, reused_as};
use futures::{
    done, empty, failed, finished, lazy, Future, Lost, Payload, PollError, PollResult, Tokens,
    Wake,
};

fn recording_waker(hits: &Arc<AtomicUsize>, saw_all: &Arc<Mutex<Vec<bool>>>) -> Arc<Box<dyn Wake>> {
    let hits = hits.clone();
    let saw_all = saw_all.clone();
    Arc::new(Box::new(move |tokens: &Tokens| {
        hits.fetch_add(1, Ordering::SeqCst);
        let none = Tokens::from_id(1).intersect(&Tokens::from_id(2));
        saw_all.lock().unwrap().push(tokens.may_contain(&none));
    }))
}

#[test]
fn done_yields_its_value_once() {
    let mut d = done::<u32, u32>(Ok(5));
    assert_eq!(d.poll(&Tokens::from_id(1)), Some(Ok(5)));
    assert_eq!(
        d.poll(&Tokens::from_id(1)),
        Some(Err(PollError::Panicked(Payload::Reused)))
    );
    assert_eq!(
        d.poll(&Tokens::all()),
        Some(Err(PollError::Panicked(Payload::Reused)))
    );
}

#[test]
fn done_yields_its_error_once() {
    let mut d = done::<u32, u32>(Err(6));
    assert_eq!(d.poll(&Tokens::all()), Some(Err(PollError::Other(6))));
    assert_eq!(
        d.poll(&Tokens::all()),
        Some(Err(PollError::Panicked(Payload::Reused)))
    );
    assert!(d.tailcall().is_none());
}

#[test]
fn failed_yields_its_error_once() {
    let mut f = failed::<u32, u32>(1);
    assert_eq!(f.poll(&Tokens::all()), Some(Err(PollError::Other(1))));
    assert_eq!(
        f.poll(&Tokens::all()),
        Some(Err(PollError::Panicked(Payload::Reused)))
    );
    assert!(f.tailcall().is_none());
}

#[test]
fn finished_yields_its_value_once() {
    let mut f = finished::<u32, u32>(8);
    assert_eq!(f.poll(&Tokens::all()), Some(Ok(8)));
    assert_eq!(
        f.poll(&Tokens::all()),
        Some(Err(PollError::Panicked(Payload::Reused)))
    );
    assert!(f.tailcall().is_none());
}

#[test]
fn empty_never_completes_and_never_wakes() {
    let mut e = empty::<u32, u32>();
    let hits = Arc::new(AtomicUsize::new(0));
    let saw_all = Arc::new(Mutex::new(Vec::new()));
    for _ in 0..3 {
        assert_eq!(e.poll(&Tokens::all()), None);
    }
    let interest = e.schedule(recording_waker(&hits, &saw_all));
    assert!(interest.may_contain(&Tokens::from_id(42)));
    assert_eq!(hits.load(Ordering::SeqCst), 0);
    assert_eq!(e.poll(&Tokens::from_id(42)), None);
    assert!(e.tailcall().is_none());
}

#[test]
fn lazy_runs_its_closure_on_the_first_poll_only() {
    let runs = Arc::new(AtomicUsize::new(0));
    let seen = runs.clone();
    let mut l = lazy(move || -> Result<u32, u32> {
        seen.fetch_add(1, Ordering::SeqCst);
        Ok(11)
    });
    assert_eq!(runs.load(Ordering::SeqCst), 0);
    assert_eq!(l.poll(&Tokens::all()), Some(Ok(11)));
    assert_eq!(runs.load(Ordering::SeqCst), 1);
    assert_eq!(
        l.poll(&Tokens::all()),
        Some(Err(PollError::Panicked(Payload::Reused)))
    );
    assert_eq!(runs.load(Ordering::SeqCst), 1);
}

#[test]
fn lazy_lifts_the_error_of_its_closure() {
    let mut l = lazy(|| -> Result<u32, u32> { Err(12) });
    assert_eq!(l.poll(&Tokens::all()), Some(Err(PollError::Other(12))));
}

#[test]
fn ready_leaves_wake_once_at_once_with_every_token() {
    let hits = Arc::new(AtomicUsize::new(0));
    let saw_all = Arc::new(Mutex::new(Vec::new()));

    let mut d = done::<u32, u32>(Ok(1));
    let interest = d.schedule(recording_waker(&hits, &saw_all));
    assert_eq!(hits.load(Ordering::SeqCst), 1);
    assert!(interest.may_contain(&Tokens::from_id(3)));

    let mut f = failed::<u32, u32>(1);
    let _interest = f.schedule(recording_waker(&hits, &saw_all));
    assert_eq!(hits.load(Ordering::SeqCst), 2);

    let mut g = finished::<u32, u32>(1);
    let _interest = g.schedule(recording_waker(&hits, &saw_all));
    assert_eq!(hits.load(Ordering::SeqCst), 3);

    let mut l = lazy(|| -> Result<u32, u32> { Ok(1) });
    let _interest = l.schedule(recording_waker(&hits, &saw_all));
    assert_eq!(hits.load(Ordering::SeqCst), 4);

    assert_eq!(*saw_all.lock().unwrap(), vec![true, true, true, true]);
}

#[test]
fn schedule_does_not_resolve_a_leaf() {
    let hits = Arc::new(AtomicUsize::new(0));
    let saw_all = Arc::new(Mutex::new(Vec::new()));
    let mut d = done::<u32, u32>(Ok(1));
    let _interest = d.schedule(recording_waker(&hits, &saw_all));
    let _interest = d.schedule(recording_waker(&hits, &saw_all));
    assert_eq!(d.poll(&Tokens::all()), Some(Ok(1)));
}

#[test]
fn holder_results() {
    let held: PollResult<u8, u8> = opt2poll(Some(3));
    assert_eq!(held, Ok(3));
    let gone: PollResult<u8, u8> = opt2poll(None);
    assert_eq!(gone, Err(PollError::Panicked(Payload::Reused)));
    assert_eq!(reused::<u8>(), PollError::Panicked(Payload::Reused));
    assert_eq!(
        reused_as::<u8, Payload>(),
        PollError::Panicked(Payload::Reused)
    );
    let lost: PollError<u8, Lost<Payload, u16>> = reused_as();
    assert!(matches!(
        lost,
        PollError::Panicked(Lost {
            cause: Payload::Reused,
            next: None,
        })
    ));
}

#[test]
fn poll_error_map_touches_the_declared_error_only() {
    assert_eq!(
        PollError::<u32>::Other(2u32).map(|e| e + 1),
        PollError::<u32>::Other(3u32)
    );
    assert_eq!(
        PollError::<u32>::Panicked(Payload::Canceled).map(|e| e + 1),
        PollError::<u32>::Panicked(Payload::Canceled)
    );
    assert_eq!(
        PollError::<u32>::Panicked(Payload::Reused).map(|e| e + 1),
        PollError::<u32>::Panicked(Payload::Reused)
    );
}
