use std::sync::atomic::{AtomicBool, AtomicUsize, Ordering};
use std::sync::mpsc::channel;
use std::sync::{Arc, Mutex};

use futures::forget::drive;
use futures::util::Collapsed;
use futures::{
    failed, finished, promise, BoxFuture, Future, FutureExt, PollResult, TokenSet, Tokens, Wake,
};

struct Task<F, T, E>
where
    F: Future<T, E>,
    T: Send + 'static,
    E: Send + 'static,
{
    future: Mutex<Option<Collapsed<F, T, E>>>,
    notified: AtomicBool,
}

fn run<F, T, E>(task: &Arc<Task<F, T, E>>)
where
    F: Future<T, E>,
    T: Send + 'static,
    E: Send + 'static,
{
    loop {
        task.notified.store(false, Ordering::SeqCst);
        let taken = task.future.lock().unwrap().take();
        let mut future = match taken {
            Some(future) => future,
            None => {
                task.notified.store(true, Ordering::SeqCst);
                return;
            }
        };
        let again = task.clone();
        let wake: Arc<Box<dyn Wake>> = Arc::new(Box::new(move |_tokens: &Tokens| run(&again)));
        if drive(&mut future, &Tokens::all(), wake).is_some() {
            return;
        }
        *task.future.lock().unwrap() = Some(future);
        if !task.notified.swap(false, Ordering::SeqCst) {
            return;
        }
    }
}

fn forget<F, T, E>(future: F)
where
    F: Future<T, E>,
    T: Send + 'static,
    E: Send + 'static,
{
    let task = Arc::new(Task {
        future: Mutex::new(Some(Collapsed::Start(future))),
        notified: AtomicBool::new(false),
    });
    run(&task);
}

#[test]
fn map() {
    // Whatever runs after a `map` should have dropped the closure by that
    // point.
    let (tx, rx) = channel::<()>();
    let (tx2, rx2) = channel();
    forget(
        failed::<i32, i32>(1)
            .map(move |a| {
                drop(tx);
                a
            })
            .map_err(move |_| {
                assert!(rx.recv().is_err());
                tx2.send(()).unwrap()
            }),
    );
    rx2.recv().unwrap();
}

#[test]
fn map_err() {
    // Whatever runs after a `map_err` should have dropped the closure by that
    // point.
    let (tx, rx) = channel::<()>();
    let (tx2, rx2) = channel();
    forget(
        finished::<i32, i32>(1)
            .map_err(move |a| {
                drop(tx);
                a
            })
            .map(move |_| {
                assert!(rx.recv().is_err());
                tx2.send(()).unwrap()
            }),
    );
    rx2.recv().unwrap();
}

struct FutureData<F, T> {
    _data: T,
    future: F,
}

impl<F, T, U, V> Future<U, V> for FutureData<F, T>
where
    F: Future<U, V>,
    T: Send + 'static,
    U: Send + 'static,
    V: Send + 'static,
{
    fn inv(&self) -> bool {
        true
    }

    fn spent(&self) -> bool {
        true
    }

    fn may_resolve_to(&self, _r: Result<U, V>) -> bool {
        true
    }

    fn polls(&self, _tokens: TokenSet, _next: &Self, _out: Option<PollResult<U, V>>) -> bool {
        true
    }

    fn schedules(&self, _next: &Self, _interest: TokenSet) -> bool {
        true
    }

    fn tailcalls(&self, _next: &Self, _tail: Option<BoxFuture<U, V>>) -> bool {
        true
    }

    fn tailcall_is_idempotent(&self, _mid: &Self, _last: &Self, _tail: Option<BoxFuture<U, V>>) {}

    fn poll(&mut self, tokens: &Tokens) -> Option<PollResult<U, V>> {
        self.future.poll(tokens)
    }

    fn schedule(&mut self, wake: Arc<Box<dyn Wake>>) -> Tokens {
        self.future.schedule(wake)
    }

    fn tailcall(&mut self) -> Option<BoxFuture<U, V>> {
        None
    }
}

#[test]
fn and_then_drops_eagerly() {
    let count = AtomicUsize::new(0);
    let (p, c) = promise::<(), ()>(&count);
    let (tx, rx) = channel::<()>();
    let (tx2, rx2) = channel();
    forget(
        FutureData {
            _data: tx,
            future: p,
        }
        .and_then(move |_| {
            assert!(rx.recv().is_err());
            tx2.send(()).unwrap();
            finished(1)
        }),
    );
    assert!(rx2.try_recv().is_err());
    c.finish(());
    rx2.recv().unwrap();
}

#[test]
fn or_else_drops_eagerly() {
    let count = AtomicUsize::new(0);
    let (p1, c1) = promise::<(), ()>(&count);
    let (p2, c2) = promise::<(), ()>(&count);
    let (tx, rx) = channel::<()>();
    let (tx2, rx2) = channel();
    forget(
        p1.map(move |a| {
            drop(tx);
            a
        })
        .or_else(move |_| {
            assert!(rx.recv().is_err());
            p2
        })
        .map(move |_| tx2.send(()).unwrap()),
    );
    assert!(rx2.try_recv().is_err());
    c1.fail(());
    assert!(rx2.try_recv().is_err());
    c2.finish(());
    rx2.recv().unwrap();
}

#[test]
fn then_drops_the_first_future_before_the_closure_runs() {
    let count = AtomicUsize::new(0);
    let (p, c) = promise::<i32, i32>(&count);
    let (tx, rx) = channel::<()>();
    let (tx2, rx2) = channel();
    forget(
        FutureData {
            _data: tx,
            future: p,
        }
        .then_with(move |r: Result<i32, i32>| {
            assert!(rx.recv().is_err());
            tx2.send(r).unwrap();
            finished::<i32, i32>(0)
        }),
    );
    assert!(rx2.try_recv().is_err());
    c.fail(7);
    assert_eq!(rx2.recv().unwrap(), Err(7));
}
