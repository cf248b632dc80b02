//! A future whose result is computed when it is first polled.

use crate::error::{lifted, PollError, PollResult, reused};
use crate::token::{TokenSet, Tokens};
use crate::util::wake_now;
use crate::{BoxFuture, Future, Wake};
use std::marker::PhantomData;
use std::sync::Arc;
use vstd::prelude::*;

verus! {

/// A future which defers the computation of its result until it is polled.
pub struct Lazy<F, T, E> where T: Send + 'static, E: Send + 'static {
    f: Option<F>,
    _data: PhantomData<(T, E)>,
}

impl<F, T, E> Lazy<F, T, E> where T: Send + 'static, E: Send + 'static {
    /// The computation that has not run yet, if any.
    pub closed spec fn deferred(&self) -> Option<F> {
        self.f
    }
}

/// Creates a future which runs `f` on its first poll and resolves with what
/// it returns.
pub fn lazy<F, T, E>(f: F) -> (l: Lazy<F, T, E>) where
    F: FnOnce() -> Result<T, E> + Send + 'static,
    T: Send + 'static,
    E: Send + 'static,

    requires
        f.requires(()),
    ensures
        l.deferred() == Some(f),
        l.inv(),
{
    Lazy { f: Some(f), _data: PhantomData }
}

impl<F, T, E> Future<T, E> for Lazy<F, T, E> where
    F: FnOnce() -> Result<T, E> + Send + 'static,
    T: Send + 'static,
    E: Send + 'static,
 {
    open spec fn inv(&self) -> bool {
        self.deferred() matches Some(f) ==> f.requires(())
    }

    open spec fn spent(&self) -> bool {
        self.deferred() is None
    }

    open spec fn may_resolve_to(&self, r: Result<T, E>) -> bool {
        self.deferred() matches Some(f) && f.ensures((), r)
    }

    open spec fn polls(&self, tokens: TokenSet, next: &Self, out: Option<PollResult<T, E>>) -> bool {
        &&& next.deferred() is None
        &&& match self.deferred() {
            Some(f) => exists|r: Result<T, E>| f.ensures((), r) && out == Some(lifted(r)),
            None => out == Some::<PollResult<T, E>>(Err(PollError::Panicked(crate::error::Payload::Reused))),
        }
    }

    open spec fn schedules(&self, next: &Self, interest: TokenSet) -> bool {
        *next == *self && interest == TokenSet::All
    }

    open spec fn tailcalls(&self, next: &Self, tail: Option<BoxFuture<T, E>>) -> bool {
        *next == *self && tail is None
    }

    fn poll(&mut self, _tokens: &Tokens) -> (out: Option<PollResult<T, E>>) {
        match self.f.take() {
            Some(f) => {
                let r = f();
                let out = match r {
                    Ok(t) => Some(Ok(t)),
                    Err(e) => Some(Err(PollError::Other(e))),
                };
                assert(f.ensures((), r) && out == Some(lifted(r)));
                out
            },
            None => Some(Err(reused())),
        }
    }

    /// The future is ready, so the waker is called on the spot.
    fn schedule(&mut self, wake: Arc<Box<dyn Wake>>) -> (interest: Tokens)
        ensures
            wake.woken(&interest),
    {
        wake_now(wake)
    }

    fn tailcall(&mut self) -> (tail: Option<BoxFuture<T, E>>) {
        None
    }

    proof fn tailcall_is_idempotent(
        &self,
        mid: &Self,
        last: &Self,
        tail: Option<BoxFuture<T, E>>,
    ) {
    }
}

} // verus!
