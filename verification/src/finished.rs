//! A future that is ready at once with a value.

use crate::error::{opt2poll, PollResult, taken};
use crate::token::{TokenSet, Tokens};
use crate::util::wake_now;
use crate::{BoxFuture, Future, Wake};
use std::marker::PhantomData;
use std::sync::Arc;
use vstd::prelude::*;

verus! {

/// A future representing a finished successful computation.
pub struct Finished<T, E> where T: Send + 'static, E: Send + 'static {
    t: Option<T>,
    _e: PhantomData<E>,
}

impl<T, E> Finished<T, E> where T: Send + 'static, E: Send + 'static {
    /// The value that has not been handed out yet, if any.
    pub closed spec fn pending(&self) -> Option<T> {
        self.t
    }
}

/// Creates a leaf future from an immediate value of a finished computation.
pub fn finished<T, E>(t: T) -> (f: Finished<T, E>) where T: Send + 'static, E: Send + 'static
    ensures
        f.pending() == Some(t),
{
    Finished { t: Some(t), _e: PhantomData }
}

impl<T, E> Future<T, E> for Finished<T, E> where T: Send + 'static, E: Send + 'static {
    open spec fn inv(&self) -> bool {
        true
    }

    open spec fn spent(&self) -> bool {
        self.pending() is None
    }

    open spec fn may_resolve_to(&self, r: Result<T, E>) -> bool {
        self.pending() matches Some(t) && r == Ok::<T, E>(t)
    }

    open spec fn polls(&self, tokens: TokenSet, next: &Self, out: Option<PollResult<T, E>>) -> bool {
        next.pending() is None && out == Some(taken::<T, E>(self.pending()))
    }

    open spec fn schedules(&self, next: &Self, interest: TokenSet) -> bool {
        *next == *self && interest == TokenSet::All
    }

    open spec fn tailcalls(&self, next: &Self, tail: Option<BoxFuture<T, E>>) -> bool {
        *next == *self && tail is None
    }

    fn poll(&mut self, _tokens: &Tokens) -> (out: Option<PollResult<T, E>>) {
        Some(opt2poll(self.t.take()))
    }

    /// The future is ready, so the waker is called on the spot.
    fn schedule(&mut self, wake: Arc<Box<dyn Wake>>) -> (interest: Tokens)
        ensures
            wake.woken(&interest),
    {
        wake_now(wake)
    }

    fn tailcall(&mut self) -> (tail: Option<BoxFuture<T, E>>) {
        None
    }

    proof fn tailcall_is_idempotent(
        &self,
        mid: &Self,
        last: &Self,
        tail: Option<BoxFuture<T, E>>,
    ) {
    }
}

} // verus!
