//! A future that is ready at once with a given result.

use crate::error::{lifted, opt2poll, PollError, PollResult, taken};
use crate::token::{TokenSet, Tokens};
use crate::util::wake_now;
use crate::{BoxFuture, Future, Wake};
use std::sync::Arc;
use vstd::prelude::*;

verus! {

/// A future representing a value that is immediately ready.
pub struct Done<T, E> {
    inner: Option<Result<T, E>>,
}

impl<T, E> Done<T, E> {
    /// The result that has not been handed out yet, if any.
    pub closed spec fn pending(&self) -> Option<Result<T, E>> {
        self.inner
    }
}

/// What a poll of a one-shot leaf returns: the lifted result while one is
/// pending, the reuse abort afterwards.
pub open spec fn leaf_poll<T, E>(pending: Option<Result<T, E>>) -> PollResult<T, E> {
    match pending {
        Some(r) => lifted(r),
        None => taken::<T, E>(None),
    }
}

/// Creates a leaf future which resolves with the given result.
pub fn done<T, E>(r: Result<T, E>) -> (d: Done<T, E>) where T: Send + 'static, E: Send + 'static
    ensures
        d.pending() == Some(r),
{
    Done { inner: Some(r) }
}

impl<T, E> Future<T, E> for Done<T, E> where T: Send + 'static, E: Send + 'static {
    open spec fn inv(&self) -> bool {
        true
    }

    open spec fn spent(&self) -> bool {
        self.pending() is None
    }

    open spec fn may_resolve_to(&self, r: Result<T, E>) -> bool {
        self.pending() == Some(r)
    }

    open spec fn polls(&self, tokens: TokenSet, next: &Self, out: Option<PollResult<T, E>>) -> bool {
        next.pending() is None && out == Some(leaf_poll(self.pending()))
    }

    open spec fn schedules(&self, next: &Self, interest: TokenSet) -> bool {
        *next == *self && interest == TokenSet::All
    }

    open spec fn tailcalls(&self, next: &Self, tail: Option<BoxFuture<T, E>>) -> bool {
        *next == *self && tail is None
    }

    fn poll(&mut self, _tokens: &Tokens) -> (out: Option<PollResult<T, E>>) {
        match opt2poll::<Result<T, E>, E>(self.inner.take()) {
            Ok(Ok(t)) => Some(Ok(t)),
            Ok(Err(e)) => Some(Err(PollError::Other(e))),
            Err(abort) => Some(Err(abort)),
        }
    }

    /// The future is ready, so the waker is called on the spot.
    fn schedule(&mut self, wake: Arc<Box<dyn Wake>>) -> (interest: Tokens)
        ensures
            wake.woken(&interest),
    {
        wake_now(wake)
    }

    fn tailcall(&mut self) -> (tail: Option<BoxFuture<T, E>>) {
        None
    }

    proof fn tailcall_is_idempotent(
        &self,
        mid: &Self,
        last: &Self,
        tail: Option<BoxFuture<T, E>>,
    ) {
    }
}

} // verus!
