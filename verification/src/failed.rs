//! A future that is ready at once with an error.

use crate::error::{opt2poll, PollError, PollResult, taken};
use crate::token::{TokenSet, Tokens};
use crate::util::wake_now;
use crate::{BoxFuture, Future, Wake};
use std::marker::PhantomData;
use std::sync::Arc;
use vstd::prelude::*;

verus! {

/// A future representing a finished but erroneous computation.
pub struct Failed<T, E> where T: Send + 'static, E: Send + 'static {
    _t: PhantomData<T>,
    e: Option<E>,
}

impl<T, E> Failed<T, E> where T: Send + 'static, E: Send + 'static {
    /// The error that has not been handed out yet, if any.
    pub closed spec fn pending(&self) -> Option<E> {
        self.e
    }
}

/// What a poll of a failed future returns: its error while it is pending,
/// the reuse abort afterwards.
pub open spec fn failed_poll<T, E>(pending: Option<E>) -> PollResult<T, E> {
    match pending {
        Some(e) => Err(PollError::Other(e)),
        None => taken::<T, E>(None),
    }
}

/// Creates a leaf future from an immediate value of a failed computation.
pub fn failed<T, E>(e: E) -> (f: Failed<T, E>) where T: Send + 'static, E: Send + 'static
    ensures
        f.pending() == Some(e),
{
    Failed { _t: PhantomData, e: Some(e) }
}

impl<T, E> Future<T, E> for Failed<T, E> where T: Send + 'static, E: Send + 'static {
    open spec fn inv(&self) -> bool {
        true
    }

    open spec fn spent(&self) -> bool {
        self.pending() is None
    }

    open spec fn may_resolve_to(&self, r: Result<T, E>) -> bool {
        self.pending() matches Some(e) && r == Err::<T, E>(e)
    }

    open spec fn polls(&self, tokens: TokenSet, next: &Self, out: Option<PollResult<T, E>>) -> bool {
        next.pending() is None && out == Some(failed_poll::<T, E>(self.pending()))
    }

    open spec fn schedules(&self, next: &Self, interest: TokenSet) -> bool {
        *next == *self && interest == TokenSet::All
    }

    open spec fn tailcalls(&self, next: &Self, tail: Option<BoxFuture<T, E>>) -> bool {
        *next == *self && tail is None
    }

    fn poll(&mut self, _tokens: &Tokens) -> (out: Option<PollResult<T, E>>) {
        match opt2poll::<E, E>(self.e.take()) {
            Ok(e) => Some(Err(PollError::Other(e))),
            Err(abort) => Some(Err(abort)),
        }
    }

    /// The future is ready, so the waker is called on the spot.
    fn schedule(&mut self, wake: Arc<Box<dyn Wake>>) -> (interest: Tokens)
        ensures
            wake.woken(&interest),
    {
        wake_now(wake)
    }

    fn tailcall(&mut self) -> (tail: Option<BoxFuture<T, E>>) {
        None
    }

    proof fn tailcall_is_idempotent(
        &self,
        mid: &Self,
        last: &Self,
        tail: Option<BoxFuture<T, E>>,
    ) {
    }
}

} // verus!
