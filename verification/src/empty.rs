//! A future that never completes.

use crate::error::{Abort, Payload, PollResult};
use crate::token::{TokenSet, Tokens};
use crate::{BoxFuture, Future, Wake};
use std::marker::PhantomData;
use std::sync::Arc;
use vstd::prelude::*;

verus! {

/// A future which is never resolved.
pub struct Empty<T, E, P: Abort = Payload> where T: Send + 'static, E: Send + 'static {
    _data: PhantomData<(T, E, P)>,
}

/// Creates a future which never resolves.
pub fn empty<T, E>() -> (e: Empty<T, E>) where T: Send + 'static, E: Send + 'static
    ensures
        e.inv(),
        !e.spent(),
{
    Empty { _data: PhantomData }
}

/// Creates a future which never resolves, for any kind of abort payload.
pub fn empty_as<T, E, P: Abort>() -> (e: Empty<T, E, P>) where T: Send + 'static, E: Send + 'static
    ensures
        e.inv(),
        !e.spent(),
{
    Empty { _data: PhantomData }
}

impl<T, E, P: Abort> Future<T, E, P> for Empty<T, E, P> where T: Send + 'static, E: Send + 'static {
    open spec fn inv(&self) -> bool {
        true
    }

    open spec fn spent(&self) -> bool {
        false
    }

    open spec fn may_resolve_to(&self, r: Result<T, E>) -> bool {
        false
    }

    open spec fn polls(&self, tokens: TokenSet, next: &Self, out: Option<PollResult<T, E, P>>) -> bool {
        *next == *self && out is None
    }

    open spec fn schedules(&self, next: &Self, interest: TokenSet) -> bool {
        *next == *self && interest == TokenSet::All
    }

    open spec fn tailcalls(&self, next: &Self, tail: Option<BoxFuture<T, E, P>>) -> bool {
        *next == *self && tail is None
    }

    fn poll(&mut self, _tokens: &Tokens) -> (out: Option<PollResult<T, E, P>>) {
        None
    }

    /// The waker is dropped: nothing will ever call it.
    fn schedule(&mut self, wake: Arc<Box<dyn Wake>>) -> (interest: Tokens) {
        Tokens::all()
    }

    fn tailcall(&mut self) -> (tail: Option<BoxFuture<T, E, P>>) {
        None
    }

    proof fn tailcall_is_idempotent(
        &self,
        mid: &Self,
        last: &Self,
        tail: Option<BoxFuture<T, E, P>>,
    ) {
    }
}

} // verus!
