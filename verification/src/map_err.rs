//! Transforming the error of a future.

use crate::error::{Abort, Payload, PollError, PollResult, reused_as};
use crate::token::{TokenSet, Tokens};
use crate::util::Collapsed;
use crate::{BoxFuture, Future, Wake};
use std::sync::Arc;
use vstd::prelude::*;

verus! {

/// Future for the `map_err` combinator, changing the type of a future's
/// error.
#[verifier::reject_recursive_types(T)]
#[verifier::reject_recursive_types(E)]
#[verifier::reject_recursive_types(P)]
pub struct MapErr<A, F, T, E, P: Abort = Payload> where A: Future<T, E, P>, T: Send + 'static, E: Send + 'static {
    future: Collapsed<A, T, E, P>,
    f: Option<F>,
}

/// What a `map_err` makes of what its future returned. Only the declared
/// error is transformed; a value and an abort go through. The closure is
/// given up as soon as the future has resolved, whether it was needed or
/// not.
pub open spec fn error_mapped<F, T, U, E, P: Abort>(
    f: Option<F>,
    inner: Option<PollResult<T, E, P>>,
    next_f: Option<F>,
    out: Option<PollResult<T, U, P>>,
) -> bool where F: FnOnce(E) -> U {
    match inner {
        None => out is None && next_f == f,
        Some(Ok(t)) => next_f is None && out == Some::<PollResult<T, U, P>>(Ok(t)),
        Some(Err(PollError::Other(e))) => next_f is None && match f {
            Some(g) => out matches Some(Err(PollError::Other(u))) && g.ensures((e,), u),
            None => out == Some::<PollResult<T, U, P>>(Err(PollError::Panicked(P::reused_spec()))),
        },
        Some(Err(PollError::Panicked(p))) => next_f is None && out == Some::<PollResult<T, U, P>>(
            Err(PollError::Panicked(p)),
        ),
    }
}

impl<A, F, T, E, P: Abort> MapErr<A, F, T, E, P> where A: Future<T, E, P>, T: Send + 'static, E: Send + 'static {
    /// The future whose error is transformed.
    pub closed spec fn future(&self) -> Collapsed<A, T, E, P> {
        self.future
    }

    /// The closure, until the future has resolved.
    pub closed spec fn closure(&self) -> Option<F> {
        self.f
    }
}

/// Creates the future that applies `f` to the error of `future`.
pub fn new<A, F, T, E, U, P: Abort>(future: A, f: F) -> (m: MapErr<A, F, T, E, P>) where
    A: Future<T, E, P>,
    F: FnOnce(E) -> U + Send + 'static,
    T: Send + 'static,
    E: Send + 'static,
    U: Send + 'static,

    requires
        future.inv(),
        forall|e: E| future.may_resolve_to(Err(e)) ==> f.requires((e,)),
    ensures
        m.inv(),
        m.future() == Collapsed::<A, T, E, P>::Start(future),
        m.closure() == Some(f),
{
    MapErr { future: Collapsed::Start(future), f: Some(f) }
}

impl<A, F, T, E, U, P: Abort> Future<T, U, P> for MapErr<A, F, T, E, P> where
    A: Future<T, E, P>,
    F: FnOnce(E) -> U + Send + 'static,
    T: Send + 'static,
    E: Send + 'static,
    U: Send + 'static,
 {
    open spec fn inv(&self) -> bool {
        &&& self.future().inv()
        &&& self.closure() matches Some(g) ==> forall|e: E| #[trigger]
            self.future().may_resolve_to(Err(e)) ==> g.requires((e,))
    }

    open spec fn spent(&self) -> bool {
        self.future().spent()
    }

    /// The values of the future, and the errors the closure makes of the
    /// errors of the future.
    open spec fn may_resolve_to(&self, r: Result<T, U>) -> bool {
        match r {
            Ok(t) => self.future().may_resolve_to(Ok(t)),
            Err(u) => self.closure() matches Some(g) && exists|e: E| #[trigger]
                self.future().may_resolve_to(Err(e)) && g.ensures((e,), u),
        }
    }

    open spec fn polls(&self, tokens: TokenSet, next: &Self, out: Option<PollResult<T, U, P>>) -> bool {
        exists|inner: Option<PollResult<T, E, P>>| #[trigger]
            self.future().polls(tokens, &next.future(), inner) && error_mapped(
                self.closure(),
                inner,
                next.closure(),
                out,
            )
    }

    open spec fn schedules(&self, next: &Self, interest: TokenSet) -> bool {
        self.future().schedules(&next.future(), interest) && next.closure() == self.closure()
    }

    open spec fn tailcalls(&self, next: &Self, tail: Option<BoxFuture<T, U, P>>) -> bool {
        &&& tail is None
        &&& self.future().collapses(&next.future())
        &&& next.closure() == self.closure()
    }

    fn poll(&mut self, tokens: &Tokens) -> (out: Option<PollResult<T, U, P>>) {
        let result = match self.future.poll(tokens) {
            Some(result) => result,
            None => {
                return None;
            },
        };
        let callback = self.f.take();
        match result {
            Ok(t) => Some(Ok(t)),
            Err(PollError::Other(e)) => match callback {
                Some(g) => Some(Err(PollError::Other(g(e)))),
                None => Some(Err(reused_as())),
            },
            Err(PollError::Panicked(p)) => Some(Err(PollError::Panicked(p))),
        }
    }

    fn schedule(&mut self, wake: Arc<Box<dyn Wake>>) -> (interest: Tokens) {
        self.future.schedule(wake)
    }

    fn tailcall(&mut self) -> (tail: Option<BoxFuture<T, U, P>>) {
        self.future.collapse();
        None
    }

    proof fn tailcall_is_idempotent(
        &self,
        mid: &Self,
        last: &Self,
        tail: Option<BoxFuture<T, U, P>>,
    ) {
        self.future().collapse_is_idempotent(&mid.future(), &last.future());
    }
}

} // verus!
