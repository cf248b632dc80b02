//! Transforming the value of a future.

use crate::error::{Abort, Payload, PollError, PollResult, reused_as};
use crate::token::{TokenSet, Tokens};
use crate::util::Collapsed;
use crate::{BoxFuture, Future, Wake};
use std::sync::Arc;
use vstd::prelude::*;

verus! {

/// Future for the `map` combinator, changing the type of a future's value.
#[verifier::reject_recursive_types(T)]
#[verifier::reject_recursive_types(E)]
#[verifier::reject_recursive_types(P)]
pub struct MapOk<A, F, T, E, P: Abort = Payload> where A: Future<T, E, P>, T: Send + 'static, E: Send + 'static {
    future: Collapsed<A, T, E, P>,
    f: Option<F>,
}

/// What a `map` makes of what its future returned. The closure is given up
/// as soon as the future has resolved, whether it was needed or not.
pub open spec fn mapped<F, T, U, E, P: Abort>(
    f: Option<F>,
    inner: Option<PollResult<T, E, P>>,
    next_f: Option<F>,
    out: Option<PollResult<U, E, P>>,
) -> bool where F: FnOnce(T) -> U {
    match inner {
        None => out is None && next_f == f,
        Some(Ok(t)) => next_f is None && match f {
            Some(g) => out matches Some(Ok(u)) && g.ensures((t,), u),
            None => out == Some::<PollResult<U, E, P>>(Err(PollError::Panicked(P::reused_spec()))),
        },
        Some(Err(e)) => next_f is None && out == Some::<PollResult<U, E, P>>(Err(e)),
    }
}

impl<A, F, T, E, P: Abort> MapOk<A, F, T, E, P> where A: Future<T, E, P>, T: Send + 'static, E: Send + 'static {
    /// The future whose value is transformed.
    pub closed spec fn future(&self) -> Collapsed<A, T, E, P> {
        self.future
    }

    /// The closure, until the future has resolved.
    pub closed spec fn closure(&self) -> Option<F> {
        self.f
    }
}

/// Creates the future that applies `f` to the value of `future`.
pub fn new<A, F, T, E, U, P: Abort>(future: A, f: F) -> (m: MapOk<A, F, T, E, P>) where
    A: Future<T, E, P>,
    F: FnOnce(T) -> U + Send + 'static,
    T: Send + 'static,
    E: Send + 'static,
    U: Send + 'static,

    requires
        future.inv(),
        forall|t: T| future.may_resolve_to(Ok(t)) ==> f.requires((t,)),
    ensures
        m.inv(),
        m.future() == Collapsed::<A, T, E, P>::Start(future),
        m.closure() == Some(f),
{
    MapOk { future: Collapsed::Start(future), f: Some(f) }
}

impl<A, F, T, E, U, P: Abort> Future<U, E, P> for MapOk<A, F, T, E, P> where
    A: Future<T, E, P>,
    F: FnOnce(T) -> U + Send + 'static,
    T: Send + 'static,
    E: Send + 'static,
    U: Send + 'static,
 {
    open spec fn inv(&self) -> bool {
        &&& self.future().inv()
        &&& self.closure() matches Some(g) ==> forall|t: T| #[trigger]
            self.future().may_resolve_to(Ok(t)) ==> g.requires((t,))
    }

    open spec fn spent(&self) -> bool {
        self.future().spent()
    }

    /// The values the closure makes of the values of the future, and the
    /// errors of the future.
    open spec fn may_resolve_to(&self, r: Result<U, E>) -> bool {
        match r {
            Ok(u) => self.closure() matches Some(g) && exists|t: T| #[trigger]
                self.future().may_resolve_to(Ok(t)) && g.ensures((t,), u),
            Err(e) => self.future().may_resolve_to(Err(e)),
        }
    }

    open spec fn polls(&self, tokens: TokenSet, next: &Self, out: Option<PollResult<U, E, P>>) -> bool {
        exists|inner: Option<PollResult<T, E, P>>| #[trigger]
            self.future().polls(tokens, &next.future(), inner) && mapped(
                self.closure(),
                inner,
                next.closure(),
                out,
            )
    }

    open spec fn schedules(&self, next: &Self, interest: TokenSet) -> bool {
        self.future().schedules(&next.future(), interest) && next.closure() == self.closure()
    }

    open spec fn tailcalls(&self, next: &Self, tail: Option<BoxFuture<U, E, P>>) -> bool {
        &&& tail is None
        &&& self.future().collapses(&next.future())
        &&& next.closure() == self.closure()
    }

    fn poll(&mut self, tokens: &Tokens) -> (out: Option<PollResult<U, E, P>>) {
        let result = match self.future.poll(tokens) {
            Some(result) => result,
            None => {
                return None;
            },
        };
        let callback = self.f.take();
        match result {
            Ok(t) => match callback {
                Some(g) => Some(Ok(g(t))),
                None => Some(Err(reused_as())),
            },
            Err(e) => Some(Err(e)),
        }
    }

    fn schedule(&mut self, wake: Arc<Box<dyn Wake>>) -> (interest: Tokens) {
        self.future.schedule(wake)
    }

    fn tailcall(&mut self) -> (tail: Option<BoxFuture<U, E, P>>) {
        self.future.collapse();
        None
    }

    proof fn tailcall_is_idempotent(
        &self,
        mid: &Self,
        last: &Self,
        tail: Option<BoxFuture<U, E, P>>,
    ) {
        self.future().collapse_is_idempotent(&mid.future(), &last.future());
    }
}

} // verus!
