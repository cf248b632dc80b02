//! Transforming the payload of a future's aborts.

use crate::error::{Abort, Payload, PollError, PollResult};
use crate::token::{TokenSet, Tokens};
use crate::util::Collapsed;
use crate::{BoxFuture, Future, Wake};
use std::sync::Arc;
use vstd::prelude::*;

verus! {

/// Future for the `map_abort` combinator, changing the type of the payload
/// that a future's aborts carry. It makes a future whose aborts carry more
/// than a plain payload, such as a select, fit where a plain payload is
/// expected.
#[verifier::reject_recursive_types(T)]
#[verifier::reject_recursive_types(E)]
#[verifier::reject_recursive_types(P)]
pub struct MapAbort<A, G, T, E, P: Abort = Payload> where
    A: Future<T, E, P>,
    T: Send + 'static,
    E: Send + 'static,
 {
    future: Collapsed<A, T, E, P>,
    g: Option<G>,
}

/// What a `map_abort` makes of what its future returned. Only the payload of
/// an abort is transformed; a value and a declared error go through. The
/// closure is given up as soon as the future has resolved, whether it was
/// needed or not.
pub open spec fn abort_mapped<G, T, E, P: Abort, Q: Abort>(
    g: Option<G>,
    inner: Option<PollResult<T, E, P>>,
    next_g: Option<G>,
    out: Option<PollResult<T, E, Q>>,
) -> bool where G: FnOnce(P) -> Q {
    match inner {
        None => out is None && next_g == g,
        Some(Ok(t)) => next_g is None && out == Some::<PollResult<T, E, Q>>(Ok(t)),
        Some(Err(PollError::Other(e))) => next_g is None && out == Some::<PollResult<T, E, Q>>(
            Err(PollError::Other(e)),
        ),
        Some(Err(PollError::Panicked(p))) => next_g is None && match g {
            Some(h) => out matches Some(Err(PollError::Panicked(q))) && h.ensures((p,), q),
            None => out == Some::<PollResult<T, E, Q>>(Err(PollError::Panicked(Q::reused_spec()))),
        },
    }
}

/// The closure can be called on every payload, and it makes the payload of
/// reuse of the payload of reuse.
pub open spec fn keeps_reuse<G, P: Abort, Q: Abort>(g: G) -> bool where G: FnOnce(P) -> Q {
    &&& forall|p: P| g.requires((p,))
    &&& forall|q: Q| g.ensures((P::reused_spec(),), q) ==> q == Q::reused_spec()
}

impl<A, G, T, E, P: Abort> MapAbort<A, G, T, E, P> where
    A: Future<T, E, P>,
    T: Send + 'static,
    E: Send + 'static,
 {
    /// The future whose aborts are transformed.
    pub closed spec fn future(&self) -> Collapsed<A, T, E, P> {
        self.future
    }

    /// The closure, until the future has resolved.
    pub closed spec fn closure(&self) -> Option<G> {
        self.g
    }
}

/// Creates the future that applies `g` to the payload of an abort of
/// `future`.
pub fn new<A, G, T, E, P: Abort, Q: Abort>(future: A, g: G) -> (m: MapAbort<A, G, T, E, P>) where
    A: Future<T, E, P>,
    G: FnOnce(P) -> Q + Send + 'static,
    T: Send + 'static,
    E: Send + 'static,

    requires
        future.inv(),
        keeps_reuse::<G, P, Q>(g),
    ensures
        m.inv(),
        m.future() == Collapsed::<A, T, E, P>::Start(future),
        m.closure() == Some(g),
{
    MapAbort { future: Collapsed::Start(future), g: Some(g) }
}

impl<A, G, T, E, P: Abort, Q: Abort> Future<T, E, Q> for MapAbort<A, G, T, E, P> where
    A: Future<T, E, P>,
    G: FnOnce(P) -> Q + Send + 'static,
    T: Send + 'static,
    E: Send + 'static,
 {
    open spec fn inv(&self) -> bool {
        &&& self.future().inv()
        &&& self.closure() matches Some(h) ==> keeps_reuse::<G, P, Q>(h)
        &&& self.closure() is None ==> self.future().spent()
    }

    open spec fn spent(&self) -> bool {
        self.future().spent()
    }

    open spec fn may_resolve_to(&self, r: Result<T, E>) -> bool {
        self.future().may_resolve_to(r)
    }

    open spec fn polls(&self, tokens: TokenSet, next: &Self, out: Option<PollResult<T, E, Q>>) -> bool {
        exists|inner: Option<PollResult<T, E, P>>| #[trigger]
            self.future().polls(tokens, &next.future(), inner) && abort_mapped(
                self.closure(),
                inner,
                next.closure(),
                out,
            )
    }

    open spec fn schedules(&self, next: &Self, interest: TokenSet) -> bool {
        self.future().schedules(&next.future(), interest) && next.closure() == self.closure()
    }

    open spec fn tailcalls(&self, next: &Self, tail: Option<BoxFuture<T, E, Q>>) -> bool {
        &&& tail is None
        &&& self.future().collapses(&next.future())
        &&& next.closure() == self.closure()
    }

    fn poll(&mut self, tokens: &Tokens) -> (out: Option<PollResult<T, E, Q>>) {
        let result = match self.future.poll(tokens) {
            Some(result) => result,
            None => {
                return None;
            },
        };
        let callback = self.g.take();
        match result {
            Ok(t) => Some(Ok(t)),
            Err(PollError::Other(e)) => Some(Err(PollError::Other(e))),
            Err(PollError::Panicked(p)) => match callback {
                Some(h) => Some(Err(PollError::Panicked(h(p)))),
                None => Some(Err(PollError::Panicked(Q::reused()))),
            },
        }
    }

    fn schedule(&mut self, wake: Arc<Box<dyn Wake>>) -> (interest: Tokens) {
        self.future.schedule(wake)
    }

    fn tailcall(&mut self) -> (tail: Option<BoxFuture<T, E, Q>>) {
        self.future.collapse();
        None
    }

    proof fn tailcall_is_idempotent(
        &self,
        mid: &Self,
        last: &Self,
        tail: Option<BoxFuture<T, E, Q>>,
    ) {
        self.future().collapse_is_idempotent(&mid.future(), &last.future());
    }
}

} // verus!
