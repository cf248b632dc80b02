//! Chaining a computation onto the error of a future.

use crate::chain::{Chain, Stage};
use crate::error::{Abort, Payload, PollError, PollResult};
use crate::token::{TokenSet, Tokens};
use crate::util::Collapsed;
use crate::{BoxFuture, Future, IntoFuture, Wake};
use std::sync::Arc;
use vstd::prelude::*;

verus! {

/// Future for the `or_else` combinator, chaining a computation onto the end
/// of a future which fails with an error.
#[verifier::reject_recursive_types(T)]
#[verifier::reject_recursive_types(E)]
#[verifier::reject_recursive_types(P)]
pub struct OrElse<A, B, F, T, E, U, P: Abort = Payload> where
    A: Future<T, E, P>,
    B: IntoFuture<T, U, P>,
    T: Send + 'static,
    E: Send + 'static,
    U: Send + 'static,
 {
    state: Chain<A, B::Future, F, T, E, T, U, P>,
}

impl<A, B, F, T, E, U, P: Abort> OrElse<A, B, F, T, E, U, P> where
    A: Future<T, E, P>,
    B: IntoFuture<T, U, P>,
    T: Send + 'static,
    E: Send + 'static,
    U: Send + 'static,
 {
    /// Where the chain stands.
    pub closed spec fn state(&self) -> Chain<A, B::Future, F, T, E, T, U, P> {
        self.state
    }
}

/// The closure fits the future it is chained onto: it can be called on every
/// declared error the future may resolve to, and what it then returns can be
/// turned into a future.
pub open spec fn fits<A, B, F, T, E, U, P: Abort>(f: F, a: Collapsed<A, T, E, P>) -> bool where
    A: Future<T, E, P>,
    F: FnOnce(E) -> B,
    B: IntoFuture<T, U, P>,
    T: Send + 'static,
    E: Send + 'static,
    U: Send + 'static,
 {
    &&& forall|e: E| #[trigger] a.may_resolve_to(Err(e)) ==> f.requires((e,))
    &&& forall|e: E, b: B|
        a.may_resolve_to(Err(e)) && #[trigger] f.ensures((e,), b) ==> b.convertible()
}

/// Creates the future that runs `f` on the error of `future` and then
/// resolves as the future that `f` returned.
pub fn new<A, B, F, T, E, U, P: Abort>(future: A, f: F) -> (t: OrElse<A, B, F, T, E, U, P>) where
    A: Future<T, E, P>,
    B: IntoFuture<T, U, P>,
    F: FnOnce(E) -> B + Send + 'static,
    T: Send + 'static,
    E: Send + 'static,
    U: Send + 'static,

    requires
        future.inv(),
        fits::<A, B, F, T, E, U, P>(f, Collapsed::Start(future)),
    ensures
        t.inv(),
        t.state() == Chain::<A, B::Future, F, T, E, T, U, P>::First(Collapsed::Start(future), f),
{
    OrElse { state: Chain::First(Collapsed::Start(future), f) }
}

impl<A, B, F, T, E, U, P: Abort> Future<T, U, P> for OrElse<A, B, F, T, E, U, P> where
    A: Future<T, E, P>,
    B: IntoFuture<T, U, P>,
    F: FnOnce(E) -> B + Send + 'static,
    T: Send + 'static,
    E: Send + 'static,
    U: Send + 'static,
 {
    open spec fn inv(&self) -> bool {
        &&& self.state().inv()
        &&& self.state() matches Chain::First(a, f) ==> fits::<A, B, F, T, E, U, P>(f, a)
    }

    open spec fn spent(&self) -> bool {
        self.state().spent()
    }

    /// In the first stage: the values of the first future, and what the
    /// futures may resolve to that the closure makes of its errors. Later:
    /// what the second future may resolve to.
    open spec fn may_resolve_to(&self, r: Result<T, U>) -> bool {
        match self.state() {
            Chain::First(a, f) => {
                ||| exists|e: E, b: B|
                    a.may_resolve_to(Err(e)) && #[trigger] f.ensures((e,), b)
                        && b.converted().may_resolve_to(r)
                ||| match r {
                    Ok(t) => a.may_resolve_to(Ok(t)),
                    Err(_) => false,
                }
            },
            past => past.later(r),
        }
    }

    /// While the first future is not ready nothing changes but that future.
    /// When it resolves to its declared error, the closure is run on the
    /// error and the future it returns is polled at once. A value and an
    /// abort go through and the closure is given up.
    open spec fn polls(&self, tokens: TokenSet, next: &Self, out: Option<PollResult<T, U, P>>) -> bool {
        match self.state() {
            Chain::First(a, f) => exists|ra: Option<PollResult<T, E, P>>, a2: Collapsed<A, T, E, P>| #[trigger]
                a.polls(tokens, &a2, ra) && match ra {
                    None => next.state() == Chain::<A, B::Future, F, T, E, T, U, P>::First(a2, f)
                        && out is None,
                    Some(Ok(t)) => Chain::ends(&next.state(), out, Ok(t)),
                    Some(Err(PollError::Panicked(p))) => Chain::ends(
                        &next.state(),
                        out,
                        Err(PollError::Panicked(p)),
                    ),
                    Some(Err(PollError::Other(e))) => exists|b: B| #[trigger]
                        f.ensures((e,), b) && Chain::follows(b.converted(), &next.state(), out),
                },
            past => past.forwards(tokens, &next.state(), out),
        }
    }

    open spec fn schedules(&self, next: &Self, interest: TokenSet) -> bool {
        self.state().schedules(&next.state(), interest)
    }

    open spec fn tailcalls(&self, next: &Self, tail: Option<BoxFuture<T, U, P>>) -> bool {
        self.state().tailcalls(&next.state(), tail)
    }

    fn poll(&mut self, tokens: &Tokens) -> (out: Option<PollResult<T, U, P>>) {
        match self.state.advance(tokens) {
            Stage::Pending => None,
            Stage::Forwarded(out) => out,
            Stage::Resolved(r, f) => match r {
                Ok(t) => Some(Ok(t)),
                Err(PollError::Other(e)) => {
                    let b = f(e);
                    self.state.follow(b.into_future())
                },
                Err(PollError::Panicked(p)) => Some(Err(PollError::Panicked(p))),
            },
        }
    }

    /// A chain with nothing left to poll calls the waker on the spot.
    fn schedule(&mut self, wake: Arc<Box<dyn Wake>>) -> (interest: Tokens)
        ensures
            old(self).state() is Done ==> wake.woken(&interest),
    {
        self.state.schedule(wake)
    }

    fn tailcall(&mut self) -> (tail: Option<BoxFuture<T, U, P>>) {
        self.state.tailcall()
    }

    proof fn tailcall_is_idempotent(
        &self,
        mid: &Self,
        last: &Self,
        tail: Option<BoxFuture<T, U, P>>,
    ) {
        self.state().tailcall_is_idempotent(&mid.state(), &last.state(), tail);
    }
}

} // verus!
