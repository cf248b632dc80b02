//! Chaining a computation onto the value of a future.

use crate::chain::{Chain, Stage};
use crate::error::{Abort, Payload, PollResult};
use crate::token::{TokenSet, Tokens};
use crate::util::Collapsed;
use crate::{BoxFuture, Future, IntoFuture, Wake};
use std::sync::Arc;
use vstd::prelude::*;

verus! {

/// Future for the `and_then` combinator, chaining a computation onto the end
/// of another future which completes successfully.
#[verifier::reject_recursive_types(T)]
#[verifier::reject_recursive_types(E)]
#[verifier::reject_recursive_types(P)]
pub struct AndThen<A, B, F, T, E, U, P: Abort = Payload> where
    A: Future<T, E, P>,
    B: IntoFuture<U, E, P>,
    T: Send + 'static,
    E: Send + 'static,
    U: Send + 'static,
 {
    state: Chain<A, B::Future, F, T, E, U, E, P>,
}

impl<A, B, F, T, E, U, P: Abort> AndThen<A, B, F, T, E, U, P> where
    A: Future<T, E, P>,
    B: IntoFuture<U, E, P>,
    T: Send + 'static,
    E: Send + 'static,
    U: Send + 'static,
 {
    /// Where the chain stands.
    pub closed spec fn state(&self) -> Chain<A, B::Future, F, T, E, U, E, P> {
        self.state
    }
}

/// The closure fits the future it is chained onto: it can be called on every
/// value the future may resolve to, and what it then returns can be turned
/// into a future.
pub open spec fn fits<A, B, F, T, E, U, P: Abort>(f: F, a: Collapsed<A, T, E, P>) -> bool where
    A: Future<T, E, P>,
    F: FnOnce(T) -> B,
    B: IntoFuture<U, E, P>,
    T: Send + 'static,
    E: Send + 'static,
    U: Send + 'static,
 {
    &&& forall|t: T| #[trigger] a.may_resolve_to(Ok(t)) ==> f.requires((t,))
    &&& forall|t: T, b: B|
        a.may_resolve_to(Ok(t)) && #[trigger] f.ensures((t,), b) ==> b.convertible()
}

/// Creates the future that runs `f` on the value of `future` and then
/// resolves as the future that `f` returned.
pub fn new<A, B, F, T, E, U, P: Abort>(future: A, f: F) -> (t: AndThen<A, B, F, T, E, U, P>) where
    A: Future<T, E, P>,
    B: IntoFuture<U, E, P>,
    F: FnOnce(T) -> B + Send + 'static,
    T: Send + 'static,
    E: Send + 'static,
    U: Send + 'static,

    requires
        future.inv(),
        fits::<A, B, F, T, E, U, P>(f, Collapsed::Start(future)),
    ensures
        t.inv(),
        t.state() == Chain::<A, B::Future, F, T, E, U, E, P>::First(Collapsed::Start(future), f),
{
    AndThen { state: Chain::First(Collapsed::Start(future), f) }
}

impl<A, B, F, T, E, U, P: Abort> Future<U, E, P> for AndThen<A, B, F, T, E, U, P> where
    A: Future<T, E, P>,
    B: IntoFuture<U, E, P>,
    F: FnOnce(T) -> B + Send + 'static,
    T: Send + 'static,
    E: Send + 'static,
    U: Send + 'static,
 {
    open spec fn inv(&self) -> bool {
        &&& self.state().inv()
        &&& self.state() matches Chain::First(a, f) ==> fits::<A, B, F, T, E, U, P>(f, a)
    }

    open spec fn spent(&self) -> bool {
        self.state().spent()
    }

    /// In the first stage: the errors of the first future, and what the
    /// futures may resolve to that the closure makes of its values. Later:
    /// what the second future may resolve to.
    open spec fn may_resolve_to(&self, r: Result<U, E>) -> bool {
        match self.state() {
            Chain::First(a, f) => {
                ||| exists|t: T, b: B|
                    a.may_resolve_to(Ok(t)) && #[trigger] f.ensures((t,), b)
                        && b.converted().may_resolve_to(r)
                ||| match r {
                    Err(e) => a.may_resolve_to(Err(e)),
                    Ok(_) => false,
                }
            },
            past => past.later(r),
        }
    }

    /// While the first future is not ready nothing changes but that future.
    /// When it resolves to a value, the closure is run on the value and the
    /// future it returns is polled at once. An error goes through and the
    /// closure is given up.
    open spec fn polls(&self, tokens: TokenSet, next: &Self, out: Option<PollResult<U, E, P>>) -> bool {
        match self.state() {
            Chain::First(a, f) => exists|ra: Option<PollResult<T, E, P>>, a2: Collapsed<A, T, E, P>| #[trigger]
                a.polls(tokens, &a2, ra) && match ra {
                    None => next.state() == Chain::<A, B::Future, F, T, E, U, E, P>::First(a2, f)
                        && out is None,
                    Some(Err(e)) => Chain::ends(&next.state(), out, Err(e)),
                    Some(Ok(t)) => exists|b: B| #[trigger]
                        f.ensures((t,), b) && Chain::follows(b.converted(), &next.state(), out),
                },
            past => past.forwards(tokens, &next.state(), out),
        }
    }

    open spec fn schedules(&self, next: &Self, interest: TokenSet) -> bool {
        self.state().schedules(&next.state(), interest)
    }

    open spec fn tailcalls(&self, next: &Self, tail: Option<BoxFuture<U, E, P>>) -> bool {
        self.state().tailcalls(&next.state(), tail)
    }

    fn poll(&mut self, tokens: &Tokens) -> (out: Option<PollResult<U, E, P>>) {
        match self.state.advance(tokens) {
            Stage::Pending => None,
            Stage::Forwarded(out) => out,
            Stage::Resolved(r, f) => match r {
                Ok(t) => {
                    let b = f(t);
                    self.state.follow(b.into_future())
                },
                Err(e) => Some(Err(e)),
            },
        }
    }

    /// A chain with nothing left to poll calls the waker on the spot.
    fn schedule(&mut self, wake: Arc<Box<dyn Wake>>) -> (interest: Tokens)
        ensures
            old(self).state() is Done ==> wake.woken(&interest),
    {
        self.state.schedule(wake)
    }

    fn tailcall(&mut self) -> (tail: Option<BoxFuture<U, E, P>>) {
        self.state.tailcall()
    }

    proof fn tailcall_is_idempotent(
        &self,
        mid: &Self,
        last: &Self,
        tail: Option<BoxFuture<U, E, P>>,
    ) {
        self.state().tailcall_is_idempotent(&mid.state(), &last.state(), tail);
    }
}

} // verus!
