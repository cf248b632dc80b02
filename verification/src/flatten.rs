//! Flattening a future whose value is itself a future.

use crate::chain::{Chain, Stage};
use crate::error::{Abort, Payload, PollResult};
use crate::token::{TokenSet, Tokens};
use crate::util::Collapsed;
use crate::{BoxFuture, Future, IntoFuture, Wake};
use std::sync::Arc;
use vstd::prelude::*;

verus! {

/// Future for the `flatten` combinator, flattening a future-of-a-future to
/// get just the result of the final future.
#[verifier::reject_recursive_types(T)]
#[verifier::reject_recursive_types(E)]
#[verifier::reject_recursive_types(P)]
pub struct Flatten<A, T, E, U, P: Abort = Payload> where
    A: Future<T, E, P>,
    T: IntoFuture<U, E, P>,
    E: Send + 'static,
    U: Send + 'static,
 {
    state: Chain<A, T::Future, (), T, E, U, E, P>,
}

impl<A, T, E, U, P: Abort> Flatten<A, T, E, U, P> where
    A: Future<T, E, P>,
    T: IntoFuture<U, E, P>,
    E: Send + 'static,
    U: Send + 'static,
 {
    /// Where the chain stands.
    pub closed spec fn state(&self) -> Chain<A, T::Future, (), T, E, U, E, P> {
        self.state
    }
}

/// Creates the future that resolves as the future that `future` resolves
/// to.
pub fn new<A, T, E, U, P: Abort>(future: A) -> (t: Flatten<A, T, E, U, P>) where
    A: Future<T, E, P>,
    T: IntoFuture<U, E, P>,
    E: Send + 'static,
    U: Send + 'static,

    requires
        future.inv(),
        forall|t: T| future.may_resolve_to(Ok(t)) ==> t.convertible(),
    ensures
        t.inv(),
        t.state() == Chain::<A, T::Future, (), T, E, U, E, P>::First(Collapsed::Start(future), ()),
{
    Flatten { state: Chain::First(Collapsed::Start(future), ()) }
}

impl<A, T, E, U, P: Abort> Future<U, E, P> for Flatten<A, T, E, U, P> where
    A: Future<T, E, P>,
    T: IntoFuture<U, E, P>,
    E: Send + 'static,
    U: Send + 'static,
 {
    open spec fn inv(&self) -> bool {
        &&& self.state().inv()
        &&& self.state() matches Chain::First(a, _) ==> forall|t: T| #[trigger]
            a.may_resolve_to(Ok(t)) ==> t.convertible()
    }

    open spec fn spent(&self) -> bool {
        self.state().spent()
    }

    /// In the first stage: the errors of the first future, and what the
    /// futures may resolve to that are its values. Later: what the second
    /// future may resolve to.
    open spec fn may_resolve_to(&self, r: Result<U, E>) -> bool {
        match self.state() {
            Chain::First(a, _) => {
                ||| exists|t: T| #[trigger] a.may_resolve_to(Ok(t)) && t.converted().may_resolve_to(r)
                ||| match r {
                    Err(e) => a.may_resolve_to(Err(e)),
                    Ok(_) => false,
                }
            },
            past => past.later(r),
        }
    }

    /// While the first future is not ready nothing changes but that future.
    /// When it resolves to a value, the value is turned into a future, which
    /// is polled at once. An error goes through.
    open spec fn polls(&self, tokens: TokenSet, next: &Self, out: Option<PollResult<U, E, P>>) -> bool {
        match self.state() {
            Chain::First(a, unit) => exists|ra: Option<PollResult<T, E, P>>, a2: Collapsed<A, T, E, P>| #[trigger]
                a.polls(tokens, &a2, ra) && match ra {
                    None => next.state() == Chain::<A, T::Future, (), T, E, U, E, P>::First(a2, unit)
                        && out is None,
                    Some(Err(e)) => Chain::ends(&next.state(), out, Err(e)),
                    Some(Ok(t)) => Chain::follows(t.converted(), &next.state(), out),
                },
            past => past.forwards(tokens, &next.state(), out),
        }
    }

    open spec fn schedules(&self, next: &Self, interest: TokenSet) -> bool {
        self.state().schedules(&next.state(), interest)
    }

    open spec fn tailcalls(&self, next: &Self, tail: Option<BoxFuture<U, E, P>>) -> bool {
        self.state().tailcalls(&next.state(), tail)
    }

    fn poll(&mut self, tokens: &Tokens) -> (out: Option<PollResult<U, E, P>>) {
        match self.state.advance(tokens) {
            Stage::Pending => None,
            Stage::Forwarded(out) => out,
            Stage::Resolved(r, _) => match r {
                Ok(t) => self.state.follow(t.into_future()),
                Err(e) => Some(Err(e)),
            },
        }
    }

    /// A chain with nothing left to poll calls the waker on the spot.
    fn schedule(&mut self, wake: Arc<Box<dyn Wake>>) -> (interest: Tokens)
        ensures
            old(self).state() is Done ==> wake.woken(&interest),
    {
        self.state.schedule(wake)
    }

    fn tailcall(&mut self) -> (tail: Option<BoxFuture<U, E, P>>) {
        self.state.tailcall()
    }

    proof fn tailcall_is_idempotent(
        &self,
        mid: &Self,
        last: &Self,
        tail: Option<BoxFuture<U, E, P>>,
    ) {
        self.state().tailcall_is_idempotent(&mid.state(), &last.state(), tail);
    }
}

} // verus!
