//! Chaining a computation onto the outcome of a future, whatever it is.

use crate::chain::{Chain, Stage};
use crate::error::{Abort, Payload, PollError, PollResult};
use crate::token::{TokenSet, Tokens};
use crate::util::Collapsed;
use crate::{BoxFuture, Future, IntoFuture, Wake};
use std::sync::Arc;
use vstd::prelude::*;

verus! {

/// Future for the `then_with` combinator, chaining a computation onto the
/// end of another future regardless of its outcome.
#[verifier::reject_recursive_types(T)]
#[verifier::reject_recursive_types(E)]
#[verifier::reject_recursive_types(P)]
pub struct Then<A, B, F, T, E, U, V, P: Abort = Payload> where
    A: Future<T, E, P>,
    B: IntoFuture<U, V, P>,
    T: Send + 'static,
    E: Send + 'static,
    U: Send + 'static,
    V: Send + 'static,
 {
    state: Chain<A, B::Future, F, T, E, U, V, P>,
}

/// The declared outcome inside a poll result that is no abort.
pub open spec fn declared<T, E, P: Abort>(r: PollResult<T, E, P>) -> Result<T, E> {
    match r {
        Ok(t) => Ok(t),
        Err(PollError::Other(e)) => Err(e),
        Err(PollError::Panicked(_)) => arbitrary(),
    }
}

impl<A, B, F, T, E, U, V, P: Abort> Then<A, B, F, T, E, U, V, P> where
    A: Future<T, E, P>,
    B: IntoFuture<U, V, P>,
    T: Send + 'static,
    E: Send + 'static,
    U: Send + 'static,
    V: Send + 'static,
 {
    /// Where the chain stands.
    pub closed spec fn state(&self) -> Chain<A, B::Future, F, T, E, U, V, P> {
        self.state
    }
}

/// The closure fits the future it is chained onto: it can be called on every
/// outcome the future may resolve to, and what it then returns can be turned
/// into a future.
pub open spec fn fits<A, B, F, T, E, U, V, P: Abort>(f: F, a: Collapsed<A, T, E, P>) -> bool where
    A: Future<T, E, P>,
    F: FnOnce(Result<T, E>) -> B,
    B: IntoFuture<U, V, P>,
    T: Send + 'static,
    E: Send + 'static,
    U: Send + 'static,
    V: Send + 'static,
 {
    &&& forall|x: Result<T, E>| #[trigger] a.may_resolve_to(x) ==> f.requires((x,))
    &&& forall|x: Result<T, E>, b: B|
        a.may_resolve_to(x) && #[trigger] f.ensures((x,), b) ==> b.convertible()
}

/// Creates the future that runs `f` on the outcome of `future` and then
/// resolves as the future that `f` returned.
pub fn new<A, B, F, T, E, U, V, P: Abort>(future: A, f: F) -> (t: Then<A, B, F, T, E, U, V, P>) where
    A: Future<T, E, P>,
    B: IntoFuture<U, V, P>,
    F: FnOnce(Result<T, E>) -> B + Send + 'static,
    T: Send + 'static,
    E: Send + 'static,
    U: Send + 'static,
    V: Send + 'static,

    requires
        future.inv(),
        fits::<A, B, F, T, E, U, V, P>(f, Collapsed::Start(future)),
    ensures
        t.inv(),
        t.state() == Chain::<A, B::Future, F, T, E, U, V, P>::First(Collapsed::Start(future), f),
{
    Then { state: Chain::First(Collapsed::Start(future), f) }
}

impl<A, B, F, T, E, U, V, P: Abort> Future<U, V, P> for Then<A, B, F, T, E, U, V, P> where
    A: Future<T, E, P>,
    B: IntoFuture<U, V, P>,
    F: FnOnce(Result<T, E>) -> B + Send + 'static,
    T: Send + 'static,
    E: Send + 'static,
    U: Send + 'static,
    V: Send + 'static,
 {
    open spec fn inv(&self) -> bool {
        &&& self.state().inv()
        &&& self.state() matches Chain::First(a, f) ==> fits::<A, B, F, T, E, U, V, P>(f, a)
    }

    open spec fn spent(&self) -> bool {
        self.state().spent()
    }

    /// In the first stage: what the futures may resolve to that the closure
    /// makes of the outcomes of the first future. Later: what the second
    /// future may resolve to.
    open spec fn may_resolve_to(&self, r: Result<U, V>) -> bool {
        match self.state() {
            Chain::First(a, f) => exists|x: Result<T, E>, b: B|
                a.may_resolve_to(x) && #[trigger] f.ensures((x,), b)
                    && b.converted().may_resolve_to(r),
            past => past.later(r),
        }
    }

    /// While the first future is not ready nothing changes but that future.
    /// When it resolves to a value or to its declared error, the closure is
    /// run on that outcome and the future it returns is polled at once. An
    /// abort goes through and the closure is given up.
    open spec fn polls(&self, tokens: TokenSet, next: &Self, out: Option<PollResult<U, V, P>>) -> bool {
        match self.state() {
            Chain::First(a, f) => exists|ra: Option<PollResult<T, E, P>>, a2: Collapsed<A, T, E, P>| #[trigger]
                a.polls(tokens, &a2, ra) && match ra {
                    None => next.state() == Chain::<A, B::Future, F, T, E, U, V, P>::First(a2, f)
                        && out is None,
                    Some(Err(PollError::Panicked(p))) => Chain::ends(
                        &next.state(),
                        out,
                        Err(PollError::Panicked(p)),
                    ),
                    Some(r) => exists|b: B| #[trigger]
                        f.ensures((declared(r),), b) && Chain::follows(
                            b.converted(),
                            &next.state(),
                            out,
                        ),
                },
            past => past.forwards(tokens, &next.state(), out),
        }
    }

    open spec fn schedules(&self, next: &Self, interest: TokenSet) -> bool {
        self.state().schedules(&next.state(), interest)
    }

    open spec fn tailcalls(&self, next: &Self, tail: Option<BoxFuture<U, V, P>>) -> bool {
        self.state().tailcalls(&next.state(), tail)
    }

    fn poll(&mut self, tokens: &Tokens) -> (out: Option<PollResult<U, V, P>>) {
        match self.state.advance(tokens) {
            Stage::Pending => None,
            Stage::Forwarded(out) => out,
            Stage::Resolved(r, f) => match r {
                Ok(t) => {
                    let b = f(Ok(t));
                    self.state.follow(b.into_future())
                },
                Err(PollError::Other(e)) => {
                    let b = f(Err(e));
                    self.state.follow(b.into_future())
                },
                Err(PollError::Panicked(p)) => Some(Err(PollError::Panicked(p))),
            },
        }
    }

    /// A chain with nothing left to poll calls the waker on the spot.
    fn schedule(&mut self, wake: Arc<Box<dyn Wake>>) -> (interest: Tokens)
        ensures
            old(self).state() is Done ==> wake.woken(&interest),
    {
        self.state.schedule(wake)
    }

    fn tailcall(&mut self) -> (tail: Option<BoxFuture<U, V, P>>) {
        self.state.tailcall()
    }

    proof fn tailcall_is_idempotent(
        &self,
        mid: &Self,
        last: &Self,
        tail: Option<BoxFuture<U, V, P>>,
    ) {
        self.state().tailcall_is_idempotent(&mid.state(), &last.state(), tail);
    }
}

} // verus!
