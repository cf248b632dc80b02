//! Helpers shared by the futures of this crate.

use crate::error::{Abort, Payload, PollResult};
use crate::token::{TokenSet, Tokens};
use crate::{BoxFuture, Future, Wake};
use std::sync::Arc;
use vstd::prelude::*;

verus! {

/// The schedule of a future that is ready at once: the waker is called on
/// the spot with every token, which asks the driver to poll now.
pub fn wake_now(wake: Arc<Box<dyn Wake>>) -> (interest: Tokens)
    requires
        crate::wakeable(&wake),
    ensures
        interest@ == TokenSet::All,
        wake.woken(&interest),
{
    let every = Tokens::all();
    wake.wake(&every);
    every
}

/// A future or the replacement that a tail call gave for it.
#[verifier::reject_recursive_types(T)]
#[verifier::reject_recursive_types(E)]
#[verifier::reject_recursive_types(P)]
pub enum Collapsed<A, T: Send + 'static, E: Send + 'static, P: Abort = Payload> {
    /// The future as it was given.
    Start(A),
    /// The replacement.
    Tail(BoxFuture<T, E, P>),
}

impl<A: Future<T, E, P>, T: Send + 'static, E: Send + 'static, P: Abort> Collapsed<A, T, E, P> {
    /// Well-formedness of whichever future is held.
    pub open spec fn inv(&self) -> bool {
        match self {
            Collapsed::Start(a) => a.inv(),
            Collapsed::Tail(b) => b.inv(),
        }
    }

    /// Whether the held future has handed out its result.
    pub open spec fn spent(&self) -> bool {
        match self {
            Collapsed::Start(a) => a.spent(),
            Collapsed::Tail(b) => b.spent(),
        }
    }

    /// An outcome that the held future may still resolve to.
    pub open spec fn may_resolve_to(&self, r: Result<T, E>) -> bool {
        match self {
            Collapsed::Start(a) => a.may_resolve_to(r),
            Collapsed::Tail(b) => b.may_resolve_to(r),
        }
    }

    /// No outcome has been added from `before` to `self`.
    pub open spec fn narrows(&self, before: &Self) -> bool {
        forall|r: Result<T, E>| #[trigger] self.may_resolve_to(r) ==> before.may_resolve_to(r)
    }

    /// A poll of the held future may lead to `next` and return `out`.
    pub open spec fn polls(
        &self,
        tokens: TokenSet,
        next: &Self,
        out: Option<PollResult<T, E, P>>,
    ) -> bool {
        match self {
            Collapsed::Start(a) => next matches Collapsed::Start(a2) && a.polls(tokens, &a2, out),
            Collapsed::Tail(b) => next matches Collapsed::Tail(b2) && b.polls(tokens, &b2, out),
        }
    }

    /// A schedule of the held future may lead to `next` and return `interest`.
    pub open spec fn schedules(&self, next: &Self, interest: TokenSet) -> bool {
        match self {
            Collapsed::Start(a) => next matches Collapsed::Start(a2) && a.schedules(
                &a2,
                interest,
            ),
            Collapsed::Tail(b) => next matches Collapsed::Tail(b2) && b.schedules(&b2, interest),
        }
    }

    /// A tail call of `a` may return `tail` as its replacement.
    pub open spec fn offers(a: A, tail: BoxFuture<T, E, P>) -> bool {
        exists|a2: A| #[trigger] a.tailcalls(&a2, Some(tail))
    }

    /// A collapse may lead to `next`: the same future after a tail call that
    /// gave nothing, or the replacement that it gave.
    pub open spec fn collapses(&self, next: &Self) -> bool {
        match self {
            Collapsed::Start(a) => match next {
                Collapsed::Start(a2) => a.tailcalls(&a2, None),
                Collapsed::Tail(b) => Self::offers(*a, *b),
            },
            Collapsed::Tail(_) => *next == *self,
        }
    }

    /// Polls the held future.
    pub fn poll(&mut self, tokens: &Tokens) -> (out: Option<PollResult<T, E, P>>)
        requires
            old(self).inv(),
        ensures
            final(self).inv(),
            old(self).polls(tokens@, final(self), out),
            old(self).spent() ==> out == Some::<PollResult<T, E, P>>(Err(crate::error::PollError::Panicked(P::reused_spec()))),
            out is Some ==> final(self).spent(),
            out matches Some(Ok(t)) ==> old(self).may_resolve_to(Ok(t)),
            out matches Some(Err(crate::error::PollError::Other(e))) ==> old(self).may_resolve_to(
                Err(e),
            ),
            final(self).narrows(old(self)),
    {
        match self {
            Collapsed::Start(a) => a.poll(tokens),
            Collapsed::Tail(b) => b.poll(tokens),
        }
    }

    /// Schedules the held future.
    pub fn schedule(&mut self, wake: Arc<Box<dyn Wake>>) -> (interest: Tokens)
        requires
            old(self).inv(),
            crate::wakeable(&wake),
        ensures
            final(self).inv(),
            old(self).schedules(final(self), interest@),
            final(self).spent() == old(self).spent(),
            final(self).narrows(old(self)),
    {
        match self {
            Collapsed::Start(a) => a.schedule(wake),
            Collapsed::Tail(b) => b.schedule(wake),
        }
    }

    /// Replaces the future by its tail, if it offers one.
    pub fn collapse(&mut self)
        requires
            old(self).inv(),
        ensures
            final(self).inv(),
            old(self).collapses(final(self)),
            final(self).spent() == old(self).spent(),
            final(self).narrows(old(self)),
    {
        let tail = match self {
            Collapsed::Start(a) => a.tailcall(),
            Collapsed::Tail(_) => None,
        };
        let ghost mid = *self;
        if let Some(b) = tail {
            proof {
                if let (Collapsed::Start(a), Collapsed::Start(a2)) = (*old(self), mid) {
                    assert(a.tailcalls(&a2, Some(b)));
                    assert(Self::offers(a, b));
                }
            }
            *self = Collapsed::Tail(b);
        }
    }

    /// Collapsing twice leads where collapsing once does.
    pub proof fn collapse_is_idempotent(&self, mid: &Self, last: &Self)
        requires
            self.inv(),
            self.collapses(mid),
            mid.collapses(last),
        ensures
            *last == *mid,
    {
        match (self, mid, last) {
            (Collapsed::Start(a), Collapsed::Start(a2), Collapsed::Start(a3)) => {
                a.tailcall_is_idempotent(a2, a3, None);
            },
            (Collapsed::Start(a), Collapsed::Start(a2), Collapsed::Tail(b)) => {
                let a3 = choose|a3: A| #[trigger] a2.tailcalls(&a3, Some(*b));
                a.tailcall_is_idempotent(a2, &a3, Some(*b));
            },
            _ => {},
        }
    }
}

} // verus!
