//! The two-stage state that the chaining combinators share: a first future
//! with the data that decides what follows it, then the future that follows.

use crate::error::{Abort, Payload, PollError, PollResult, reused_as};
use crate::token::{TokenSet, Tokens};
use crate::util::{wake_now, Collapsed};
use crate::{BoxFuture, Future, Wake};
use std::marker::PhantomData;
use std::sync::Arc;
use vstd::prelude::*;

verus! {

/// Where a chain stands.
#[verifier::reject_recursive_types(T)]
#[verifier::reject_recursive_types(E)]
#[verifier::reject_recursive_types(P)]
pub enum Chain<A, B, C, T, E, U, V, P: Abort = Payload> where
    A: Future<T, E, P>,
    B: Future<U, V, P>,
    T: Send + 'static,
    E: Send + 'static,
    U: Send + 'static,
    V: Send + 'static,
 {
    /// The first future is being polled; the data waits for its result.
    First(Collapsed<A, T, E, P>, C),
    /// The first future has resolved and the data has produced the future
    /// that is now being polled.
    Second(B),
    /// Nothing is left to poll.
    Done(PhantomData<(U, V)>),
}

/// What polling a chain's current stage led to.
pub enum Stage<C, T, E, U, V, P: Abort = Payload> {
    /// The first future is not ready.
    Pending,
    /// The first future has just resolved; the data is handed out with its
    /// result.
    Resolved(PollResult<T, E, P>, C),
    /// The chain was past its first stage; this is what the poll of the
    /// later stage returned.
    Forwarded(Option<PollResult<U, V, P>>),
}

impl<A, B, C, T, E, U, V, P: Abort> Chain<A, B, C, T, E, U, V, P> where
    A: Future<T, E, P>,
    B: Future<U, V, P>,
    T: Send + 'static,
    E: Send + 'static,
    U: Send + 'static,
    V: Send + 'static,
 {
    /// The futures that are held are well formed.
    pub open spec fn inv(&self) -> bool {
        match self {
            Chain::First(a, _) => a.inv(),
            Chain::Second(b) => b.inv(),
            Chain::Done(_) => true,
        }
    }

    /// Whether the chain has handed out its result.
    pub open spec fn spent(&self) -> bool {
        match self {
            Chain::First(_, _) => false,
            Chain::Second(b) => b.spent(),
            Chain::Done(_) => true,
        }
    }

    /// An outcome that a chain past its first stage may still resolve to.
    pub open spec fn later(&self, r: Result<U, V>) -> bool {
        match self {
            Chain::Second(b) => b.may_resolve_to(r),
            _ => false,
        }
    }

    /// No outcome has been added to the current stage from `before` to
    /// `self`, and the data of a first stage is the same.
    pub open spec fn narrows(&self, before: &Self) -> bool {
        match before {
            Chain::First(a, c) => self matches Chain::First(a2, c2) ==> c2 == c && a2.narrows(a),
            _ => !(self is First) && forall|r: Result<U, V>| #[trigger]
                self.later(r) ==> before.later(r),
        }
    }

    /// A poll of a chain that is past its first stage: the second future is
    /// polled, and a chain with nothing left reports reuse.
    pub open spec fn forwards(
        &self,
        tokens: TokenSet,
        next: &Self,
        out: Option<PollResult<U, V, P>>,
    ) -> bool {
        match self {
            Chain::First(_, _) => false,
            Chain::Second(b) => next matches Chain::Second(b2) && b.polls(tokens, &b2, out),
            Chain::Done(_) => next is Done && out == Some::<PollResult<U, V, P>>(
                Err(PollError::Panicked(P::reused_spec())),
            ),
        }
    }

    /// The chain has resolved without a second stage.
    pub open spec fn ends(next: &Self, out: Option<PollResult<U, V, P>>, with: PollResult<U, V, P>) -> bool {
        next is Done && out == Some(with)
    }

    /// The future `b` follows the first stage: it is polled at once, with no
    /// information on what has happened, and becomes the second stage.
    pub open spec fn follows(b: B, next: &Self, out: Option<PollResult<U, V, P>>) -> bool {
        exists|b2: B| #[trigger] b.polls(TokenSet::All, &b2, out) && *next == Chain::<
            A,
            B,
            C,
            T,
            E,
            U,
            V, P,
        >::Second(b2)
    }

    /// The stage that is current is scheduled; a chain with nothing left asks
    /// to be polled at once.
    pub open spec fn schedules(&self, next: &Self, interest: TokenSet) -> bool {
        match self {
            Chain::First(a, c) => next matches Chain::First(a2, c2) && c2 == c && a.schedules(
                &a2,
                interest,
            ),
            Chain::Second(b) => next matches Chain::Second(b2) && b.schedules(&b2, interest),
            Chain::Done(_) => next is Done && interest == TokenSet::All,
        }
    }

    /// In its first stage a chain collapses its first future. In its second
    /// stage it gives way: to the replacement that the second future offers,
    /// or else to the second future itself.
    pub open spec fn tailcalls(&self, next: &Self, tail: Option<BoxFuture<U, V, P>>) -> bool {
        match self {
            Chain::First(a, c) => {
                &&& tail is None
                &&& next matches Chain::First(a2, c2) && c2 == c && a.collapses(&a2)
            },
            Chain::Second(b) => exists|b2: B, offered: Option<BoxFuture<U, V, P>>| #[trigger]
                b.tailcalls(&b2, offered) && match offered {
                    Some(t) => tail == Some(t) && *next == Chain::<A, B, C, T, E, U, V, P>::Second(
                        b2,
                    ),
                    None => {
                        &&& next is Done
                        &&& tail matches Some(t) && t.holds(b2)
                    },
                },
            Chain::Done(_) => tail is None && next is Done,
        }
    }

    /// Polls the stage that is current. When the first future resolves, the
    /// chain is left with nothing and the caller decides what follows.
    pub fn advance(&mut self, tokens: &Tokens) -> (stage: Stage<C, T, E, U, V, P>)
        requires
            old(self).inv(),
        ensures
            final(self).inv(),
            match *old(self) {
                Chain::First(a, c) => match stage {
                    Stage::Pending => *final(self) matches Chain::First(a2, c2) && c2 == c
                        && a.polls(tokens@, &a2, None) && a2.narrows(&a),
                    Stage::Resolved(r, c2) => {
                        &&& c2 == c
                        &&& *final(self) is Done
                        &&& exists|a2: Collapsed<A, T, E, P>| #[trigger] a.polls(tokens@, &a2, Some(r))
                        &&& r matches Ok(t) ==> a.may_resolve_to(Ok(t))
                        &&& r matches Err(PollError::Other(e)) ==> a.may_resolve_to(Err(e))
                    },
                    Stage::Forwarded(_) => false,
                },
                _ => stage matches Stage::Forwarded(out) && old(self).forwards(
                    tokens@,
                    final(self),
                    out,
                ) && (old(self).spent() ==> out == Some::<PollResult<U, V, P>>(
                    Err(PollError::Panicked(P::reused_spec())),
                )) && (out is Some ==> final(self).spent()) && (out matches Some(Ok(u))
                    ==> old(self).later(Ok(u))) && (out matches Some(Err(PollError::Other(v)))
                    ==> old(self).later(Err(v))) && final(self).narrows(old(self)),
            },
    {
        let mut current = Chain::Done(PhantomData);
        std::mem::swap(self, &mut current);
        match current {
            Chain::First(mut a, c) => {
                match a.poll(tokens) {
                    None => {
                        *self = Chain::First(a, c);
                        Stage::Pending
                    },
                    Some(r) => Stage::Resolved(r, c),
                }
            },
            Chain::Second(mut b) => {
                let out = b.poll(tokens);
                *self = Chain::Second(b);
                Stage::Forwarded(out)
            },
            Chain::Done(_) => Stage::Forwarded(Some(Err(reused_as()))),
        }
    }

    /// Makes `b` the second stage and polls it at once.
    pub fn follow(&mut self, b: B) -> (out: Option<PollResult<U, V, P>>)
        requires
            b.inv(),
        ensures
            final(self).inv(),
            Self::follows(b, final(self), out),
            out is Some ==> final(self).spent(),
            out matches Some(Ok(u)) ==> b.may_resolve_to(Ok(u)),
            out matches Some(Err(PollError::Other(v))) ==> b.may_resolve_to(Err(v)),
            forall|r: Result<U, V>| #[trigger] final(self).later(r) ==> b.may_resolve_to(r),
    {
        let mut b = b;
        let out = b.poll(&Tokens::all());
        *self = Chain::Second(b);
        out
    }

    /// Schedules the stage that is current.
    pub fn schedule(&mut self, wake: Arc<Box<dyn Wake>>) -> (interest: Tokens)
        requires
            old(self).inv(),
            crate::wakeable(&wake),
        ensures
            final(self).inv(),
            old(self).schedules(final(self), interest@),
            final(self).spent() == old(self).spent(),
            *old(self) matches Chain::First(_, c) ==> *final(self) matches Chain::First(_, c2) && c2
                == c,
            final(self).narrows(old(self)),
            *old(self) is Done ==> wake.woken(&interest),
    {
        match self {
            Chain::First(a, _) => a.schedule(wake),
            Chain::Second(b) => b.schedule(wake),
            Chain::Done(_) => wake_now(wake),
        }
    }

    /// Compacts the chain.
    pub fn tailcall(&mut self) -> (tail: Option<BoxFuture<U, V, P>>)
        requires
            old(self).inv(),
        ensures
            final(self).inv(),
            old(self).tailcalls(final(self), tail),
            tail is None ==> final(self).spent() == old(self).spent(),
            tail matches Some(t) ==> t.wf() && t.resolved() == old(self).spent(),
            *old(self) matches Chain::First(_, c) ==> *final(self) matches Chain::First(_, c2) && c2
                == c,
            final(self).narrows(old(self)),
            tail matches Some(t) ==> forall|r: Result<U, V>| #[trigger]
                t.may_give(r) ==> old(self).later(r),
    {
        let mut current = Chain::Done(PhantomData);
        std::mem::swap(self, &mut current);
        match current {
            Chain::First(mut a, c) => {
                a.collapse();
                *self = Chain::First(a, c);
                None
            },
            Chain::Second(mut b) => {
                let ghost b0 = b;
                match b.tailcall() {
                    Some(t) => {
                        assert(b0.tailcalls(&b, Some(t)));
                        *self = Chain::Second(b);
                        Some(t)
                    },
                    None => {
                        assert(b0.tailcalls(&b, None));
                        Some(BoxFuture::new(b))
                    },
                }
            },
            Chain::Done(_) => None,
        }
    }

    /// A second compaction right after one that offered nothing offers
    /// nothing either and changes nothing.
    pub proof fn tailcall_is_idempotent(&self, mid: &Self, last: &Self, tail: Option<BoxFuture<U, V, P>>)
        requires
            self.inv(),
            self.tailcalls(mid, None),
            mid.tailcalls(last, tail),
        ensures
            tail is None,
            *last == *mid,
    {
        match (self, mid, last) {
            (Chain::First(a, _), Chain::First(a2, _), Chain::First(a3, _)) => {
                a.collapse_is_idempotent(a2, a3);
            },
            _ => {},
        }
    }
}

} // verus!
