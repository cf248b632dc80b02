//! Waiting for two futures to both complete.

use crate::error::{Abort, Payload, PollError, PollResult, reused_as};
use crate::token::{TokenSet, Tokens};
use crate::util::{wake_now, Collapsed};
use crate::{BoxFuture, Future, Wake};
use std::sync::Arc;
use vstd::prelude::*;

verus! {

/// One side of a join.
#[verifier::reject_recursive_types(T)]
#[verifier::reject_recursive_types(E)]
#[verifier::reject_recursive_types(P)]
pub enum MaybeDone<A, T, E, P: Abort = Payload> where A: Future<T, E, P>, T: Send + 'static, E: Send + 'static {
    /// The side's future has not resolved.
    Pending(Collapsed<A, T, E, P>),
    /// The side's future has resolved to this value.
    Done(T),
    /// The join has resolved; nothing is kept.
    Gone,
}

/// Future for the `join` combinator, waiting for two futures to complete.
#[verifier::reject_recursive_types(T)]
#[verifier::reject_recursive_types(U)]
#[verifier::reject_recursive_types(E)]
#[verifier::reject_recursive_types(P)]
pub struct Join<A, B, T, U, E, P: Abort = Payload> where
    A: Future<T, E, P>,
    B: Future<U, E, P>,
    T: Send + 'static,
    U: Send + 'static,
    E: Send + 'static,
 {
    a: MaybeDone<A, T, E, P>,
    b: MaybeDone<B, U, E, P>,
    a_tokens: Tokens,
    b_tokens: Tokens,
}

impl<A, T, E, P: Abort> MaybeDone<A, T, E, P> where A: Future<T, E, P>, T: Send + 'static, E: Send + 'static {
    /// A future that is still held is well formed.
    pub open spec fn inv(&self) -> bool {
        self matches MaybeDone::Pending(f) ==> f.inv()
    }

    /// An outcome that the side may still contribute: what its future may
    /// resolve to, or the value that it has resolved to.
    pub open spec fn may_resolve_to(&self, r: Result<T, E>) -> bool {
        match self {
            MaybeDone::Pending(f) => f.may_resolve_to(r),
            MaybeDone::Done(t) => r == Ok::<T, E>(*t),
            MaybeDone::Gone => false,
        }
    }

    /// No outcome has been added from `before` to `self`.
    pub open spec fn narrows(&self, before: &Self) -> bool {
        forall|r: Result<T, E>| #[trigger] self.may_resolve_to(r) ==> before.may_resolve_to(r)
    }

    /// One side's turn in a poll of the join under `tokens`, the side having
    /// registered `registered`. A side that has resolved, or whose registered
    /// tokens cannot meet `tokens`, stays as it is. Otherwise its future is
    /// polled under `tokens` narrowed to `registered`: a value is kept, and
    /// an error is reported in `failure`.
    pub open spec fn turns(
        &self,
        registered: TokenSet,
        tokens: TokenSet,
        next: &Self,
        failure: Option<PollError<E, P>>,
    ) -> bool {
        match self {
            MaybeDone::Pending(f) => if !registered.may_contain(tokens) {
                *next == *self && failure is None
            } else {
                exists|f2: Collapsed<A, T, E, P>, r: Option<PollResult<T, E, P>>| #[trigger]
                    f.polls(tokens.intersect(registered), &f2, r) && match r {
                        None => *next == MaybeDone::<A, T, E, P>::Pending(f2) && failure is None,
                        Some(Ok(t)) => *next == MaybeDone::<A, T, E, P>::Done(t) && failure is None,
                        Some(Err(e)) => failure == Some(e),
                    }
            },
            _ => *next == *self && failure is None,
        }
    }

    /// One side's part in a schedule of the join: a future that is still
    /// held is scheduled and gives `interest`.
    pub open spec fn schedules(&self, next: &Self, interest: TokenSet) -> bool {
        match self {
            MaybeDone::Pending(f) => next matches MaybeDone::Pending(f2) && f.schedules(
                &f2,
                interest,
            ),
            _ => false,
        }
    }

    /// One side's part in a compaction of the join: a future that is still
    /// held is collapsed.
    pub open spec fn collapses(&self, next: &Self) -> bool {
        match self {
            MaybeDone::Pending(f) => next matches MaybeDone::Pending(f2) && f.collapses(&f2),
            _ => *next == *self,
        }
    }

    fn turn(&mut self, registered: &Tokens, tokens: &Tokens) -> (failure: Option<PollError<E, P>>)
        requires
            old(self).inv(),
        ensures
            final(self).inv(),
            old(self).turns(registered@, tokens@, final(self), failure),
            *old(self) is Gone ==> *final(self) is Gone,
            final(self).narrows(old(self)),
            failure matches Some(PollError::Other(e)) ==> old(self).may_resolve_to(Err(e)),
    {
        let mut current = MaybeDone::Gone;
        std::mem::swap(self, &mut current);
        match current {
            MaybeDone::Pending(mut f) => {
                if !registered.may_contain(tokens) {
                    *self = MaybeDone::Pending(f);
                    return None;
                }
                let ghost f0 = f;
                let r = f.poll(&tokens.intersect(registered));
                assert(f0.polls(tokens@.intersect(registered@), &f, r));
                match r {
                    None => {
                        *self = MaybeDone::Pending(f);
                        None
                    },
                    Some(Ok(t)) => {
                        *self = MaybeDone::Done(t);
                        None
                    },
                    Some(Err(e)) => Some(e),
                }
            },
            MaybeDone::Done(t) => {
                *self = MaybeDone::Done(t);
                None
            },
            MaybeDone::Gone => None,
        }
    }

    fn collapse(&mut self)
        requires
            old(self).inv(),
        ensures
            final(self).inv(),
            old(self).collapses(final(self)),
            *final(self) is Gone == *old(self) is Gone,
            final(self).narrows(old(self)),
    {
        match self {
            MaybeDone::Pending(f) => f.collapse(),
            _ => {},
        }
    }

    fn take(&mut self) -> (held: Option<T>)
        ensures
            *final(self) is Gone,
            held == (match *old(self) {
                MaybeDone::Done(t) => Some(t),
                _ => None,
            }),
    {
        let mut current = MaybeDone::Gone;
        std::mem::swap(self, &mut current);
        match current {
            MaybeDone::Done(t) => Some(t),
            _ => None,
        }
    }

    fn is_pending(&self) -> (pending: bool)
        ensures
            pending == (self is Pending),
    {
        match self {
            MaybeDone::Pending(_) => true,
            _ => false,
        }
    }

    fn is_done(&self) -> (done: bool)
        ensures
            done == (self is Done),
    {
        match self {
            MaybeDone::Done(_) => true,
            _ => false,
        }
    }
}

impl<A, B, T, U, E, P: Abort> Join<A, B, T, U, E, P> where
    A: Future<T, E, P>,
    B: Future<U, E, P>,
    T: Send + 'static,
    U: Send + 'static,
    E: Send + 'static,
 {
    /// The first side.
    pub closed spec fn first(&self) -> MaybeDone<A, T, E, P> {
        self.a
    }

    /// The second side.
    pub closed spec fn second(&self) -> MaybeDone<B, U, E, P> {
        self.b
    }

    /// The tokens the first future gave when it was last scheduled.
    pub closed spec fn a_filter(&self) -> Tokens {
        self.a_tokens
    }

    /// The tokens the second future gave when it was last scheduled.
    pub closed spec fn b_filter(&self) -> Tokens {
        self.b_tokens
    }

    /// How a poll ends once both sides have had their turn without an error:
    /// with both values if both are there, and otherwise not yet.
    pub open spec fn concludes(
        a: MaybeDone<A, T, E, P>,
        b: MaybeDone<B, U, E, P>,
        next: &Self,
        out: Option<PollResult<(T, U), E, P>>,
    ) -> bool {
        match (a, b) {
            (MaybeDone::Done(t), MaybeDone::Done(u)) => next.spent() && out == Some::<
                PollResult<(T, U), E, P>,
            >(Ok((t, u))),
            _ => next.first() == a && next.second() == b && out is None,
        }
    }
}

/// Creates the future that waits for both `a` and `b`.
pub fn new<A, B, T, U, E, P: Abort>(a: A, b: B) -> (j: Join<A, B, T, U, E, P>) where
    A: Future<T, E, P>,
    B: Future<U, E, P>,
    T: Send + 'static,
    U: Send + 'static,
    E: Send + 'static,

    requires
        a.inv(),
        b.inv(),
    ensures
        j.inv(),
        j.first() == MaybeDone::<A, T, E, P>::Pending(Collapsed::Start(a)),
        j.second() == MaybeDone::<B, U, E, P>::Pending(Collapsed::Start(b)),
        j.a_filter()@ == TokenSet::All,
        j.b_filter()@ == TokenSet::All,
{
    Join {
        a: MaybeDone::Pending(Collapsed::Start(a)),
        b: MaybeDone::Pending(Collapsed::Start(b)),
        a_tokens: Tokens::all(),
        b_tokens: Tokens::all(),
    }
}

impl<A, B, T, U, E, P: Abort> Future<(T, U), E, P> for Join<A, B, T, U, E, P> where
    A: Future<T, E, P>,
    B: Future<U, E, P>,
    T: Send + 'static,
    U: Send + 'static,
    E: Send + 'static,
 {
    open spec fn inv(&self) -> bool {
        &&& self.first().inv()
        &&& self.second().inv()
        &&& self.first() is Gone <==> self.second() is Gone
    }

    open spec fn spent(&self) -> bool {
        self.first() is Gone
    }

    /// A pair of values that the two sides may contribute, or an error that
    /// either side may contribute.
    open spec fn may_resolve_to(&self, r: Result<(T, U), E>) -> bool {
        match r {
            Ok((t, u)) => self.first().may_resolve_to(Ok(t)) && self.second().may_resolve_to(
                Ok(u),
            ),
            Err(e) => self.first().may_resolve_to(Err(e)) || self.second().may_resolve_to(
                Err(e),
            ),
        }
    }

    /// Each side has its turn, the first side first. The first error ends
    /// the join and whatever the other side holds is given up. Without an
    /// error the join resolves once both values are there.
    open spec fn polls(
        &self,
        tokens: TokenSet,
        next: &Self,
        out: Option<PollResult<(T, U), E, P>>,
    ) -> bool {
        &&& next.a_filter() == self.a_filter()
        &&& next.b_filter() == self.b_filter()
        &&& if self.spent() {
            next.spent() && out == Some::<PollResult<(T, U), E, P>>(
                Err(PollError::Panicked(P::reused_spec())),
            )
        } else {
            exists|a2: MaybeDone<A, T, E, P>, a_failure: Option<PollError<E, P>>| #[trigger]
                self.first().turns(self.a_filter()@, tokens, &a2, a_failure) && match a_failure {
                    Some(e) => next.spent() && out == Some::<PollResult<(T, U), E, P>>(Err(e)),
                    None => exists|b2: MaybeDone<B, U, E, P>, b_failure: Option<PollError<E, P>>| #[trigger]
                        self.second().turns(self.b_filter()@, tokens, &b2, b_failure)
                            && match b_failure {
                            Some(e) => next.spent() && out == Some::<PollResult<(T, U), E, P>>(
                                Err(e),
                            ),
                            None => Self::concludes(a2, b2, next, out),
                        },
                }
        }
    }

    /// The sides that still hold a future are scheduled with the same waker;
    /// the tokens each gave are kept for the filter, and their union is
    /// returned. A join that has resolved asks to be polled at once.
    open spec fn schedules(&self, next: &Self, interest: TokenSet) -> bool {
        match (self.first() is Pending, self.second() is Pending) {
            (true, true) => {
                &&& self.first().schedules(&next.first(), next.a_filter()@)
                &&& self.second().schedules(&next.second(), next.b_filter()@)
                &&& interest == next.a_filter()@.union(next.b_filter()@)
            },
            (true, false) => {
                &&& self.first().schedules(&next.first(), next.a_filter()@)
                &&& next.second() == self.second()
                &&& next.b_filter() == self.b_filter()
                &&& interest == next.a_filter()@
            },
            (false, true) => {
                &&& self.second().schedules(&next.second(), next.b_filter()@)
                &&& next.first() == self.first()
                &&& next.a_filter() == self.a_filter()
                &&& interest == next.b_filter()@
            },
            (false, false) => *next == *self && interest == TokenSet::All,
        }
    }

    /// Both sides are collapsed; a join never gives way to a replacement.
    open spec fn tailcalls(&self, next: &Self, tail: Option<BoxFuture<(T, U), E, P>>) -> bool {
        &&& tail is None
        &&& next.a_filter() == self.a_filter()
        &&& next.b_filter() == self.b_filter()
        &&& self.first().collapses(&next.first())
        &&& self.second().collapses(&next.second())
    }

    fn poll(&mut self, tokens: &Tokens) -> (out: Option<PollResult<(T, U), E, P>>) {
        if !self.a.is_pending() && !self.a.is_done() {
            return Some(Err(reused_as()));
        }
        if let Some(e) = self.a.turn(&self.a_tokens, tokens) {
            let _ = self.a.take();
            let _ = self.b.take();
            return Some(Err(e));
        }
        let ghost a2 = self.a;
        // The turns that were taken are the witnesses of the relation.
        assert(old(self).first().turns(old(self).a_filter()@, tokens@, &a2, None));
        if let Some(e) = self.b.turn(&self.b_tokens, tokens) {
            let ghost b2 = self.b;
            assert(old(self).second().turns(old(self).b_filter()@, tokens@, &b2, Some(e)));
            let _ = self.a.take();
            let _ = self.b.take();
            return Some(Err(e));
        }
        let ghost b2 = self.b;
        assert(old(self).second().turns(old(self).b_filter()@, tokens@, &b2, None));
        if self.a.is_done() && self.b.is_done() {
            match (self.a.take(), self.b.take()) {
                (Some(t), Some(u)) => {
                    assert(a2.may_resolve_to(Ok(t)) && b2.may_resolve_to(Ok(u)));
                    Some(Ok((t, u)))
                },
                _ => None,
            }
        } else {
            None
        }
    }

    /// A join with no future left to wait for calls the waker on the spot.
    fn schedule(&mut self, wake: Arc<Box<dyn Wake>>) -> (interest: Tokens)
        ensures
            !(old(self).first() is Pending) && !(old(self).second() is Pending) ==> wake.woken(
                &interest,
            ),
    {
        let mut first = MaybeDone::Gone;
        let mut second = MaybeDone::Gone;
        std::mem::swap(&mut self.a, &mut first);
        std::mem::swap(&mut self.b, &mut second);
        match (first, second) {
            (MaybeDone::Pending(mut a), MaybeDone::Pending(mut b)) => {
                self.a_tokens = a.schedule(wake.clone());
                self.b_tokens = b.schedule(wake);
                self.a = MaybeDone::Pending(a);
                self.b = MaybeDone::Pending(b);
                self.a_tokens.union(&self.b_tokens)
            },
            (MaybeDone::Pending(mut a), second) => {
                self.a_tokens = a.schedule(wake);
                self.a = MaybeDone::Pending(a);
                self.b = second;
                self.a_tokens.duplicate()
            },
            (first, MaybeDone::Pending(mut b)) => {
                self.b_tokens = b.schedule(wake);
                self.a = first;
                self.b = MaybeDone::Pending(b);
                self.b_tokens.duplicate()
            },
            (first, second) => {
                self.a = first;
                self.b = second;
                wake_now(wake)
            },
        }
    }

    fn tailcall(&mut self) -> (tail: Option<BoxFuture<(T, U), E, P>>) {
        self.a.collapse();
        self.b.collapse();
        None
    }

    proof fn tailcall_is_idempotent(
        &self,
        mid: &Self,
        last: &Self,
        tail: Option<BoxFuture<(T, U), E, P>>,
    ) {
        match (self.first(), mid.first(), last.first()) {
            (MaybeDone::Pending(f), MaybeDone::Pending(f2), MaybeDone::Pending(f3)) => {
                f.collapse_is_idempotent(&f2, &f3);
            },
            _ => {},
        }
        match (self.second(), mid.second(), last.second()) {
            (MaybeDone::Pending(f), MaybeDone::Pending(f2), MaybeDone::Pending(f3)) => {
                f.collapse_is_idempotent(&f2, &f3);
            },
            _ => {},
        }
    }
}

} // verus!
