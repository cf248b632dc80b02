//! Racing two futures of the same shape.

use crate::empty::empty_as;
use crate::error::{Abort, Payload, PollError, PollResult, reused_as};
use crate::token::{TokenSet, Tokens};
use crate::util::{wake_now, Collapsed};
use crate::{BoxFuture, Future, Wake};
use std::sync::Arc;
use vstd::prelude::*;

verus! {

/// Future for the `select` combinator, waiting for one of two futures to
/// complete.
#[verifier::reject_recursive_types(T)]
#[verifier::reject_recursive_types(E)]
#[verifier::reject_recursive_types(P)]
pub struct Select<A, B, T, E, P: Abort = Payload> where
    A: Future<T, E, P>,
    B: Future<T, E, P>,
    T: Send + 'static,
    E: Send + 'static,
 {
    inner: Option<(Collapsed<A, T, E, P>, Collapsed<B, T, E, P>)>,
    a_tokens: Tokens,
    b_tokens: Tokens,
}

/// Future yielded as the second result of a `Select`: the future that did
/// not resolve first.
#[verifier::reject_recursive_types(T)]
#[verifier::reject_recursive_types(E)]
#[verifier::reject_recursive_types(P)]
pub struct SelectNext<A, B, T, E, P: Abort = Payload> where
    A: Future<T, E, P>,
    B: Future<T, E, P>,
    T: Send + 'static,
    E: Send + 'static,
 {
    inner: OneOf<A, B, T, E, P>,
}

/// One of the two futures of a `Select`.
#[verifier::reject_recursive_types(T)]
#[verifier::reject_recursive_types(E)]
#[verifier::reject_recursive_types(P)]
pub enum OneOf<A, B, T, E, P: Abort = Payload> where
    A: Future<T, E, P>,
    B: Future<T, E, P>,
    T: Send + 'static,
    E: Send + 'static,
 {
    /// The first future.
    A(Collapsed<A, T, E, P>),
    /// The second future.
    B(Collapsed<B, T, E, P>),
}

/// The payload of an abort of a select: the payload of the future that
/// aborted, and with it the future that had not resolved. A select that is
/// polled after its result has no future left to hand on.
#[derive(Debug, PartialEq, Eq)]
pub struct Lost<P, N> {
    /// The payload of the future that aborted.
    pub cause: P,
    /// The future that had not resolved.
    pub next: Option<N>,
}

impl<P: Abort, N: Send + 'static> Abort for Lost<P, N> {
    open spec fn reused_spec() -> Self {
        Lost { cause: P::reused_spec(), next: None }
    }

    fn reused() -> (p: Self) {
        Lost { cause: P::reused(), next: None }
    }
}

/// What a `Select` resolves to when one side resolved to `won` and the other
/// side is `loser`: the loser travels with the value, with the declared
/// error and with an abort alike.
pub open spec fn settled<A, B, T, E, P: Abort>(
    won: PollResult<T, E, P>,
    loser: SelectNext<A, B, T, E, P>,
) -> PollResult<(T, SelectNext<A, B, T, E, P>), (E, SelectNext<A, B, T, E, P>), Lost<P, SelectNext<A, B, T, E, P>>> where
    A: Future<T, E, P>,
    B: Future<T, E, P>,
    T: Send + 'static,
    E: Send + 'static,
 {
    match won {
        Ok(t) => Ok((t, loser)),
        Err(PollError::Other(e)) => Err(PollError::Other((e, loser))),
        Err(PollError::Panicked(p)) => Err(PollError::Panicked(Lost { cause: p, next: Some(loser) })),
    }
}

impl<A, B, T, E, P: Abort> SelectNext<A, B, T, E, P> where
    A: Future<T, E, P>,
    B: Future<T, E, P>,
    T: Send + 'static,
    E: Send + 'static,
 {
    /// The future that is held.
    pub closed spec fn held(&self) -> OneOf<A, B, T, E, P> {
        self.inner
    }

    /// The continuation that holds the first future of a select.
    pub closed spec fn of_first(a: Collapsed<A, T, E, P>) -> Self {
        SelectNext { inner: OneOf::A(a) }
    }

    /// The continuation that holds the second future of a select.
    pub closed spec fn of_second(b: Collapsed<B, T, E, P>) -> Self {
        SelectNext { inner: OneOf::B(b) }
    }

    /// The two constructors are exactly the continuations that hold the
    /// given future.
    pub proof fn lemma_held(a: Collapsed<A, T, E, P>, b: Collapsed<B, T, E, P>)
        ensures
            Self::of_first(a).held() == OneOf::<A, B, T, E, P>::A(a),
            Self::of_second(b).held() == OneOf::<A, B, T, E, P>::B(b),
    {
    }
}

impl<A, B, T, E, P: Abort> Select<A, B, T, E, P> where
    A: Future<T, E, P>,
    B: Future<T, E, P>,
    T: Send + 'static,
    E: Send + 'static,
 {
    /// The two futures, while none has resolved.
    pub closed spec fn children(&self) -> Option<(Collapsed<A, T, E, P>, Collapsed<B, T, E, P>)> {
        self.inner
    }

    /// The tokens the first future gave when it was last scheduled.
    pub closed spec fn a_filter(&self) -> Tokens {
        self.a_tokens
    }

    /// The tokens the second future gave when it was last scheduled.
    pub closed spec fn b_filter(&self) -> Tokens {
        self.b_tokens
    }

    /// The set of tokens the first future gave when it was last scheduled.
    pub open spec fn a_interest(&self) -> TokenSet {
        self.a_filter()@
    }

    /// The set of tokens the second future gave when it was last scheduled.
    pub open spec fn b_interest(&self) -> TokenSet {
        self.b_filter()@
    }

    /// The second future is polled under `filter` while the first, now
    /// `a_now`, waits: either it resolves and the first becomes the
    /// continuation, or both stay.
    pub open spec fn second_polled(
        a_now: Collapsed<A, T, E, P>,
        b: Collapsed<B, T, E, P>,
        filter: TokenSet,
        next: &Self,
        out: Option<PollResult<(T, SelectNext<A, B, T, E, P>), (E, SelectNext<A, B, T, E, P>), Lost<P, SelectNext<A, B, T, E, P>>>>,
    ) -> bool {
        exists|rb: Option<PollResult<T, E, P>>, b2: Collapsed<B, T, E, P>| #[trigger]
            b.polls(filter, &b2, rb) && match rb {
                Some(r) => next.children() is None && out == Some(
                    settled(r, SelectNext::<A, B, T, E, P>::of_first(a_now)),
                ),
                None => next.children() == Some((a_now, b2)) && out is None,
            }
    }
}

/// Creates the future that races `a` against `b`.
pub fn new<A, B, T, E, P: Abort>(a: A, b: B) -> (s: Select<A, B, T, E, P>) where
    A: Future<T, E, P>,
    B: Future<T, E, P>,
    T: Send + 'static,
    E: Send + 'static,

    requires
        a.inv(),
        b.inv(),
    ensures
        s.inv(),
        s.children() == Some((Collapsed::<A, T, E, P>::Start(a), Collapsed::<B, T, E, P>::Start(b))),
        s.a_interest() == TokenSet::All,
        s.b_interest() == TokenSet::All,
{
    let a = Collapsed::Start(a);
    let b = Collapsed::Start(b);
    Select { inner: Some((a, b)), a_tokens: Tokens::all(), b_tokens: Tokens::all() }
}

impl<A, B, T, E, P: Abort> Future<(T, SelectNext<A, B, T, E, P>), (E, SelectNext<A, B, T, E, P>), Lost<P, SelectNext<A, B, T, E, P>>> for Select<
    A,
    B,
    T,
    E, P,
> where A: Future<T, E, P>, B: Future<T, E, P>, T: Send + 'static, E: Send + 'static {
    open spec fn inv(&self) -> bool {
        self.children() matches Some((a, b)) ==> a.inv() && b.inv()
    }

    open spec fn spent(&self) -> bool {
        self.children() is None
    }

    /// An outcome of either side, with a well-formed continuation.
    open spec fn may_resolve_to(
        &self,
        r: Result<(T, SelectNext<A, B, T, E, P>), (E, SelectNext<A, B, T, E, P>)>,
    ) -> bool {
        match self.children() {
            Some((a, b)) => match r {
                Ok((t, next)) => next.inv() && (a.may_resolve_to(Ok(t)) || b.may_resolve_to(
                    Ok(t),
                )),
                Err((e, next)) => next.inv() && (a.may_resolve_to(Err(e)) || b.may_resolve_to(
                    Err(e),
                )),
            },
            None => false,
        }
    }

    /// A side whose registered tokens cannot meet `tokens` is not polled and
    /// stays as it is. A side that is polled sees `tokens` narrowed to its
    /// registered tokens. The first side to resolve wins and the other one
    /// becomes the continuation.
    open spec fn polls(
        &self,
        tokens: TokenSet,
        next: &Self,
        out: Option<PollResult<(T, SelectNext<A, B, T, E, P>), (E, SelectNext<A, B, T, E, P>), Lost<P, SelectNext<A, B, T, E, P>>>>,
    ) -> bool {
        &&& next.a_filter() == self.a_filter()
        &&& next.b_filter() == self.b_filter()
        &&& match self.children() {
            None => next.children() is None && out == Some::<
                PollResult<(T, SelectNext<A, B, T, E, P>), (E, SelectNext<A, B, T, E, P>), Lost<P, SelectNext<A, B, T, E, P>>>,
            >(Err(PollError::Panicked(Lost::<P, SelectNext<A, B, T, E, P>>::reused_spec()))),
            Some((a, b)) => if !self.a_interest().may_contain(tokens) {
                Self::second_polled(a, b, tokens.intersect(self.b_interest()), next, out)
            } else {
                exists|ra: Option<PollResult<T, E, P>>, a2: Collapsed<A, T, E, P>| #[trigger]
                    a.polls(tokens.intersect(self.a_interest()), &a2, ra) && match ra {
                        Some(r) => next.children() is None && out == Some(
                            settled(r, SelectNext::<A, B, T, E, P>::of_second(b)),
                        ),
                        None => if !self.b_interest().may_contain(tokens) {
                            next.children() == Some((a2, b)) && out is None
                        } else {
                            Self::second_polled(
                                a2,
                                b,
                                tokens.intersect(self.b_interest()),
                                next,
                                out,
                            )
                        },
                    }
            },
        }
    }

    /// Both sides are scheduled with the same waker; the tokens each gave are
    /// kept for the filter, and their union is returned.
    open spec fn schedules(&self, next: &Self, interest: TokenSet) -> bool {
        match self.children() {
            Some((a, b)) => {
                &&& next.children() matches Some((a2, b2)) && a.schedules(&a2, next.a_interest())
                    && b.schedules(&b2, next.b_interest())
                &&& interest == next.a_interest().union(next.b_interest())
            },
            None => *next == *self && interest == TokenSet::All,
        }
    }

    /// Both sides are collapsed; a select never gives way to a replacement.
    open spec fn tailcalls(
        &self,
        next: &Self,
        tail: Option<BoxFuture<(T, SelectNext<A, B, T, E, P>), (E, SelectNext<A, B, T, E, P>), Lost<P, SelectNext<A, B, T, E, P>>>>,
    ) -> bool {
        &&& tail is None
        &&& next.a_filter() == self.a_filter()
        &&& next.b_filter() == self.b_filter()
        &&& match self.children() {
            Some((a, b)) => next.children() matches Some((a2, b2)) && a.collapses(&a2)
                && b.collapses(&b2),
            None => next.children() is None,
        }
    }

    fn poll(&mut self, tokens: &Tokens) -> (out: Option<
        PollResult<(T, SelectNext<A, B, T, E, P>), (E, SelectNext<A, B, T, E, P>), Lost<P, SelectNext<A, B, T, E, P>>>,
    >) {
        let (mut a, mut b) = match self.inner.take() {
            Some(pair) => pair,
            None => {
                return Some(Err(reused_as()));
            },
        };
        let (ret, is_a) = if !self.a_tokens.may_contain(tokens) {
            match b.poll(&tokens.intersect(&self.b_tokens)) {
                Some(r) => (r, false),
                None => {
                    self.inner = Some((a, b));
                    return None;
                },
            }
        } else {
            match a.poll(&tokens.intersect(&self.a_tokens)) {
                Some(r) => (r, true),
                None => {
                    if !self.b_tokens.may_contain(tokens) {
                        self.inner = Some((a, b));
                        return None;
                    }
                    match b.poll(&tokens.intersect(&self.b_tokens)) {
                        Some(r) => (r, false),
                        None => {
                            self.inner = Some((a, b));
                            return None;
                        },
                    }
                },
            }
        };
        let next = if is_a {
            OneOf::B(b)
        } else {
            OneOf::A(a)
        };
        let next = SelectNext { inner: next };
        Some(
            match ret {
                Ok(t) => Ok((t, next)),
                Err(PollError::Other(e)) => Err(PollError::Other((e, next))),
                Err(PollError::Panicked(p)) => Err(
                    PollError::Panicked(Lost { cause: p, next: Some(next) }),
                ),
            },
        )
    }

    /// A select that has resolved calls the waker on the spot.
    fn schedule(&mut self, wake: Arc<Box<dyn Wake>>) -> (interest: Tokens)
        ensures
            old(self).spent() ==> wake.woken(&interest),
    {
        match self.inner.take() {
            Some((mut a, mut b)) => {
                self.a_tokens = a.schedule(wake.clone());
                self.b_tokens = b.schedule(wake.clone());
                self.inner = Some((a, b));
                self.a_tokens.union(&self.b_tokens)
            },
            None => wake_now(wake),
        }
    }

    fn tailcall(&mut self) -> (tail: Option<
        BoxFuture<(T, SelectNext<A, B, T, E, P>), (E, SelectNext<A, B, T, E, P>), Lost<P, SelectNext<A, B, T, E, P>>>,
    >) {
        if let Some((mut a, mut b)) = self.inner.take() {
            a.collapse();
            b.collapse();
            self.inner = Some((a, b));
        }
        None
    }

    proof fn tailcall_is_idempotent(
        &self,
        mid: &Self,
        last: &Self,
        tail: Option<BoxFuture<(T, SelectNext<A, B, T, E, P>), (E, SelectNext<A, B, T, E, P>), Lost<P, SelectNext<A, B, T, E, P>>>>,
    ) {
        if let Some((a, b)) = self.children() {
            let (a2, b2) = mid.children()->0;
            let (a3, b3) = last.children()->0;
            a.collapse_is_idempotent(&a2, &a3);
            b.collapse_is_idempotent(&b2, &b3);
        }
    }
}

impl<A, B, T, E, P: Abort> SelectNext<A, B, T, E, P> where
    A: Future<T, E, P>,
    B: Future<T, E, P>,
    T: Send + 'static,
    E: Send + 'static,
 {
    /// The held future after a collapse that offered `tail`: a future that
    /// collapsed into a replacement gives the replacement away, any other
    /// stays in the continuation.
    pub open spec fn gives_way<C: Future<T, E, P>>(
        before: Collapsed<C, T, E, P>,
        after: Collapsed<C, T, E, P>,
        tail: Option<BoxFuture<T, E, P>>,
    ) -> bool {
        exists|mid: Collapsed<C, T, E, P>| #[trigger]
            before.collapses(&mid) && match mid {
                Collapsed::Tail(b) => tail == Some(b) && after.inv(),
                Collapsed::Start(_) => tail is None && after == mid,
            }
    }
}

impl<A, B, T, E, P: Abort> Future<T, E, P> for SelectNext<A, B, T, E, P> where
    A: Future<T, E, P>,
    B: Future<T, E, P>,
    T: Send + 'static,
    E: Send + 'static,
 {
    open spec fn inv(&self) -> bool {
        match self.held() {
            OneOf::A(a) => a.inv(),
            OneOf::B(b) => b.inv(),
        }
    }

    open spec fn spent(&self) -> bool {
        match self.held() {
            OneOf::A(a) => a.spent(),
            OneOf::B(b) => b.spent(),
        }
    }

    open spec fn may_resolve_to(&self, r: Result<T, E>) -> bool {
        match self.held() {
            OneOf::A(a) => a.may_resolve_to(r),
            OneOf::B(b) => b.may_resolve_to(r),
        }
    }

    open spec fn polls(&self, tokens: TokenSet, next: &Self, out: Option<PollResult<T, E, P>>) -> bool {
        match self.held() {
            OneOf::A(a) => next.held() matches OneOf::A(a2) && a.polls(tokens, &a2, out),
            OneOf::B(b) => next.held() matches OneOf::B(b2) && b.polls(tokens, &b2, out),
        }
    }

    open spec fn schedules(&self, next: &Self, interest: TokenSet) -> bool {
        match self.held() {
            OneOf::A(a) => next.held() matches OneOf::A(a2) && a.schedules(&a2, interest),
            OneOf::B(b) => next.held() matches OneOf::B(b2) && b.schedules(&b2, interest),
        }
    }

    /// The held future is collapsed; if that left a replacement, the
    /// replacement is returned and the wrapper has nothing more to do.
    open spec fn tailcalls(&self, next: &Self, tail: Option<BoxFuture<T, E, P>>) -> bool {
        match self.held() {
            OneOf::A(a) => next.held() matches OneOf::A(a2) && Self::gives_way(a, a2, tail),
            OneOf::B(b) => next.held() matches OneOf::B(b2) && Self::gives_way(b, b2, tail),
        }
    }

    fn poll(&mut self, tokens: &Tokens) -> (out: Option<PollResult<T, E, P>>) {
        match &mut self.inner {
            OneOf::A(a) => a.poll(tokens),
            OneOf::B(b) => b.poll(tokens),
        }
    }

    fn schedule(&mut self, wake: Arc<Box<dyn Wake>>) -> (interest: Tokens) {
        match &mut self.inner {
            OneOf::A(a) => a.schedule(wake),
            OneOf::B(b) => b.schedule(wake),
        }
    }

    fn tailcall(&mut self) -> (tail: Option<BoxFuture<T, E, P>>) {
        match &mut self.inner {
            OneOf::A(a) => a.collapse(),
            OneOf::B(b) => b.collapse(),
        }
        let ghost collapsed = *self;
        assert forall|r: Result<T, E>| #[trigger]
            collapsed.may_resolve_to(r) implies old(self).may_resolve_to(r) by {
            match (collapsed.held(), old(self).held()) {
                (OneOf::A(a2), OneOf::A(a)) => {
                    assert(a2.may_resolve_to(r) ==> a.may_resolve_to(r));
                },
                (OneOf::B(b2), OneOf::B(b)) => {
                    assert(b2.may_resolve_to(r) ==> b.may_resolve_to(r));
                },
                _ => {},
            }
        }
        let tail = match &mut self.inner {
            OneOf::A(Collapsed::Tail(t)) => {
                let mut tail = BoxFuture::new(empty_as());
                std::mem::swap(t, &mut tail);
                Some(tail)
            },
            OneOf::B(Collapsed::Tail(t)) => {
                let mut tail = BoxFuture::new(empty_as());
                std::mem::swap(t, &mut tail);
                Some(tail)
            },
            _ => None,
        };
        proof {
            if tail is Some {
                let t = tail->0;
                assert forall|r: Result<T, E>| #[trigger] t.may_give(r) implies old(
                    self,
                ).may_resolve_to(r) by {
                    assert(collapsed.may_resolve_to(r));
                }
            }
        }
        tail
    }

    proof fn tailcall_is_idempotent(
        &self,
        mid: &Self,
        last: &Self,
        tail: Option<BoxFuture<T, E, P>>,
    ) {
        match (self.held(), mid.held(), last.held()) {
            (OneOf::A(a), OneOf::A(a2), OneOf::A(a3)) => {
                let m = choose|m: Collapsed<A, T, E, P>| #[trigger]
                    a2.collapses(&m) && match m {
                        Collapsed::Tail(b) => tail == Some(b) && a3.inv(),
                        Collapsed::Start(_) => tail is None && a3 == m,
                    };
                a.collapse_is_idempotent(&a2, &m);
            },
            (OneOf::B(b), OneOf::B(b2), OneOf::B(b3)) => {
                let m = choose|m: Collapsed<B, T, E, P>| #[trigger]
                    b2.collapses(&m) && match m {
                        Collapsed::Tail(t) => tail == Some(t) && b3.inv(),
                        Collapsed::Start(_) => tail is None && b3 == m,
                    };
                b.collapse_is_idempotent(&b2, &m);
            },
            _ => {},
        }
    }
}

} // verus!
