//! Composable asynchronous computations: futures that are driven by polling,
//! a token filter for wakeups, a promise with its completer, and combinators.

use std::sync::Arc;
use vstd::prelude::*;

pub mod and_then;
pub mod chain;
pub mod done;
pub mod empty;
pub mod error;
pub mod failed;
pub mod finished;
pub mod flatten;
pub mod forget;
pub mod join;
pub mod laws;
pub mod lazy;
pub mod map;
pub mod map_abort;
pub mod map_err;
pub mod or_else;
pub mod promise;
pub mod select;
pub mod slot;
pub mod then;
pub mod token;
pub mod util;

pub use and_then::AndThen;
pub use done::{done, Done};
pub use empty::{empty, empty_as, Empty};
pub use failed::{failed, Failed};
pub use finished::{finished, Finished};
pub use flatten::Flatten;
pub use join::Join;
pub use lazy::{lazy, Lazy};
pub use map::MapOk;
pub use map_abort::MapAbort;
pub use map_err::MapErr;
pub use or_else::OrElse;
pub use promise::{promise, Complete, Promise};
pub use select::{Lost, Select, SelectNext};
pub use then::Then;
pub use error::{Abort, Payload, PollError, PollResult};
pub use token::{TokenSet, Tokens};

verus! {

/// A capability to signal that a future may have made progress.
pub trait Wake: Send + Sync + 'static {
    /// The token sets this waker may be called with.
    spec fn accepts(&self, tokens: &Tokens) -> bool;

    /// What holds once the waker has been called with `tokens`.
    spec fn woken(&self, tokens: &Tokens) -> bool;

    /// Signals that the events in `tokens` have happened.
    fn wake(&self, tokens: &Tokens)
        requires
            self.accepts(tokens),
        ensures
            self.woken(tokens),
    ;
}

impl<F> Wake for F where F: Fn(&Tokens) + Send + Sync + 'static {
    open spec fn accepts(&self, tokens: &Tokens) -> bool {
        self.requires((tokens,))
    }

    open spec fn woken(&self, tokens: &Tokens) -> bool {
        self.ensures((tokens,), ())
    }

    fn wake(&self, tokens: &Tokens) {
        self(tokens)
    }
}

/// A waker that a future may keep: it can be called with any token set.
pub open spec fn wakeable(wake: &Arc<Box<dyn Wake>>) -> bool {
    forall|t: Tokens| #[trigger] wake.accepts(&t)
}

/// A value that becomes available later, driven by polling.
///
/// The three operations are described by three relations between the state
/// before, the state after and what was returned. Every implementation says
/// what its relations are; combinators state theirs over those of their
/// children.
///
/// `T` is the type of the value, `E` that of the declared error and `P` that
/// of the payload of an abort. Most futures abort with a plain [`Payload`];
/// a select aborts with a payload that also holds the future that lost.
pub trait Future<T: Send + 'static, E: Send + 'static, P: Abort = Payload>: Send + 'static + Sized {
    /// Well-formedness of the state; every operation keeps it.
    spec fn inv(&self) -> bool;

    /// Whether the terminal result has been handed out.
    spec fn spent(&self) -> bool;

    /// An outcome, value or declared error, that the future may still resolve
    /// to. Whatever a poll returns of the two is among them, and no operation
    /// adds one. Closures that are chained onto the future need only accept
    /// these.
    spec fn may_resolve_to(&self, r: Result<T, E>) -> bool;

    /// `poll` under `tokens` may lead from `self` to `next` and return `out`.
    spec fn polls(&self, tokens: TokenSet, next: &Self, out: Option<PollResult<T, E, P>>) -> bool;

    /// `schedule` may lead from `self` to `next` and return `interest`.
    spec fn schedules(&self, next: &Self, interest: TokenSet) -> bool;

    /// `tailcall` may lead from `self` to `next` and return `tail`.
    spec fn tailcalls(&self, next: &Self, tail: Option<BoxFuture<T, E, P>>) -> bool;

    /// Asks whether the value is available, without blocking. `tokens` is the
    /// set of wake events that have happened since the last call.
    fn poll(&mut self, tokens: &Tokens) -> (out: Option<PollResult<T, E, P>>)
        requires
            old(self).inv(),
        ensures
            final(self).inv(),
            old(self).polls(tokens@, final(self), out),
            old(self).spent() ==> out == Some::<PollResult<T, E, P>>(
                Err(PollError::Panicked(P::reused_spec())),
            ),
            out is Some ==> final(self).spent(),
            out matches Some(Ok(t)) ==> old(self).may_resolve_to(Ok(t)),
            out matches Some(Err(PollError::Other(e))) ==> old(self).may_resolve_to(Err(e)),
            forall|r: Result<T, E>| #[trigger]
                final(self).may_resolve_to(r) ==> old(self).may_resolve_to(r),
    ;

    /// Registers `wake` to be called when the future may have made progress,
    /// replacing an earlier registration, and returns the wake identifiers
    /// this future uses.
    fn schedule(&mut self, wake: Arc<Box<dyn Wake>>) -> (interest: Tokens)
        requires
            old(self).inv(),
            wakeable(&wake),
        ensures
            final(self).inv(),
            old(self).schedules(final(self), interest@),
            final(self).spent() == old(self).spent(),
            forall|r: Result<T, E>| #[trigger]
                final(self).may_resolve_to(r) ==> old(self).may_resolve_to(r),
    ;

    /// Compacts the future's structure. A returned replacement resolves as
    /// this future would have, and this future is to be abandoned.
    fn tailcall(&mut self) -> (tail: Option<BoxFuture<T, E, P>>)
        requires
            old(self).inv(),
        ensures
            final(self).inv(),
            old(self).tailcalls(final(self), tail),
            tail is None ==> final(self).spent() == old(self).spent(),
            tail matches Some(b) ==> b.wf() && b.resolved() == old(self).spent(),
            forall|r: Result<T, E>| #[trigger]
                final(self).may_resolve_to(r) ==> old(self).may_resolve_to(r),
            tail matches Some(b) ==> forall|r: Result<T, E>| #[trigger]
                b.may_give(r) ==> old(self).may_resolve_to(r),
    ;

    /// A second `tailcall` right after one that returned no replacement
    /// returns none either and changes nothing.
    proof fn tailcall_is_idempotent(&self, mid: &Self, last: &Self, tail: Option<BoxFuture<T, E, P>>)
        requires
            self.inv(),
            self.tailcalls(mid, None),
            mid.tailcalls(last, tail),
        ensures
            tail is None,
            *last == *mid,
    ;
}

/// The part of a future that survives type erasure: it can be polled and
/// scheduled, and says which results a poll may return.
trait Erased<T: Send + 'static, E: Send + 'static, P: Abort = Payload>: Send + 'static {
    /// Well-formedness of the erased future.
    spec fn erased_inv(&self) -> bool;

    /// Whether the erased future has handed out its result.
    spec fn erased_spent(&self) -> bool;

    /// An outcome that the erased future may still resolve to.
    spec fn erased_may_resolve_to(&self, r: Result<T, E>) -> bool;

    /// A poll under `tokens` may return `out`.
    spec fn erased_poll_gives(&self, tokens: TokenSet, out: Option<PollResult<T, E, P>>) -> bool;

    /// A call of schedule may return `interest`.
    spec fn erased_schedule_gives(&self, interest: TokenSet) -> bool;

    /// Polls the erased future.
    fn erased_poll(&mut self, tokens: &Tokens) -> (out: Option<PollResult<T, E, P>>)
        requires
            old(self).erased_inv(),
        ensures
            final(self).erased_inv(),
            old(self).erased_poll_gives(tokens@, out),
            old(self).erased_spent() ==> out == Some::<PollResult<T, E, P>>(
                Err(PollError::Panicked(P::reused_spec())),
            ),
            out is Some ==> final(self).erased_spent(),
            out matches Some(Ok(t)) ==> old(self).erased_may_resolve_to(Ok(t)),
            out matches Some(Err(PollError::Other(e))) ==> old(self).erased_may_resolve_to(Err(e)),
            forall|r: Result<T, E>| #[trigger]
                final(self).erased_may_resolve_to(r) ==> old(self).erased_may_resolve_to(r),
    ;

    /// Schedules the erased future.
    fn erased_schedule(&mut self, wake: Arc<Box<dyn Wake>>) -> (interest: Tokens)
        requires
            old(self).erased_inv(),
            wakeable(&wake),
        ensures
            final(self).erased_inv(),
            old(self).erased_schedule_gives(interest@),
            final(self).erased_spent() == old(self).erased_spent(),
            forall|r: Result<T, E>| #[trigger]
                final(self).erased_may_resolve_to(r) ==> old(self).erased_may_resolve_to(r),
    ;
}

impl<T: Send + 'static, E: Send + 'static, F: Future<T, E, P>, P: Abort> Erased<T, E, P> for F {
    closed spec fn erased_inv(&self) -> bool {
        self.inv()
    }

    closed spec fn erased_spent(&self) -> bool {
        self.spent()
    }

    closed spec fn erased_may_resolve_to(&self, r: Result<T, E>) -> bool {
        self.may_resolve_to(r)
    }

    closed spec fn erased_poll_gives(&self, tokens: TokenSet, out: Option<PollResult<T, E, P>>) -> bool {
        exists|next: Self| self.polls(tokens, &next, out)
    }

    closed spec fn erased_schedule_gives(&self, interest: TokenSet) -> bool {
        exists|next: Self| self.schedules(&next, interest)
    }

    fn erased_poll(&mut self, tokens: &Tokens) -> (out: Option<PollResult<T, E, P>>) {
        self.poll(tokens)
    }

    fn erased_schedule(&mut self, wake: Arc<Box<dyn Wake>>) -> (interest: Tokens) {
        self.schedule(wake)
    }
}

/// A future whose concrete type has been erased.
#[verifier::reject_recursive_types(T)]
#[verifier::reject_recursive_types(E)]
#[verifier::reject_recursive_types(P)]
pub struct BoxFuture<T: Send + 'static, E: Send + 'static, P: Abort = Payload> {
    inner: Box<dyn Erased<T, E, P>>,
}

impl<T: Send + 'static, E: Send + 'static, P: Abort> BoxFuture<T, E, P> {
    /// Erases the type of `future`.
    pub fn new<F: Future<T, E, P>>(future: F) -> (b: BoxFuture<T, E, P>)
        requires
            future.inv(),
        ensures
            b.wf(),
            b.resolved() == future.spent(),
            b.holds(future),
    {
        BoxFuture { inner: Box::new(future) }
    }

    /// The box holds a future that behaves as `future` does.
    pub closed spec fn holds<F: Future<T, E, P>>(&self, future: F) -> bool {
        &&& self.inner.erased_inv() == future.inv()
        &&& self.inner.erased_spent() == future.spent()
        &&& forall|tokens: TokenSet, out: Option<PollResult<T, E, P>>| #[trigger]
            self.inner.erased_poll_gives(tokens, out) == future.erased_poll_gives(tokens, out)
        &&& forall|interest: TokenSet| #[trigger]
            self.inner.erased_schedule_gives(interest) == future.erased_schedule_gives(interest)
        &&& forall|r: Result<T, E>| #[trigger]
            self.inner.erased_may_resolve_to(r) == future.may_resolve_to(r)
    }

    /// Well-formedness of the boxed future.
    pub closed spec fn wf(&self) -> bool {
        self.inner.erased_inv()
    }

    /// Whether the boxed future has handed out its result.
    pub closed spec fn resolved(&self) -> bool {
        self.inner.erased_spent()
    }

    /// An outcome that the boxed future may still resolve to.
    pub closed spec fn may_give(&self, r: Result<T, E>) -> bool {
        self.inner.erased_may_resolve_to(r)
    }

    /// What holding a future means: the box is well formed and resolved as
    /// the future is, it may resolve to what the future may resolve to, and
    /// a poll or a schedule of the box may return exactly what a poll or a
    /// schedule of the future may return.
    pub proof fn lemma_holds<F: Future<T, E, P>>(&self, future: F)
        requires
            self.holds(future),
        ensures
            self.wf() == future.inv(),
            self.resolved() == future.spent(),
            forall|tokens: TokenSet, out: Option<PollResult<T, E, P>>| #[trigger]
                self.poll_gives(tokens, out) == (exists|next: F|
                    future.polls(tokens, &next, out)),
            forall|interest: TokenSet| #[trigger]
                self.schedule_gives(interest) == (exists|next: F|
                    future.schedules(&next, interest)),
            forall|r: Result<T, E>| #[trigger] self.may_give(r) == future.may_resolve_to(r),
    {
    }

    /// A poll of the boxed future under `tokens` may return `out`.
    pub closed spec fn poll_gives(&self, tokens: TokenSet, out: Option<PollResult<T, E, P>>) -> bool {
        self.inner.erased_poll_gives(tokens, out)
    }

    /// A call of schedule on the boxed future may return `interest`.
    pub closed spec fn schedule_gives(&self, interest: TokenSet) -> bool {
        self.inner.erased_schedule_gives(interest)
    }
}

impl<T: Send + 'static, E: Send + 'static, P: Abort> Future<T, E, P> for BoxFuture<T, E, P> {
    open spec fn inv(&self) -> bool {
        self.wf()
    }

    open spec fn spent(&self) -> bool {
        self.resolved()
    }

    open spec fn may_resolve_to(&self, r: Result<T, E>) -> bool {
        self.may_give(r)
    }

    open spec fn polls(&self, tokens: TokenSet, next: &Self, out: Option<PollResult<T, E, P>>) -> bool {
        &&& self.poll_gives(tokens, out)
        &&& next.inv()
        &&& self.spent() ==> out == Some::<PollResult<T, E, P>>(
            Err(PollError::Panicked(P::reused_spec())),
        )
        &&& out is Some ==> next.spent()
    }

    open spec fn schedules(&self, next: &Self, interest: TokenSet) -> bool {
        &&& self.schedule_gives(interest)
        &&& next.inv()
        &&& next.spent() == self.spent()
    }

    open spec fn tailcalls(&self, next: &Self, tail: Option<BoxFuture<T, E, P>>) -> bool {
        *next == *self && tail is None
    }

    fn poll(&mut self, tokens: &Tokens) -> (out: Option<PollResult<T, E, P>>) {
        self.inner.erased_poll(tokens)
    }

    fn schedule(&mut self, wake: Arc<Box<dyn Wake>>) -> (interest: Tokens) {
        self.inner.erased_schedule(wake)
    }

    fn tailcall(&mut self) -> (tail: Option<BoxFuture<T, E, P>>) {
        None
    }

    proof fn tailcall_is_idempotent(&self, mid: &Self, last: &Self, tail: Option<BoxFuture<T, E, P>>) {
    }
}

/// A value that can be turned into a future.
pub trait IntoFuture<T: Send + 'static, E: Send + 'static, P: Abort = Payload>: Send + 'static + Sized {
    /// The future this converts to.
    type Future: Future<T, E, P>;

    /// Whether the value is fit to be converted: its future is well formed.
    spec fn convertible(&self) -> bool;

    /// The future the value converts to.
    spec fn converted(self) -> Self::Future;

    /// Consumes the value and produces its future.
    fn into_future(self) -> (f: Self::Future)
        requires
            self.convertible(),
        ensures
            f == self.converted(),
            f.inv(),
    ;
}

impl<F, T, E, P: Abort> IntoFuture<T, E, P> for F where F: Future<T, E, P>, T: Send + 'static, E: Send + 'static {
    type Future = F;

    open spec fn convertible(&self) -> bool {
        self.inv()
    }

    open spec fn converted(self) -> F {
        self
    }

    fn into_future(self) -> (f: F) {
        self
    }
}

// A helper that makes sure that what a combinator returns is a future of the
// expected types.
fn assert_future<T, E, A, P: Abort>(t: A) -> (same: A) where A: Future<T, E, P>, T: Send + 'static, E: Send + 'static
    ensures
        same == t,
{
    t
}

/// The combinators, available on every future.
pub trait FutureExt<T: Send + 'static, E: Send + 'static, P: Abort = Payload>: Future<T, E, P> {
    /// Erases the future's type.
    fn boxed(self) -> (b: BoxFuture<T, E, P>)
        requires
            self.inv(),
        ensures
            b.wf(),
            b.resolved() == self.spent(),
            b.holds(self),
    {
        BoxFuture::new(self)
    }

    /// Maps this future's value to a different type. The closure is only
    /// called if this future resolves to a value.
    fn map<F, U>(self, f: F) -> (m: MapOk<Self, F, T, E, P>) where
        F: FnOnce(T) -> U + Send + 'static,
        U: Send + 'static,

        requires
            self.inv(),
            forall|t: T| self.may_resolve_to(Ok(t)) ==> f.requires((t,)),
        ensures
            m.inv(),
            m.future() == util::Collapsed::<Self, T, E, P>::Start(self),
            m.closure() == Some(f),
    {
        assert_future::<U, E, _, _>(map::new(self, f))
    }

    /// Maps this future's error to a different type. The closure is only
    /// called if this future resolves to its declared error.
    fn map_err<F, U>(self, f: F) -> (m: MapErr<Self, F, T, E, P>) where
        F: FnOnce(E) -> U + Send + 'static,
        U: Send + 'static,

        requires
            self.inv(),
            forall|e: E| self.may_resolve_to(Err(e)) ==> f.requires((e,)),
        ensures
            m.inv(),
            m.future() == util::Collapsed::<Self, T, E, P>::Start(self),
            m.closure() == Some(f),
    {
        assert_future::<T, U, _, _>(map_err::new(self, f))
    }

    /// Maps the payload of this future's aborts to a different type. The
    /// closure is only called if this future aborts.
    fn map_abort<G, Q>(self, g: G) -> (m: MapAbort<Self, G, T, E, P>) where
        G: FnOnce(P) -> Q + Send + 'static,
        Q: Abort,

        requires
            self.inv(),
            map_abort::keeps_reuse::<G, P, Q>(g),
        ensures
            m.inv(),
            m.future() == util::Collapsed::<Self, T, E, P>::Start(self),
            m.closure() == Some(g),
    {
        assert_future::<T, E, _, Q>(map_abort::new(self, g))
    }

    /// Chains a computation onto the end of this future: `f` is given the
    /// outcome, value or declared error, and what it returns is the future
    /// that is resolved next.
    fn then_with<F, B, U, V>(self, f: F) -> (t: Then<Self, B, F, T, E, U, V, P>) where
        F: FnOnce(Result<T, E>) -> B + Send + 'static,
        B: IntoFuture<U, V, P>,
        U: Send + 'static,
        V: Send + 'static,

        requires
            self.inv(),
            then::fits::<Self, B, F, T, E, U, V, P>(f, util::Collapsed::Start(self)),
        ensures
            t.inv(),
            t.state() == chain::Chain::<Self, B::Future, F, T, E, U, V, P>::First(
                util::Collapsed::Start(self),
                f,
            ),
    {
        assert_future::<U, V, _, _>(then::new(self, f))
    }

    /// Runs another future after this one has resolved to a value.
    fn and_then<F, B, U>(self, f: F) -> (t: AndThen<Self, B, F, T, E, U, P>) where
        F: FnOnce(T) -> B + Send + 'static,
        B: IntoFuture<U, E, P>,
        U: Send + 'static,

        requires
            self.inv(),
            and_then::fits::<Self, B, F, T, E, U, P>(f, util::Collapsed::Start(self)),
        ensures
            t.inv(),
            t.state() == chain::Chain::<Self, B::Future, F, T, E, U, E, P>::First(
                util::Collapsed::Start(self),
                f,
            ),
    {
        assert_future::<U, E, _, _>(and_then::new(self, f))
    }

    /// Runs another future after this one has resolved to its declared
    /// error.
    fn or_else<F, B, U>(self, f: F) -> (t: OrElse<Self, B, F, T, E, U, P>) where
        F: FnOnce(E) -> B + Send + 'static,
        B: IntoFuture<T, U, P>,
        U: Send + 'static,

        requires
            self.inv(),
            or_else::fits::<Self, B, F, T, E, U, P>(f, util::Collapsed::Start(self)),
        ensures
            t.inv(),
            t.state() == chain::Chain::<Self, B::Future, F, T, E, T, U, P>::First(
                util::Collapsed::Start(self),
                f,
            ),
    {
        assert_future::<T, U, _, _>(or_else::new(self, f))
    }

    /// Waits for either this future or `other` to resolve. The result comes
    /// with a future that stands for the one that has not resolved, whether
    /// it is a value, a declared error or an abort.
    fn select<B>(self, other: B) -> (s: Select<Self, B::Future, T, E, P>) where B: IntoFuture<T, E, P>
        requires
            self.inv(),
            other.convertible(),
        ensures
            s.inv(),
            s.children() == Some(
                (
                    util::Collapsed::<Self, T, E, P>::Start(self),
                    util::Collapsed::<B::Future, T, E, P>::Start(other.converted()),
                ),
            ),
            s.a_interest() == TokenSet::All,
            s.b_interest() == TokenSet::All,
    {
        let f = select::new(self, other.into_future());
        assert_future::<
            (T, SelectNext<Self, B::Future, T, E, P>),
            (E, SelectNext<Self, B::Future, T, E, P>),
            _, _,
        >(f)
    }

    /// Waits for both this future and `other` to resolve.
    fn join<B, U>(self, other: B) -> (j: Join<Self, B::Future, T, U, E, P>) where
        B: IntoFuture<U, E, P>,
        U: Send + 'static,

        requires
            self.inv(),
            other.convertible(),
        ensures
            j.inv(),
            j.first() == join::MaybeDone::<Self, T, E, P>::Pending(util::Collapsed::Start(self)),
            j.second() == join::MaybeDone::<B::Future, U, E, P>::Pending(
                util::Collapsed::Start(other.converted()),
            ),
            j.a_filter()@ == TokenSet::All,
            j.b_filter()@ == TokenSet::All,
    {
        let f = join::new(self, other.into_future());
        assert_future::<(T, U), E, _, _>(f)
    }

    /// Flattens this future, whose value is itself a future, into a future
    /// of the final value.
    fn flatten<U>(self) -> (t: Flatten<Self, T, E, U, P>) where T: IntoFuture<U, E, P>, U: Send + 'static
        requires
            self.inv(),
            forall|t: T| self.may_resolve_to(Ok(t)) ==> t.convertible(),
        ensures
            t.inv(),
            t.state() == chain::Chain::<Self, T::Future, (), T, E, U, E, P>::First(
                util::Collapsed::Start(self),
                (),
            ),
    {
        let f = flatten::new(self);
        assert_future::<U, E, _, _>(f)
    }
}

impl<F, T, E, P: Abort> FutureExt<T, E, P> for F where F: Future<T, E, P>, T: Send + 'static, E: Send + 'static {

}

} // verus!
