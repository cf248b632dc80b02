//! A future that is completed from elsewhere, and the handle that completes
//! it.

use crate::error::{Payload, PollError, PollResult, reused};
use crate::slot::{Slot, Token, TryConsumeError, Waiter};
use crate::token::{TokenSet, Tokens};
use crate::util::wake_now;
use crate::{BoxFuture, Future, Wake};
use std::sync::atomic::{AtomicBool, AtomicUsize, Ordering};
use std::sync::Arc;
use vstd::prelude::*;

verus! {

/// A future representing the completion of a computation happening
/// elsewhere.
///
/// Neither half has a destructor. Whoever owns a promise calls
/// [`Promise::revoke`] before letting it go, and whoever owns a completer
/// calls [`Complete::abandon`].
pub struct Promise<T, E> where T: Send + Sync + 'static, E: Send + Sync + 'static {
    inner: Arc<Inner<T, E>>,
    cancel_token: Option<Token>,
    used: bool,
    token: usize,
}

/// The completion half of a promise, through which the result of the
/// computation is signaled.
pub struct Complete<T, E> where T: Send + Sync + 'static, E: Send + Sync + 'static {
    inner: Arc<Inner<T, E>>,
    completed: bool,
}

struct Inner<T, E> {
    slot: Slot<Option<Result<T, E>>>,
    pending_wake: AtomicBool,
}

/// What a promise makes of what it found in its slot: a completion becomes
/// the result, a completer that went away a cancellation, and an empty slot
/// means the result is not there yet.
pub open spec fn observed<T, E>(
    found: Result<Option<Result<T, E>>, TryConsumeError>,
) -> Option<PollResult<T, E>> {
    match found {
        Ok(Some(Ok(t))) => Some(Ok(t)),
        Ok(Some(Err(e))) => Some(Err(PollError::Other(e))),
        Ok(None) => Some(Err(PollError::Panicked(Payload::Canceled))),
        Err(_) => None,
    }
}

/// Creates a promise and its completer. The promise's wake identifier is
/// drawn from `count`, which is advanced; promises that draw from one counter
/// have distinct identifiers until the counter wraps.
pub fn promise<T, E>(count: &AtomicUsize) -> (pair: (Promise<T, E>, Complete<T, E>)) where
    T: Send + Sync + 'static,
    E: Send + Sync + 'static,

    ensures
        !pair.0.used(),
        pair.0.registration() is None,
        !pair.1.completed(),
        pair.0.paired(&pair.1),
{
    promise_with_token(count.fetch_add(1, Ordering::SeqCst))
}

/// Creates a promise with the wake identifier `token`, and its completer.
pub fn promise_with_token<T, E>(token: usize) -> (pair: (Promise<T, E>, Complete<T, E>)) where
    T: Send + Sync + 'static,
    E: Send + Sync + 'static,

    ensures
        pair.0.token() == token,
        !pair.0.used(),
        pair.0.registration() is None,
        !pair.1.completed(),
        pair.0.paired(&pair.1),
{
    let inner = Arc::new(Inner { slot: Slot::new(None), pending_wake: AtomicBool::new(false) });
    let promise = Promise { inner: inner.clone(), cancel_token: None, used: false, token };
    let complete = Complete { inner, completed: false };
    (promise, complete)
}

fn deliver<T, E>(inner: &Inner<T, E>, due: Option<Waiter>)
    requires
        due matches Some(w) ==> w.inv(),
{
    if let Some(w) = due {
        inner.pending_wake.store(false, Ordering::SeqCst);
        w.fire();
    }
}

impl<T, E> Complete<T, E> where T: Send + Sync + 'static, E: Send + Sync + 'static {
    /// Whether a result has been given.
    pub closed spec fn completed(&self) -> bool {
        self.completed
    }

    /// Completes the promise with a successful result.
    pub fn finish(self, t: T) {
        let mut this = self;
        this.completed = true;
        this.complete(Some(Ok(t)))
    }

    /// Completes the promise with a failed result.
    pub fn fail(self, e: E) {
        let mut this = self;
        this.completed = true;
        this.complete(Some(Err(e)))
    }

    /// Puts `t` into the slot, or behind its occupant if it has one, and
    /// delivers the notification that this makes due.
    fn complete(&mut self, t: Option<Result<T, E>>)
        ensures
            *final(self) == *old(self),
    {
        match self.inner.slot.try_produce(t) {
            Ok(due) => deliver(&self.inner, due),
            Err(full) => {
                let (_, due) = self.inner.slot.on_empty(full.into_inner());
                deliver(&self.inner, due)
            },
        }
    }

    /// What a completer that goes away hands to the slot: "no result" if it
    /// has not been completed, and nothing at all if it has. Either way it
    /// counts as completed from now on.
    pub fn parting(&mut self) -> (handed: Option<Option<Result<T, E>>>)
        ensures
            handed == (if old(self).completed() {
                None::<Option<Result<T, E>>>
            } else {
                Some(None::<Result<T, E>>)
            }),
            final(self).completed(),
            forall|promise: Promise<T, E>| #[trigger]
                promise.paired(final(self)) == promise.paired(old(self)),
    {
        if self.completed {
            None
        } else {
            self.completed = true;
            Some(None)
        }
    }

    /// Gives up the promise unless it has been completed: the promise then
    /// resolves as canceled. The owner of a completer calls this when it lets
    /// the completer go.
    pub fn abandon(&mut self)
        ensures
            final(self).completed(),
    {
        if let Some(nothing) = self.parting() {
            self.complete(nothing);
        }
    }
}

impl<T, E> Promise<T, E> where T: Send + Sync + 'static, E: Send + Sync + 'static {
    /// Whether the result has been taken out of the slot.
    pub closed spec fn used(&self) -> bool {
        self.used
    }

    /// The promise's wake identifier.
    pub closed spec fn token(&self) -> usize {
        self.token
    }

    /// The registration of the waker that was scheduled last.
    pub closed spec fn registration(&self) -> Option<Token> {
        self.cancel_token
    }

    /// Whether `complete` is the handle that completes this promise.
    pub closed spec fn paired(&self, complete: &Complete<T, E>) -> bool {
        self.inner == complete.inner
    }

    /// This promise once it has taken its result.
    pub closed spec fn consumed(&self) -> Self {
        Promise { used: true, ..*self }
    }

    /// This promise with another registration.
    pub closed spec fn registered(&self, registration: Option<Token>) -> Self {
        Promise { cancel_token: registration, ..*self }
    }

    /// What the two derived states keep and change.
    pub proof fn lemma_derived(&self, registration: Option<Token>)
        ensures
            self.consumed().used(),
            self.consumed().token() == self.token(),
            self.consumed().registration() == self.registration(),
            self.registered(registration).used() == self.used(),
            self.registered(registration).token() == self.token(),
            self.registered(registration).registration() == registration,
            self.registered(self.registration()) == *self,
            forall|complete: Complete<T, E>| #[trigger]
                self.paired(&complete) ==> self.consumed().paired(&complete)
                    && self.registered(registration).paired(&complete),
    {
    }

    /// Whether a poll has to return at once without touching the slot, given
    /// whether a wake is pending: a promise that has not taken its result
    /// waits for the wake it has registered for.
    pub fn waits(&self, pending: bool) -> (wait: bool)
        ensures
            wait == (!self.used() && pending),
    {
        !self.used && pending
    }

    /// Turns what was found in the slot into the outcome of a poll, and
    /// remembers that the result has been taken.
    pub fn settle(&mut self, found: Result<Option<Result<T, E>>, TryConsumeError>) -> (out: Option<
        PollResult<T, E>,
    >)
        ensures
            out == observed(found),
            *final(self) == (if found is Ok {
                old(self).consumed()
            } else {
                *old(self)
            }),
    {
        let ret = match found {
            Ok(Some(Ok(t))) => Ok(t),
            Ok(Some(Err(e))) => Err(PollError::Other(e)),
            Ok(None) => Err(PollError::Panicked(Payload::Canceled)),
            Err(_) => {
                return None;
            },
        };
        self.used = true;
        Some(ret)
    }

    /// A poll, given whether a wake is pending. While the promise waits (see
    /// [`Promise::waits`]) nothing is returned, the slot is not looked at and
    /// the promise stays as it is. A promise that has taken its result
    /// reports reuse. Otherwise the slot is asked and what it gave is settled
    /// (see [`Promise::settle`]).
    pub fn poll_when(&mut self, pending: bool) -> (out: Option<PollResult<T, E>>)
        ensures
            !old(self).used() && pending ==> out is None && *final(self) == *old(self),
            old(self).used() ==> *final(self) == *old(self) && out == Some::<PollResult<T, E>>(
                Err(PollError::Panicked(Payload::Reused)),
            ),
            !old(self).used() && !pending ==> (match out {
                None => *final(self) == *old(self),
                Some(r) => *final(self) == old(self).consumed() && r != Err::<T, PollError<E>>(
                    PollError::Panicked(Payload::Reused),
                ),
            }),
    {
        if self.waits(pending) {
            return None;
        }
        if self.used {
            return Some(Err(reused()));
        }
        let found = self.inner.slot.try_consume();
        self.settle(found)
    }

    /// Revokes the waker that was scheduled last, if it has not been called.
    /// The owner of a promise calls this when it lets the promise go.
    pub fn revoke(&mut self)
        ensures
            *final(self) == old(self).registered(None),
    {
        if let Some(cancel_token) = self.cancel_token.take() {
            self.inner.slot.cancel(cancel_token)
        }
    }
}

impl<T: Send + Sync + 'static, E: Send + Sync + 'static> Future<T, E> for Promise<T, E> {
    open spec fn inv(&self) -> bool {
        true
    }

    open spec fn spent(&self) -> bool {
        self.used()
    }

    /// What a promise resolves to is for its completer to say.
    open spec fn may_resolve_to(&self, r: Result<T, E>) -> bool {
        !self.used()
    }

    /// A promise that has taken its result reports reuse. Before that a poll
    /// either returns nothing and changes nothing, because a wake is pending
    /// or the slot is empty, or it takes the result out of the slot: the
    /// completion, or a cancellation. [`Promise::poll_when`] says which, for
    /// each state of the pending wake.
    open spec fn polls(&self, tokens: TokenSet, next: &Self, out: Option<PollResult<T, E>>) -> bool {
        if self.used() {
            *next == *self && out == Some::<PollResult<T, E>>(
                Err(PollError::Panicked(Payload::Reused)),
            )
        } else {
            match out {
                None => *next == *self,
                Some(r) => *next == self.consumed() && r != Err::<T, PollError<E>>(
                    PollError::Panicked(Payload::Reused),
                ),
            }
        }
    }

    /// A promise that has taken its result asks to be polled at once. Before
    /// that it registers the waker under its own identifier, which it returns
    /// alone, and keeps the new registration.
    open spec fn schedules(&self, next: &Self, interest: TokenSet) -> bool {
        if self.used() {
            *next == *self && interest == TokenSet::All
        } else {
            interest == TokenSet::Only(set![self.token()]) && exists|registration: Token|
                *next == #[trigger] self.registered(Some(registration))
        }
    }

    open spec fn tailcalls(&self, next: &Self, tail: Option<BoxFuture<T, E>>) -> bool {
        *next == *self && tail is None
    }

    fn poll(&mut self, _tokens: &Tokens) -> (out: Option<PollResult<T, E>>) {
        let pending = self.inner.pending_wake.load(Ordering::SeqCst);
        self.poll_when(pending)
    }

    /// A promise that has taken its result calls the waker on the spot.
    fn schedule(&mut self, wake: Arc<Box<dyn Wake>>) -> (interest: Tokens)
        ensures
            old(self).used() ==> wake.woken(&interest),
    {
        let tokens = Tokens::from_id(self.token);
        if self.used {
            return wake_now(wake);
        }
        if self.inner.pending_wake.load(Ordering::SeqCst) {
            self.revoke();
        }
        self.inner.pending_wake.store(true, Ordering::SeqCst);
        let (registration, due) = self.inner.slot.on_full(Waiter::new(wake, &tokens));
        self.cancel_token = Some(registration);
        if let Some(w) = due {
            self.inner.pending_wake.store(false, Ordering::SeqCst);
            w.fire();
        }
        assert(*self == old(self).registered(Some(registration)));
        tokens
    }

    fn tailcall(&mut self) -> (tail: Option<BoxFuture<T, E>>) {
        None
    }

    proof fn tailcall_is_idempotent(
        &self,
        mid: &Self,
        last: &Self,
        tail: Option<BoxFuture<T, E>>,
    ) {
    }
}

} // verus!
