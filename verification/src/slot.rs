//! A single-occupant cell with one-shot notifications, shared between the
//! two halves of a promise.
//!
//! The cell's behaviour is a state machine on [`State`]; [`Slot`] puts one
//! such state behind a lock. A notification that becomes due is handed back
//! to the caller of the operation that made it due, who delivers it once the
//! lock has been released.

use crate::token::Tokens;
use crate::{wakeable, Wake};
use std::sync::Arc;
use vstd::prelude::*;
use vstd::rwlock::{RwLock, RwLockPredicate};

verus! {

/// What is to be done when a slot becomes full: call `wake` with `tokens`.
pub struct Waiter {
    /// The waker to call.
    pub wake: Arc<Box<dyn Wake>>,
    /// The tokens to call it with.
    pub tokens: Tokens,
}

impl Waiter {
    /// The waker may be called.
    pub open spec fn inv(&self) -> bool {
        wakeable(&self.wake)
    }

    /// The notification that calls `wake` with a copy of `tokens`.
    pub fn new(wake: Arc<Box<dyn Wake>>, tokens: &Tokens) -> (w: Waiter)
        ensures
            w.wake == wake,
            w.tokens@ == tokens@,
    {
        Waiter { wake, tokens: tokens.duplicate() }
    }

    /// Delivers the notification.
    pub fn fire(self)
        requires
            self.inv(),
        ensures
            self.wake.woken(&self.tokens),
    {
        self.wake.wake(&self.tokens);
    }
}

/// Names one registration, so that it can be revoked.
#[derive(Debug, Clone, Copy, PartialEq, Eq, Structural)]
pub struct Token {
    /// The number of the registration.
    pub id: usize,
}

/// The value that could not be put into a full slot.
pub struct TryProduceError<V>(pub V);

impl<V> TryProduceError<V> {
    /// The value that was refused.
    pub fn into_inner(self) -> (v: V)
        ensures
            v == self.0,
    {
        self.0
    }
}

/// The slot was empty.
#[derive(Debug, Clone, Copy, PartialEq, Eq, Structural)]
pub struct TryConsumeError;

/// The number that follows `id`, starting over after the largest.
pub open spec fn following(id: usize) -> usize {
    if id == usize::MAX {
        0
    } else {
        (id + 1) as usize
    }
}

/// The contents of a slot.
pub struct State<V> {
    /// The occupant.
    pub value: Option<V>,
    /// A value waiting for the slot to become empty.
    pub queued: Option<V>,
    /// The notification to deliver when the slot becomes full.
    pub waiter: Option<Waiter>,
    /// The registration of `waiter`.
    pub waiter_id: usize,
    /// The registration of `queued`.
    pub queued_id: usize,
    /// The number of the next registration.
    pub next_id: usize,
}

impl<V> State<V> {
    /// A waiter is only kept while the slot is empty, a value is only queued
    /// while it is full, and a kept waiter may be called.
    pub open spec fn inv(&self) -> bool {
        &&& self.value is Some ==> self.waiter is None
        &&& self.queued is Some ==> self.value is Some
        &&& self.waiter matches Some(w) ==> w.inv()
    }

    /// The state of a new slot.
    pub open spec fn fresh(initial: Option<V>) -> State<V> {
        State {
            value: initial,
            queued: None,
            waiter: None,
            waiter_id: 0,
            queued_id: 0,
            next_id: 0,
        }
    }

    /// Putting `v` into the slot: refused while the slot is full; otherwise
    /// `v` becomes the occupant and the kept waiter becomes due.
    pub open spec fn after_produce(self, v: V) -> (State<V>, Result<Option<Waiter>, TryProduceError<V>>) {
        if self.value is Some {
            (self, Err(TryProduceError(v)))
        } else {
            (State { value: Some(v), waiter: None, ..self }, Ok(self.waiter))
        }
    }

    /// Taking the occupant out: refused while the slot is empty; otherwise a
    /// queued value moves in at once.
    pub open spec fn after_consume(self) -> (State<V>, Result<V, TryConsumeError>) {
        match self.value {
            None => (self, Err(TryConsumeError)),
            Some(v) => (State { value: self.queued, queued: None, ..self }, Ok(v)),
        }
    }

    /// Registering `w` for the slot becoming full: due at once while the slot
    /// is full; otherwise kept in place of any earlier waiter.
    pub open spec fn after_on_full(self, w: Waiter) -> (State<V>, (Token, Option<Waiter>)) {
        let token = Token { id: self.next_id };
        if self.value is Some {
            (State { next_id: following(self.next_id), ..self }, (token, Some(w)))
        } else {
            (
                State {
                    waiter: Some(w),
                    waiter_id: self.next_id,
                    next_id: following(self.next_id),
                    ..self
                },
                (token, None),
            )
        }
    }

    /// Registering `v` to be produced when the slot is empty: produced at
    /// once while it is empty; otherwise queued in place of any earlier
    /// queued value.
    pub open spec fn after_on_empty(self, v: V) -> (State<V>, (Token, Option<Waiter>)) {
        let token = Token { id: self.next_id };
        if self.value is None {
            (
                State { value: Some(v), waiter: None, next_id: following(self.next_id), ..self },
                (token, self.waiter),
            )
        } else {
            (
                State {
                    queued: Some(v),
                    queued_id: self.next_id,
                    next_id: following(self.next_id),
                    ..self
                },
                (token, None),
            )
        }
    }

    /// Revoking the registration `token`: a kept waiter or a queued value
    /// with that registration is dropped; anything else stays.
    pub open spec fn after_cancel(self, token: Token) -> State<V> {
        if self.waiter is Some && self.waiter_id == token.id {
            State { waiter: None, ..self }
        } else if self.queued is Some && self.queued_id == token.id {
            State { queued: None, ..self }
        } else {
            self
        }
    }

    /// The state of a new slot.
    pub fn new(initial: Option<V>) -> (s: State<V>)
        ensures
            s == State::fresh(initial),
            s.inv(),
    {
        State { value: initial, queued: None, waiter: None, waiter_id: 0, queued_id: 0, next_id: 0 }
    }

    fn register(&mut self) -> (id: usize)
        ensures
            id == old(self).next_id,
            *final(self) == (State { next_id: following(old(self).next_id), ..*old(self) }),
    {
        let id = self.next_id;
        self.next_id = if id == usize::MAX {
            0
        } else {
            id + 1
        };
        id
    }

    /// Puts `v` into the slot if it is empty.
    pub fn produce(&mut self, v: V) -> (out: Result<Option<Waiter>, TryProduceError<V>>)
        ensures
            (*final(self), out) == old(self).after_produce(v),
            old(self).inv() ==> final(self).inv(),
            old(self).inv() ==> (out matches Ok(Some(w)) ==> w.inv()),
    {
        if self.value.is_some() {
            Err(TryProduceError(v))
        } else {
            self.value = Some(v);
            Ok(self.waiter.take())
        }
    }

    /// Takes the occupant out of the slot if there is one.
    pub fn consume(&mut self) -> (out: Result<V, TryConsumeError>)
        ensures
            (*final(self), out) == old(self).after_consume(),
            old(self).inv() ==> final(self).inv(),
    {
        match self.value.take() {
            None => Err(TryConsumeError),
            Some(v) => {
                self.value = self.queued.take();
                Ok(v)
            },
        }
    }

    /// Registers `w` to be delivered when the slot is full.
    pub fn on_full(&mut self, w: Waiter) -> (out: (Token, Option<Waiter>))
        requires
            w.inv(),
        ensures
            (*final(self), out) == old(self).after_on_full(w),
            old(self).inv() ==> final(self).inv(),
            out.1 matches Some(due) ==> due.inv(),
    {
        let id = self.register();
        if self.value.is_some() {
            (Token { id }, Some(w))
        } else {
            self.waiter = Some(w);
            self.waiter_id = id;
            (Token { id }, None)
        }
    }

    /// Registers `v` to be produced when the slot is empty.
    pub fn on_empty(&mut self, v: V) -> (out: (Token, Option<Waiter>))
        ensures
            (*final(self), out) == old(self).after_on_empty(v),
            old(self).inv() ==> final(self).inv(),
            old(self).inv() ==> (out.1 matches Some(due) ==> due.inv()),
    {
        let id = self.register();
        if self.value.is_none() {
            self.value = Some(v);
            (Token { id }, self.waiter.take())
        } else {
            self.queued = Some(v);
            self.queued_id = id;
            (Token { id }, None)
        }
    }

    /// Revokes the registration `token` if it has not come due.
    pub fn cancel(&mut self, token: Token)
        ensures
            *final(self) == old(self).after_cancel(token),
            old(self).inv() ==> final(self).inv(),
    {
        if self.waiter.is_some() && self.waiter_id == token.id {
            self.waiter = None;
        } else if self.queued.is_some() && self.queued_id == token.id {
            self.queued = None;
        }
    }
}

/// The lock's condition on the state it guards.
pub struct Guarded {}

impl<V> RwLockPredicate<State<V>> for Guarded {
    open spec fn inv(self, s: State<V>) -> bool {
        s.inv()
    }
}

/// A slot that several owners may use at once.
pub struct Slot<V> {
    state: RwLock<State<V>, Guarded>,
}

impl<V> Slot<V> {
    /// Creates a slot, empty or holding `initial`.
    pub fn new(initial: Option<V>) -> (s: Slot<V>) {
        Slot { state: RwLock::new(State::new(initial), Ghost(Guarded {  })) }
    }

    /// Puts `v` into the slot if it is empty. What is returned is what the
    /// state machine gives on the state the slot was in; a waiter that came
    /// due is for the caller to deliver.
    pub fn try_produce(&self, v: V) -> (out: Result<Option<Waiter>, TryProduceError<V>>)
        ensures
            exists|at: State<V>| at.inv() && out == #[trigger] at.after_produce(v).1,
            out matches Ok(Some(w)) ==> w.inv(),
    {
        let (mut state, guard) = self.state.acquire_write();
        let ghost at = state;
        let out = state.produce(v);
        guard.release_write(state);
        assert(at.inv() && out == at.after_produce(v).1);
        out
    }

    /// Takes the occupant out of the slot if there is one.
    pub fn try_consume(&self) -> (out: Result<V, TryConsumeError>)
        ensures
            exists|at: State<V>| at.inv() && out == #[trigger] at.after_consume().1,
    {
        let (mut state, guard) = self.state.acquire_write();
        let ghost at = state;
        let out = state.consume();
        guard.release_write(state);
        assert(at.inv() && out == at.after_consume().1);
        out
    }

    /// Registers `w` to be delivered when the slot is full. A waiter that is
    /// returned is due now and for the caller to deliver.
    pub fn on_full(&self, w: Waiter) -> (out: (Token, Option<Waiter>))
        requires
            w.inv(),
        ensures
            exists|at: State<V>| at.inv() && out == #[trigger] at.after_on_full(w).1,
            out.1 matches Some(due) ==> due.inv(),
    {
        let (mut state, guard) = self.state.acquire_write();
        let ghost at = state;
        let out = state.on_full(w);
        guard.release_write(state);
        assert(at.inv() && out == at.after_on_full(w).1);
        out
    }

    /// Registers `v` to be produced when the slot is empty. A waiter that is
    /// returned is due now and for the caller to deliver.
    pub fn on_empty(&self, v: V) -> (out: (Token, Option<Waiter>))
        ensures
            exists|at: State<V>| at.inv() && out == #[trigger] at.after_on_empty(v).1,
            out.1 matches Some(due) ==> due.inv(),
    {
        let (mut state, guard) = self.state.acquire_write();
        let ghost at = state;
        let out = state.on_empty(v);
        guard.release_write(state);
        assert(at.inv() && out == at.after_on_empty(v).1);
        out
    }

    /// Revokes the registration `token` if it has not come due.
    pub fn cancel(&self, token: Token) {
        let (mut state, guard) = self.state.acquire_write();
        state.cancel(token);
        guard.release_write(state);
    }
}

} // verus!
