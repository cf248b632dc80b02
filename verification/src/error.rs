//! The result of polling a future.

use vstd::prelude::*;

verus! {

/// Why a computation was aborted rather than failed.
#[derive(Debug, Clone, Copy, PartialEq, Eq, Structural)]
pub enum Payload {
    /// The future was polled again after it had handed out its result.
    Reused,
    /// The promise's completer went away without completing it.
    Canceled,
}

/// What an abort carries. Every kind of payload can say that a future was
/// polled again after it had resolved.
pub trait Abort: Send + 'static + Sized {
    /// The payload of the abort that answers a poll after the result.
    spec fn reused_spec() -> Self;

    /// The payload of the abort that answers a poll after the result.
    fn reused() -> (p: Self)
        ensures
            p == Self::reused_spec(),
    ;
}

impl Abort for Payload {
    open spec fn reused_spec() -> Payload {
        Payload::Reused
    }

    fn reused() -> (p: Payload) {
        Payload::Reused
    }
}

/// The error half of a poll result: the computation's own error, or an abort
/// with its payload. Most futures abort with a plain [`Payload`].
#[derive(Debug, PartialEq, Eq)]
pub enum PollError<E, P = Payload> {
    /// The computation failed with its declared error.
    Other(E),
    /// The computation was aborted; the payload says why.
    Panicked(P),
}

/// What a future resolves to.
pub type PollResult<T, E, P = Payload> = Result<T, PollError<E, P>>;

impl<E, P> PollError<E, P> {
    /// Transforms the declared error and leaves an abort as it is.
    pub fn map<F, U>(self, f: F) -> (mapped: PollError<U, P>) where F: FnOnce(E) -> U
        requires
            self matches PollError::Other(e) ==> f.requires((e,)),
        ensures
            match self {
                PollError::Other(e) => mapped matches PollError::Other(u) && f.ensures((e,), u),
                PollError::Panicked(p) => mapped == PollError::<U, P>::Panicked(p),
            },
    {
        match self {
            PollError::Other(e) => PollError::Other(f(e)),
            PollError::Panicked(p) => PollError::Panicked(p),
        }
    }
}

/// The abort reported to whoever polls a future that has already resolved.
pub fn reused<E>() -> (e: PollError<E>)
    ensures
        e == PollError::<E>::Panicked(Payload::Reused),
{
    PollError::Panicked(Payload::Reused)
}

/// The abort reported to whoever polls a future that has already resolved,
/// for any kind of payload.
pub fn reused_as<E, P: Abort>() -> (e: PollError<E, P>)
    ensures
        e == PollError::<E, P>::Panicked(P::reused_spec()),
{
    PollError::Panicked(P::reused())
}

/// Lifts the declared outcome of a computation into a poll result.
pub open spec fn lifted<T, E>(r: Result<T, E>) -> PollResult<T, E> {
    match r {
        Ok(t) => Ok(t),
        Err(e) => Err(PollError::Other(e)),
    }
}

/// What a one-shot holder resolves to: its value while it still has one, the
/// reuse abort afterwards.
pub open spec fn taken<T, E>(held: Option<T>) -> PollResult<T, E> {
    match held {
        Some(t) => Ok(t),
        None => Err(PollError::Panicked(Payload::Reused)),
    }
}

/// Turns what was taken out of a one-shot holder into a poll result.
pub fn opt2poll<T, E>(held: Option<T>) -> (r: PollResult<T, E>)
    ensures
        r == taken::<T, E>(held),
{
    match held {
        Some(t) => Ok(t),
        None => Err(reused()),
    }
}

} // verus!
