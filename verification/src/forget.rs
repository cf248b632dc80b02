//! One round of driving a future to completion.
//!
//! A driver owns a future, calls [`drive`] once at the start and once more
//! each time the waker it handed in has been called, and stops at the first
//! result.

use crate::error::{Abort, PollResult};
use crate::token::{TokenSet, Tokens};
use crate::util::Collapsed;
use crate::{wakeable, Future, Wake};
use std::sync::Arc;
use vstd::prelude::*;

verus! {

/// What one round of driving does: the future is polled; if it is not ready
/// it is compacted and then scheduled.
pub open spec fn driven<F, T, E, P: Abort>(
    before: Collapsed<F, T, E, P>,
    tokens: TokenSet,
    after: Collapsed<F, T, E, P>,
    out: Option<PollResult<T, E, P>>,
) -> bool where F: Future<T, E, P>, T: Send + 'static, E: Send + 'static {
    exists|polled: Collapsed<F, T, E, P>| #[trigger]
        before.polls(tokens, &polled, out) && match out {
            Some(_) => after == polled,
            None => exists|compact: Collapsed<F, T, E, P>, interest: TokenSet|
                polled.collapses(&compact) && #[trigger] compact.schedules(&after, interest),
        }
}

/// Drives `future` for one round: polls it under `tokens` and, if it is not
/// ready, compacts it and registers `wake` with it.
pub fn drive<F, T, E, P: Abort>(
    future: &mut Collapsed<F, T, E, P>,
    tokens: &Tokens,
    wake: Arc<Box<dyn Wake>>,
) -> (out: Option<PollResult<T, E, P>>) where F: Future<T, E, P>, T: Send + 'static, E: Send + 'static
    requires
        old(future).inv(),
        wakeable(&wake),
    ensures
        final(future).inv(),
        driven(*old(future), tokens@, *final(future), out),
        out is Some ==> final(future).spent(),
        out matches Some(Ok(t)) ==> old(future).may_resolve_to(Ok(t)),
        out matches Some(Err(crate::error::PollError::Other(e))) ==> old(future).may_resolve_to(
            Err(e),
        ),
{
    let out = future.poll(tokens);
    let ghost polled = *future;
    if out.is_none() {
        future.collapse();
        let ghost compact = *future;
        let interest = future.schedule(wake);
        assert(compact.schedules(future, interest@));
        assert(polled.collapses(&compact));
    }
    assert(old(future).polls(tokens@, &polled, out));
    out
}

} // verus!
