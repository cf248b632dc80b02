//! What holds of the futures of this crate, stated over their relations.

use crate::and_then::AndThen;
use crate::chain::Chain;
use crate::done::Done;
use crate::error::{Abort, Payload, PollError, PollResult};
use crate::failed::Failed;
use crate::finished::Finished;
use crate::flatten::Flatten;
use crate::join::{Join, MaybeDone};
use crate::map::MapOk;
use crate::map_err::MapErr;
use crate::or_else::OrElse;
use crate::promise::observed;
use crate::select::{settled, Lost, Select, SelectNext};
use crate::slot::State;
use crate::then::Then;
use crate::token::TokenSet;
use crate::util::Collapsed;
use crate::{Future, IntoFuture};
use vstd::prelude::*;

verus! {

/// The tokens a select returns from a schedule cover the tokens that each of
/// its futures returned.
pub proof fn select_interest_covers_children<A, B, T, E, P: Abort>(
    s: Select<A, B, T, E, P>,
    next: Select<A, B, T, E, P>,
    interest: TokenSet,
) where A: Future<T, E, P>, B: Future<T, E, P>, T: Send + 'static, E: Send + 'static
    requires
        s.schedules(&next, interest),
        s.children() is Some,
    ensures
        match (s.children(), next.children()) {
            (Some((a, b)), Some((a2, b2))) => a.schedules(&a2, next.a_interest()) && b.schedules(
                &b2,
                next.b_interest(),
            ),
            _ => false,
        },
        interest.covers(next.a_interest()),
        interest.covers(next.b_interest()),
{
}

/// The tokens a join returns from a schedule cover the tokens that each of
/// its futures returned.
pub proof fn join_interest_covers_children<A, B, T, U, E, P: Abort>(
    j: Join<A, B, T, U, E, P>,
    next: Join<A, B, T, U, E, P>,
    interest: TokenSet,
) where A: Future<T, E, P>, B: Future<U, E, P>, T: Send + 'static, U: Send + 'static, E: Send + 'static
    requires
        j.schedules(&next, interest),
    ensures
        j.first() is Pending ==> j.first().schedules(&next.first(), next.a_filter()@)
            && interest.covers(next.a_filter()@),
        j.second() is Pending ==> j.second().schedules(&next.second(), next.b_filter()@)
            && interest.covers(next.b_filter()@),
{
}

/// A combinator over one future returns from a schedule exactly the tokens
/// that its future returned.
pub proof fn unary_interest_is_the_child_s<A, F, G, T, E, U, V, P: Abort>(
    m: MapOk<A, F, T, E, P>,
    m2: MapOk<A, F, T, E, P>,
    e: MapErr<A, G, T, E, P>,
    e2: MapErr<A, G, T, E, P>,
    interest: TokenSet,
) where
    A: Future<T, E, P>,
    F: FnOnce(T) -> U + Send + 'static,
    G: FnOnce(E) -> V + Send + 'static,
    T: Send + 'static,
    E: Send + 'static,
    U: Send + 'static,
    V: Send + 'static,

    ensures
        m.schedules(&m2, interest) ==> m.future().schedules(&m2.future(), interest),
        e.schedules(&e2, interest) ==> e.future().schedules(&e2.future(), interest),
{
}

/// A chain returns from a schedule exactly the tokens that the future of its
/// current stage returned.
pub proof fn chain_interest_is_the_stage_s<A, B, C, T, E, U, V, P: Abort>(
    c: Chain<A, B, C, T, E, U, V, P>,
    next: Chain<A, B, C, T, E, U, V, P>,
    interest: TokenSet,
) where
    A: Future<T, E, P>,
    B: Future<U, V, P>,
    T: Send + 'static,
    E: Send + 'static,
    U: Send + 'static,
    V: Send + 'static,

    requires
        c.schedules(&next, interest),
    ensures
        c matches Chain::First(a, _) ==> next matches Chain::First(a2, _) && a.schedules(
            &a2,
            interest,
        ),
        c matches Chain::Second(b) ==> next matches Chain::Second(b2) && b.schedules(
            &b2,
            interest,
        ),
{
}

/// A select leaves alone a future whose registered tokens cannot meet the
/// tokens it is polled under: the first future in any case, the second one
/// when the first was polled and was not ready.
pub proof fn select_skips_what_cannot_have_progressed<A, B, T, E, P: Abort>(
    s: Select<A, B, T, E, P>,
    tokens: TokenSet,
    next: Select<A, B, T, E, P>,
    out: Option<PollResult<
        (T, SelectNext<A, B, T, E, P>),
        (E, SelectNext<A, B, T, E, P>),
        Lost<P, SelectNext<A, B, T, E, P>>,
    >>,
) where A: Future<T, E, P>, B: Future<T, E, P>, T: Send + 'static, E: Send + 'static
    requires
        s.polls(tokens, &next, out),
        s.children() is Some,
        out is None,
    ensures
        match (s.children(), next.children()) {
            (Some((a, b)), Some((a2, b2))) => {
                &&& !s.a_interest().may_contain(tokens) ==> a2 == a
                &&& s.a_interest().may_contain(tokens) && !s.b_interest().may_contain(tokens)
                    ==> b2 == b
            },
            _ => false,
        },
{
}

/// A join whose futures' registered tokens cannot meet the tokens it is
/// polled under returns nothing and stays as it is.
pub proof fn join_skips_what_cannot_have_progressed<A, B, T, U, E, P: Abort>(
    j: Join<A, B, T, U, E, P>,
    tokens: TokenSet,
    next: Join<A, B, T, U, E, P>,
    out: Option<PollResult<(T, U), E, P>>,
) where A: Future<T, E, P>, B: Future<U, E, P>, T: Send + 'static, U: Send + 'static, E: Send + 'static
    requires
        j.polls(tokens, &next, out),
        j.first() is Pending,
        j.second() is Pending,
        !j.a_filter()@.may_contain(tokens),
        !j.b_filter()@.may_contain(tokens),
    ensures
        out is None,
        next.first() == j.first(),
        next.second() == j.second(),
{
}

/// Once the future of a `map` or of a `map_err` has resolved, the closure is
/// no longer held, whether it was called or not.
pub proof fn maps_give_up_their_closure<A, F, G, T, E, U, V, P: Abort>(
    m: MapOk<A, F, T, E, P>,
    m2: MapOk<A, F, T, E, P>,
    out: Option<PollResult<U, E, P>>,
    e: MapErr<A, G, T, E, P>,
    e2: MapErr<A, G, T, E, P>,
    e_out: Option<PollResult<T, V, P>>,
    tokens: TokenSet,
) where
    A: Future<T, E, P>,
    F: FnOnce(T) -> U + Send + 'static,
    G: FnOnce(E) -> V + Send + 'static,
    T: Send + 'static,
    E: Send + 'static,
    U: Send + 'static,
    V: Send + 'static,

    ensures
        m.polls(tokens, &m2, out) && out is Some ==> m2.closure() is None,
        m.polls(tokens, &m2, out) && m2.closure() is Some ==> m2.closure() == m.closure()
            && m.future().polls(tokens, &m2.future(), None),
        e.polls(tokens, &e2, e_out) && e_out is Some ==> e2.closure() is None,
        e.polls(tokens, &e2, e_out) && e2.closure() is Some ==> e2.closure() == e.closure()
            && e.future().polls(tokens, &e2.future(), None),
{
}

/// A chaining combinator holds its closure after a poll only if its first
/// future was polled and was not ready.
pub proof fn chains_give_up_their_closure<A, B, C, D, F, G, H, T, E, U, V, P: Abort>(
    t: Then<A, B, F, T, E, U, V, P>,
    t2: Then<A, B, F, T, E, U, V, P>,
    a: AndThen<A, C, G, T, E, U, P>,
    a2: AndThen<A, C, G, T, E, U, P>,
    a_out: Option<PollResult<U, E, P>>,
    o: OrElse<A, D, H, T, E, V, P>,
    o2: OrElse<A, D, H, T, E, V, P>,
    o_out: Option<PollResult<T, V, P>>,
    tokens: TokenSet,
    out: Option<PollResult<U, V, P>>,
) where
    A: Future<T, E, P>,
    B: IntoFuture<U, V, P>,
    C: IntoFuture<U, E, P>,
    D: IntoFuture<T, V, P>,
    F: FnOnce(Result<T, E>) -> B + Send + 'static,
    G: FnOnce(T) -> C + Send + 'static,
    H: FnOnce(E) -> D + Send + 'static,
    T: Send + 'static,
    E: Send + 'static,
    U: Send + 'static,
    V: Send + 'static,

    ensures
        t.polls(tokens, &t2, out) && t2.state() is First ==> out is None && t.state() is First
            && t2.state()->First_1 == t.state()->First_1 && t.state()->First_0.polls(
            tokens,
            &t2.state()->First_0,
            None,
        ),
        a.polls(tokens, &a2, a_out) && a2.state() is First ==> a_out is None && a.state() is First
            && a2.state()->First_1 == a.state()->First_1 && a.state()->First_0.polls(
            tokens,
            &a2.state()->First_0,
            None,
        ),
        o.polls(tokens, &o2, o_out) && o2.state() is First ==> o_out is None && o.state() is First
            && o2.state()->First_1 == o.state()->First_1 && o.state()->First_0.polls(
            tokens,
            &o2.state()->First_0,
            None,
        ),
{
}

/// What a completer puts into the empty slot is what the promise finds
/// there: a value resolves the promise with the value, an error with the
/// error, and the waiter that was kept comes due. A value that is put behind
/// an occupant is found once the occupant has been taken.
pub proof fn completion_reaches_the_promise<T, E>(
    at: State<Option<Result<T, E>>>,
    given: Result<T, E>,
)
    requires
        at.inv(),
    ensures
        at.value is None ==> at.after_produce(Some(given)).1 == Ok::<
            Option<crate::slot::Waiter>,
            crate::slot::TryProduceError<Option<Result<T, E>>>,
        >(at.waiter) && observed(at.after_produce(Some(given)).0.after_consume().1) == Some(
            crate::error::lifted(given),
        ),
        at.value is Some ==> at.after_produce(Some(given)).1 is Err && observed(
            at.after_on_empty(Some(given)).0.after_consume().0.after_consume().1,
        ) == Some(crate::error::lifted(given)),
{
}

/// A completer that gives up puts "no result" into the empty slot, and a
/// promise that finds it there resolves as canceled.
pub proof fn abandoned_promise_is_canceled<T, E>(at: State<Option<Result<T, E>>>)
    requires
        at.inv(),
        at.value is None,
    ensures
        at.after_produce(None).1 is Ok,
        at.after_produce(None).0.inv(),
        observed(at.after_produce(None).0.after_consume().1) == Some::<PollResult<T, E>>(
            Err(PollError::Panicked(Payload::Canceled)),
        ),
{
}

/// Mapping a future that is done with a value is being done with the mapped
/// value: the first poll gives what the closure makes of the value, as a
/// future done with that would, and the map has then resolved.
pub proof fn map_of_done<F, T, E, U>(
    v: T,
    f: F,
    m: MapOk<Done<T, E>, F, T, E>,
    tokens: TokenSet,
    next: MapOk<Done<T, E>, F, T, E>,
    out: Option<PollResult<U, E>>,
) where F: FnOnce(T) -> U + Send + 'static, T: Send + 'static, E: Send + 'static, U: Send + 'static
    requires
        m.future() matches Collapsed::Start(d) && d.pending() == Some(Ok::<T, E>(v)),
        m.closure() == Some(f),
        m.polls(tokens, &next, out),
    ensures
        out matches Some(Ok(u)) && f.ensures((v,), u) && forall|d: Done<U, E>, d2: Done<U, E>|
            d.pending() == Some(Ok::<U, E>(u)) && d2.pending() is None ==> #[trigger] d.polls(
                tokens,
                &d2,
                out,
            ),
        next.spent(),
        next.closure() is None,
{
}

/// Mapping the error of a future that is done with an error is being done
/// with the mapped error.
pub proof fn map_err_of_done<F, T, E, U>(
    e: E,
    f: F,
    m: MapErr<Done<T, E>, F, T, E>,
    tokens: TokenSet,
    next: MapErr<Done<T, E>, F, T, E>,
    out: Option<PollResult<T, U>>,
) where F: FnOnce(E) -> U + Send + 'static, T: Send + 'static, E: Send + 'static, U: Send + 'static
    requires
        m.future() matches Collapsed::Start(d) && d.pending() == Some(Err::<T, E>(e)),
        m.closure() == Some(f),
        m.polls(tokens, &next, out),
    ensures
        out matches Some(Err(PollError::Other(u))) && f.ensures((e,), u) && forall|
            d: Done<T, U>,
            d2: Done<T, U>,
        |
            d.pending() == Some(Err::<T, U>(u)) && d2.pending() is None ==> #[trigger] d.polls(
                tokens,
                &d2,
                out,
            ),
        next.spent(),
        next.closure() is None,
{
}

/// Chaining onto a future the closure that wraps each outcome in a future
/// that is done with it changes nothing: a poll returns what a poll of the
/// future itself returns.
pub proof fn then_done_is_identity<A, F, T, E>(
    x: A,
    f: F,
    t: Then<A, Done<T, E>, F, T, E, T, E>,
    tokens: TokenSet,
    next: Then<A, Done<T, E>, F, T, E, T, E>,
    out: Option<PollResult<T, E>>,
) where
    A: Future<T, E>,
    F: FnOnce(Result<T, E>) -> Done<T, E> + Send + 'static,
    T: Send + 'static,
    E: Send + 'static,

    requires
        t.state() == Chain::<A, Done<T, E>, F, T, E, T, E>::First(Collapsed::Start(x), f),
        forall|r: Result<T, E>, d: Done<T, E>| f.ensures((r,), d) ==> d.pending() == Some(r),
        t.polls(tokens, &next, out),
    ensures
        exists|x2: A| x.polls(tokens, &x2, out),
{
}

/// Chaining a closure onto a finished future is the future that the closure
/// makes of the value, polled with no information on what has happened.
pub proof fn and_then_of_finished<B, F, T, E, U>(
    x: T,
    f: F,
    t: AndThen<Finished<T, E>, B, F, T, E, U>,
    tokens: TokenSet,
    next: AndThen<Finished<T, E>, B, F, T, E, U>,
    out: Option<PollResult<U, E>>,
) where
    B: IntoFuture<U, E>,
    F: FnOnce(T) -> B + Send + 'static,
    T: Send + 'static,
    E: Send + 'static,
    U: Send + 'static,

    requires
        t.state() matches Chain::First(Collapsed::Start(first), g) && g == f && first.pending()
            == Some(x),
        t.polls(tokens, &next, out),
    ensures
        exists|b: B, b2: B::Future|
            f.ensures((x,), b) && #[trigger] b.converted().polls(TokenSet::All, &b2, out)
                && next.state() == Chain::<Finished<T, E>, B::Future, F, T, E, U, E>::Second(b2),
{
}

/// Chaining a closure onto the error of a failed future is the future that
/// the closure makes of the error, polled with no information on what has
/// happened.
pub proof fn or_else_of_failed<B, F, T, E, U>(
    e: E,
    f: F,
    t: OrElse<Failed<T, E>, B, F, T, E, U>,
    tokens: TokenSet,
    next: OrElse<Failed<T, E>, B, F, T, E, U>,
    out: Option<PollResult<T, U>>,
) where
    B: IntoFuture<T, U>,
    F: FnOnce(E) -> B + Send + 'static,
    T: Send + 'static,
    E: Send + 'static,
    U: Send + 'static,

    requires
        t.state() matches Chain::First(Collapsed::Start(first), g) && g == f && first.pending()
            == Some(e),
        t.polls(tokens, &next, out),
    ensures
        exists|b: B, b2: B::Future|
            f.ensures((e,), b) && #[trigger] b.converted().polls(TokenSet::All, &b2, out)
                && next.state() == Chain::<Failed<T, E>, B::Future, F, T, E, T, U>::Second(b2),
{
}

/// Flattening a finished future of a finished future is the inner one: the
/// first poll gives its value and the flattened future has then resolved.
pub proof fn flatten_of_finished<T, E>(
    v: T,
    t: Flatten<Finished<Finished<T, E>, E>, Finished<T, E>, E, T>,
    tokens: TokenSet,
    next: Flatten<Finished<Finished<T, E>, E>, Finished<T, E>, E, T>,
    out: Option<PollResult<T, E>>,
) where T: Send + 'static, E: Send + 'static
    requires
        t.state() matches Chain::First(Collapsed::Start(outer), _) && outer.pending() matches Some(
            inner,
        ) && inner.pending() == Some(v),
        t.polls(tokens, &next, out),
    ensures
        out == Some::<PollResult<T, E>>(Ok(v)),
        next.spent(),
        forall|same: Finished<T, E>, same2: Finished<T, E>|
            same.pending() == Some(v) && same2.pending() is None ==> #[trigger] same.polls(
                tokens,
                &same2,
                out,
            ),
{
}

/// Polled with no information on what has happened, a select skips nothing:
/// its first future is polled, with no information either, and so is the
/// second one unless the first has resolved.
pub proof fn select_skips_nothing_without_information<A, B, T, E, P: Abort>(
    s: Select<A, B, T, E, P>,
    next: Select<A, B, T, E, P>,
    out: Option<PollResult<
        (T, SelectNext<A, B, T, E, P>),
        (E, SelectNext<A, B, T, E, P>),
        Lost<P, SelectNext<A, B, T, E, P>>,
    >>,
) where A: Future<T, E, P>, B: Future<T, E, P>, T: Send + 'static, E: Send + 'static
    requires
        s.polls(TokenSet::All, &next, out),
        s.children() is Some,
    ensures
        match s.children() {
            Some((a, b)) => exists|ra: Option<PollResult<T, E, P>>, a2: Collapsed<A, T, E, P>| #[trigger]
                a.polls(TokenSet::All, &a2, ra) && (ra is None ==> exists|
                    rb: Option<PollResult<T, E, P>>,
                    b2: Collapsed<B, T, E, P>,
                | #[trigger] b.polls(TokenSet::All, &b2, rb)),
            None => false,
        },
{
}

/// Polled with no information on what has happened, a join skips nothing:
/// a side that still holds a future has it polled, with no information
/// either, unless the other side has failed before.
pub proof fn join_skips_nothing_without_information<A, B, T, U, E, P: Abort>(
    j: Join<A, B, T, U, E, P>,
    next: Join<A, B, T, U, E, P>,
    out: Option<PollResult<(T, U), E, P>>,
) where A: Future<T, E, P>, B: Future<U, E, P>, T: Send + 'static, U: Send + 'static, E: Send + 'static
    requires
        j.polls(TokenSet::All, &next, out),
    ensures
        j.first() matches MaybeDone::Pending(a) ==> exists|
            ra: Option<PollResult<T, E, P>>,
            a2: Collapsed<A, T, E, P>,
        | #[trigger]
            a.polls(TokenSet::All, &a2, ra) && (!(ra matches Some(Err(_))) ==> (j.second() matches MaybeDone::Pending(
                b,
            ) ==> exists|rb: Option<PollResult<U, E, P>>, b2: Collapsed<B, U, E, P>| #[trigger]
                b.polls(TokenSet::All, &b2, rb))),
{
}

/// What a closure chained onto a finished future may lead to: the outcomes
/// of the futures that the closure makes of the value.
pub proof fn and_then_of_finished_resolves_as_the_closure_s<B, F, T, E, U>(
    x: T,
    f: F,
    t: AndThen<Finished<T, E>, B, F, T, E, U>,
    r: Result<U, E>,
) where
    B: IntoFuture<U, E>,
    F: FnOnce(T) -> B + Send + 'static,
    T: Send + 'static,
    E: Send + 'static,
    U: Send + 'static,

    requires
        t.state() matches Chain::First(Collapsed::Start(first), g) && g == f && first.pending()
            == Some(x),
        t.may_resolve_to(r),
    ensures
        exists|b: B| #[trigger] f.ensures((x,), b) && b.converted().may_resolve_to(r),
{
}

/// What a closure chained onto the error of a failed future may lead to: the
/// outcomes of the futures that the closure makes of the error.
pub proof fn or_else_of_failed_resolves_as_the_closure_s<B, F, T, E, U>(
    e: E,
    f: F,
    t: OrElse<Failed<T, E>, B, F, T, E, U>,
    r: Result<T, U>,
) where
    B: IntoFuture<T, U>,
    F: FnOnce(E) -> B + Send + 'static,
    T: Send + 'static,
    E: Send + 'static,
    U: Send + 'static,

    requires
        t.state() matches Chain::First(Collapsed::Start(first), g) && g == f && first.pending()
            == Some(e),
        t.may_resolve_to(r),
    ensures
        exists|b: B| #[trigger] f.ensures((e,), b) && b.converted().may_resolve_to(r),
{
}

/// A map over a future that is done with a value may resolve to what the
/// closure makes of that value, and to nothing else.
pub proof fn map_of_done_resolves_as_the_closure_s<F, T, E, U>(
    v: T,
    f: F,
    m: MapOk<Done<T, E>, F, T, E>,
    r: Result<U, E>,
) where F: FnOnce(T) -> U + Send + 'static, T: Send + 'static, E: Send + 'static, U: Send + 'static
    requires
        m.future() matches Collapsed::Start(d) && d.pending() == Some(Ok::<T, E>(v)),
        m.closure() == Some(f),
        m.may_resolve_to(r),
    ensures
        r matches Ok(u) && f.ensures((v,), u),
{
}

/// Whatever the winner of a select resolved to, the loser travels with it:
/// with the value, with the declared error, and in the payload of an abort.
pub proof fn select_hands_the_loser_on<A, B, T, E, P: Abort>(
    won: PollResult<T, E, P>,
    loser: SelectNext<A, B, T, E, P>,
) where A: Future<T, E, P>, B: Future<T, E, P>, T: Send + 'static, E: Send + 'static
    ensures
        match settled(won, loser) {
            Ok((t, next)) => won == Ok::<T, PollError<E, P>>(t) && next == loser,
            Err(PollError::Other((e, next))) => won == Err::<T, PollError<E, P>>(
                PollError::Other(e),
            ) && next == loser,
            Err(PollError::Panicked(lost)) => won == Err::<T, PollError<E, P>>(
                PollError::Panicked(lost.cause),
            ) && lost.next == Some(loser),
        },
{
}

/// A select that resolves on a poll resolves to what one side resolved to,
/// together with the other side.
pub proof fn select_resolves_with_the_loser<A, B, T, E, P: Abort>(
    s: Select<A, B, T, E, P>,
    tokens: TokenSet,
    next: Select<A, B, T, E, P>,
    out: Option<
        PollResult<
            (T, SelectNext<A, B, T, E, P>),
            (E, SelectNext<A, B, T, E, P>),
            Lost<P, SelectNext<A, B, T, E, P>>,
        >,
    >,
) where A: Future<T, E, P>, B: Future<T, E, P>, T: Send + 'static, E: Send + 'static
    requires
        s.polls(tokens, &next, out),
        s.children() is Some,
        out is Some,
    ensures
        next.children() is None,
        exists|won: PollResult<T, E, P>, loser: SelectNext<A, B, T, E, P>|
            out == Some(#[trigger] settled(won, loser)),
{
}

} // verus!
