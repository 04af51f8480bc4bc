//! A computation that resolves once, and the promise that owns one.

use std::task::Context;
use vstd::prelude::*;

verus! {

/// The waker context that an executor hands down when it polls
/// (`std::task::Context`). Nothing is read from it here: it is passed on to
/// the computation that is polled.
#[verifier::external_type_specification]
#[verifier::external_body]
pub struct ExContext<'a>(Context<'a>);

/// What one observation of a computation answers.
pub enum Poll<T> {
    /// The computation has resolved to this outcome.
    Ready(T),
    /// The computation has not resolved yet.
    Pending,
}

/// A computation that resolves at most once to an outcome of type `T`.
pub trait Computation<T> {
    /// Whether the computation may be polled: it has not handed out its
    /// outcome yet. Left open where an implementation does not say.
    open spec fn pollable(&self) -> bool {
        arbitrary()
    }

    /// The outcomes that the computation may still resolve to. Left open
    /// where an implementation does not say.
    open spec fn yields(&self, outcome: T) -> bool {
        arbitrary()
    }

    /// How often the computation has been polled. Left open where an
    /// implementation does not say.
    open spec fn polls(&self) -> nat {
        arbitrary()
    }

    /// Whether the computation has its outcome at hand, so that the next
    /// poll owes it. Of a computation that does not say, none is owed.
    open spec fn resolved(&self) -> bool {
        false
    }

    /// Observes the computation once, without blocking.
    fn poll(&mut self, cx: &mut Context<'_>) -> (r: Poll<T>)
        requires
            old(self).pollable(),
        ensures
            final(self).polls() == old(self).polls() + 1,
            old(self).resolved() ==> r is Ready,
            r matches Poll::Ready(v) ==> old(self).yields(v) && !final(self).pollable(),
            r is Pending ==> final(self).pollable() && (forall|v: T|
                final(self).yields(v) ==> old(self).yields(v)),
    ;
}

/// The state of a promise, as its callers see it.
pub enum PromiseState<T, E> {
    /// Resolved when made; the outcome has not been handed out yet.
    Immediate(Result<T, E>),
    /// Waiting for a computation.
    Deferred,
    /// The outcome has been handed out.
    Consumed,
}

impl<T, E> PromiseState<T, E> {
    /// What one observation answers and the state it leaves, where `answer`
    /// is what the deferred computation, if there is one, answered. A
    /// consumed promise is not observed.
    pub open spec fn observe(self, answer: Poll<Result<T, E>>) -> (Poll<Result<T, E>>, Self)
        recommends
            !(self is Consumed),
    {
        match self {
            PromiseState::Immediate(outcome) => (Poll::Ready(outcome), PromiseState::Consumed),
            PromiseState::Deferred => match answer {
                Poll::Ready(outcome) => (Poll::Ready(outcome), PromiseState::Consumed),
                Poll::Pending => (Poll::Pending, PromiseState::Deferred),
            },
            PromiseState::Consumed => (Poll::Pending, PromiseState::Consumed),
        }
    }

    /// What a row of observations answers, one after the other, and the
    /// state that the last one leaves, where `answers` holds what the
    /// deferred computation answered to each.
    pub open spec fn observe_each(self, answers: Seq<Poll<Result<T, E>>>) -> (
        Seq<Poll<Result<T, E>>>,
        Self,
    )
        decreases answers.len(),
    {
        if answers.len() == 0 {
            (Seq::empty(), self)
        } else {
            let (earlier, state) = self.observe_each(answers.drop_last());
            let (last, state) = state.observe(answers.last());
            (earlier.push(last), state)
        }
    }
}

/// A row of `n` answers of a computation that has not resolved.
pub open spec fn waits<T, E>(n: nat) -> Seq<Poll<Result<T, E>>> {
    Seq::new(n, |i: int| Poll::Pending)
}

/// A computation of its caller, as a promise holds it. What the boxed trait
/// object says of itself (whether it may be polled, what it may resolve to,
/// how often it has been polled) is what this struct says, which is what `F`
/// says:
/// of a box made from `F` directly, whose type the promise does not know,
/// nothing would be known.
struct Held<F> {
    computation: F,
}

impl<T, F: Computation<T>> Computation<T> for Held<F> {
    closed spec fn pollable(&self) -> bool {
        self.computation.pollable()
    }

    closed spec fn yields(&self, outcome: T) -> bool {
        self.computation.yields(outcome)
    }

    closed spec fn polls(&self) -> nat {
        self.computation.polls()
    }

    closed spec fn resolved(&self) -> bool {
        self.computation.resolved()
    }

    /// Polls the computation once and answers what it answered.
    fn poll(&mut self, cx: &mut Context<'_>) -> (r: Poll<T>) {
        self.computation.poll(cx)
    }
}

#[verifier::reject_recursive_types(T)]
#[verifier::reject_recursive_types(E)]
enum PromiseInner<T, E> {
    Immediate(Result<T, E>),
    Deferred(Box<dyn Computation<Result<T, E>>>),
    Empty,
}

/// A computation that might eventually resolve to a value of type `T` or to
/// an error of type `E`. Dropping the promise drops the computation.
#[must_use]
#[verifier::reject_recursive_types(T)]
#[verifier::reject_recursive_types(E)]
pub struct Promise<T, E> {
    inner: PromiseInner<T, E>,
    observed: Ghost<nat>,
}

impl<T, E> Promise<T, E> {
    /// The state of the promise.
    pub closed spec fn state(&self) -> PromiseState<T, E> {
        match self.inner {
            PromiseInner::Immediate(outcome) => PromiseState::Immediate(outcome),
            PromiseInner::Deferred(_) => PromiseState::Deferred,
            PromiseInner::Empty => PromiseState::Consumed,
        }
    }

    /// Whether the computation of a deferred promise may be polled.
    pub closed spec fn computation_pollable(&self) -> bool {
        match self.inner {
            PromiseInner::Deferred(computation) => computation.pollable(),
            _ => false,
        }
    }

    /// The outcomes that the computation of a deferred promise may resolve to.
    pub closed spec fn computation_yields(&self, outcome: Result<T, E>) -> bool {
        match self.inner {
            PromiseInner::Deferred(computation) => computation.yields(outcome),
            _ => false,
        }
    }

    /// How often the computation of a deferred promise has been polled.
    pub closed spec fn computation_polls(&self) -> nat {
        match self.inner {
            PromiseInner::Deferred(computation) => computation.polls(),
            _ => 0,
        }
    }

    /// Whether the computation of a deferred promise has its outcome at
    /// hand.
    pub closed spec fn computation_resolved(&self) -> bool {
        match self.inner {
            PromiseInner::Deferred(computation) => computation.resolved(),
            _ => false,
        }
    }

    /// How often the promise has been polled.
    pub closed spec fn observed(&self) -> nat {
        self.observed@
    }

    /// Whether the outcome has been handed out.
    pub fn is_consumed(&self) -> (r: bool)
        ensures
            r == (self.state() is Consumed),
    {
        match &self.inner {
            PromiseInner::Empty => true,
            _ => false,
        }
    }

    /// A promise that is resolved with `value`.
    pub fn ok(value: T) -> (r: Promise<T, E>)
        ensures
            r.state() == PromiseState::<T, E>::Immediate(Ok(value)),
            r.observed() == 0,
    {
        Promise { inner: PromiseInner::Immediate(Ok(value)), observed: Ghost(0) }
    }

    /// A promise that is resolved with `error`.
    pub fn err(error: E) -> (r: Promise<T, E>)
        ensures
            r.state() == PromiseState::<T, E>::Immediate(Err(error)),
            r.observed() == 0,
    {
        Promise { inner: PromiseInner::Immediate(Err(error)), observed: Ghost(0) }
    }

    /// A promise that resolves when `f` does, to what `f` resolves to.
    pub fn from_future<F>(f: F) -> (r: Promise<T, E>) where
        F: Computation<Result<T, E>> + 'static,

        ensures
            r.state() is Deferred,
            r.observed() == 0,
            r.computation_pollable() == f.pollable(),
            r.computation_polls() == f.polls(),
            r.computation_resolved() == f.resolved(),
            forall|outcome: Result<T, E>| r.computation_yields(outcome) == f.yields(outcome),
    {
        Promise {
            inner: PromiseInner::Deferred(Box::new(Held { computation: f })),
            observed: Ghost(0),
        }
    }

    /// Ends one observation of a deferred promise whose computation has
    /// answered `answer`: an outcome is handed on and consumes the promise.
    pub fn settle(&mut self, answer: Poll<Result<T, E>>) -> (r: Poll<Result<T, E>>)
        requires
            old(self).state() is Deferred,
        ensures
            r == answer,
            (r, final(self).state()) == old(self).state().observe(answer),
            final(self).observed() == old(self).observed(),
            answer is Pending ==> *final(self) == *old(self),
    {
        match answer {
            Poll::Ready(outcome) => {
                self.inner = PromiseInner::Empty;
                Poll::Ready(outcome)
            },
            Poll::Pending => Poll::Pending,
        }
    }
}

impl<T, E> Computation<Result<T, E>> for Promise<T, E> {
    open spec fn pollable(&self) -> bool {
        match self.state() {
            PromiseState::Immediate(_) => true,
            PromiseState::Deferred => self.computation_pollable(),
            PromiseState::Consumed => false,
        }
    }

    open spec fn yields(&self, outcome: Result<T, E>) -> bool {
        match self.state() {
            PromiseState::Immediate(held) => outcome == held,
            PromiseState::Deferred => self.computation_yields(outcome),
            PromiseState::Consumed => false,
        }
    }

    open spec fn polls(&self) -> nat {
        self.observed()
    }

    open spec fn resolved(&self) -> bool {
        match self.state() {
            PromiseState::Immediate(_) => true,
            PromiseState::Deferred => self.computation_resolved(),
            PromiseState::Consumed => false,
        }
    }

    /// Observes the promise once. A promise that was resolved when made
    /// answers its outcome at once; a deferred one polls its computation
    /// once and answers what that answers, which is an outcome where the
    /// computation has one at hand. The outcome is handed out once: after
    /// it the promise is consumed and may not be polled again.
    fn poll(&mut self, cx: &mut Context<'_>) -> (r: Poll<Result<T, E>>)
        ensures
            (r, final(self).state()) == old(self).state().observe(r),
            r is Pending ==> final(self).computation_polls() == old(self).computation_polls() + 1,
    {
        self.observed = Ghost(self.observed@ + 1);
        let answer = match &mut self.inner {
            PromiseInner::Deferred(computation) => Some(computation.poll(cx)),
            _ => None,
        };
        match answer {
            Some(answer) => self.settle(answer),
            None => {
                let mut inner = PromiseInner::Empty;
                core::mem::swap(&mut self.inner, &mut inner);
                match inner {
                    PromiseInner::Immediate(outcome) => Poll::Ready(outcome),
                    _ => vstd::pervasive::unreached(),
                }
            },
        }
    }
}

/// A promise that was made from a value can be polled, and its first
/// observation answers that value and consumes it, whatever else happens.
pub proof fn lemma_value_resolves_at_once<T, E>(
    promise: Promise<T, E>,
    value: T,
    answer: Poll<Result<T, E>>,
)
    requires
        promise.state() == PromiseState::<T, E>::Immediate(Ok(value)),
    ensures
        promise.pollable(),
        promise.resolved(),
        forall|outcome: Result<T, E>| promise.yields(outcome) <==> outcome == Ok::<T, E>(value),
        promise.state().observe(answer) == (
            Poll::<Result<T, E>>::Ready(Ok(value)),
            PromiseState::<T, E>::Consumed,
        ),
{
}

/// A promise that was made from an error can be polled, and its first
/// observation answers that error and consumes it, whatever else happens.
pub proof fn lemma_error_resolves_at_once<T, E>(
    promise: Promise<T, E>,
    error: E,
    answer: Poll<Result<T, E>>,
)
    requires
        promise.state() == PromiseState::<T, E>::Immediate(Err(error)),
    ensures
        promise.pollable(),
        promise.resolved(),
        forall|outcome: Result<T, E>| promise.yields(outcome) <==> outcome == Err::<T, E>(error),
        promise.state().observe(answer) == (
            Poll::<Result<T, E>>::Ready(Err(error)),
            PromiseState::<T, E>::Consumed,
        ),
{
}

/// A promise that was resolved when made hands its outcome out at the first
/// poll and at no other: where `before` is such a promise and a poll of it
/// answers `r` and leaves `after`, `r` is the outcome, and `after` cannot be
/// polled.
pub proof fn lemma_immediate_is_handed_out_once<T, E>(
    before: Promise<T, E>,
    after: Promise<T, E>,
    outcome: Result<T, E>,
    r: Poll<Result<T, E>>,
)
    requires
        before.state() == PromiseState::<T, E>::Immediate(outcome),
        (r, after.state()) == before.state().observe(r),
    ensures
        before.pollable(),
        before.resolved(),
        r == Poll::<Result<T, E>>::Ready(outcome),
        after.state() is Consumed,
        !after.pollable(),
        !after.resolved(),
        forall|other: Result<T, E>| !after.yields(other),
{
}

/// The poll at which a deferred promise answers an outcome is the poll that
/// consumes it: where a poll of the deferred promise `before` answers `r`
/// and leaves `after`, `after` is consumed, and cannot be polled, exactly
/// when `r` is an outcome, and is deferred still exactly when `r` is
/// `Pending`.
pub proof fn lemma_deferred_is_consumed_at_its_outcome<T, E>(
    before: Promise<T, E>,
    after: Promise<T, E>,
    r: Poll<Result<T, E>>,
)
    requires
        before.state() is Deferred,
        (r, after.state()) == before.state().observe(r),
    ensures
        (r is Ready) == (after.state() is Consumed),
        (r is Pending) == (after.state() is Deferred),
        r is Ready ==> !after.pollable() && !after.resolved(),
{
}

/// A promise whose outcome has been handed out cannot be polled and resolves
/// to nothing more.
pub proof fn lemma_consumed_is_final<T, E>(promise: Promise<T, E>)
    requires
        promise.state() is Consumed,
    ensures
        !promise.pollable(),
        !promise.resolved(),
        forall|outcome: Result<T, E>| !promise.yields(outcome),
{
}

/// A deferred promise answers `Pending` and stays deferred as long as its
/// computation has not resolved, however often it is polled. The one
/// observation at which the computation resolves answers its outcome and
/// consumes the promise.
pub proof fn lemma_deferred_resolves_once<T, E>(n: nat, outcome: Result<T, E>)
    ensures
        PromiseState::<T, E>::Deferred.observe_each(waits(n)) == (
            waits::<T, E>(n),
            PromiseState::<T, E>::Deferred,
        ),
        PromiseState::<T, E>::Deferred.observe_each(waits(n).push(Poll::Ready(outcome))) == (
            waits::<T, E>(n).push(Poll::Ready(outcome)),
            PromiseState::<T, E>::Consumed,
        ),
    decreases n,
{
    if n > 0 {
        lemma_deferred_resolves_once::<T, E>((n - 1) as nat, outcome);
        assert(waits::<T, E>(n).drop_last() == waits::<T, E>((n - 1) as nat));
        assert(waits::<T, E>((n - 1) as nat).push(Poll::Pending) == waits::<T, E>(n));
    }
    assert(waits::<T, E>(n).push(Poll::Ready(outcome)).drop_last() == waits::<T, E>(n));
}

} // verus!
