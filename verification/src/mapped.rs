//! A computation whose outcome is projected once by a function.

use crate::promise::{Computation, Poll, Promise};
use std::marker::PhantomData;
use std::task::Context;
use vstd::prelude::*;

verus! {

/// The `map` combinator: a computation that resolves when `future` does, to
/// what the projection `f` makes of the outcome. The projection runs once,
/// when `future` has resolved, and is gone afterwards.
#[must_use]
pub struct Mapped<Fut, F, A> {
    future: Fut,
    f: Option<F>,
    marker: PhantomData<A>,
}

impl<Fut, F, A> Mapped<Fut, F, A> {
    /// The computation whose outcome is projected.
    pub closed spec fn future(&self) -> Fut {
        self.future
    }

    /// The projection, as long as it has not run.
    pub closed spec fn projection(&self) -> Option<F> {
        self.f
    }

    /// Whether the projection has not run yet.
    pub open spec fn armed(&self) -> bool {
        self.projection() is Some
    }

    /// A computation that projects the outcome of `future` by `f`.
    pub fn new(future: Fut, f: F) -> (r: Mapped<Fut, F, A>)
        ensures
            r.future() == future,
            r.projection() == Some(f),
    {
        Mapped { future, f: Some(f), marker: PhantomData }
    }
}

impl<Fut, F, A, B> Mapped<Fut, F, A> where F: FnOnce(A) -> B {
    /// Ends one observation, where `answer` is what `future` answered: an
    /// outcome is projected and handed on, and the projection is gone.
    pub fn project(&mut self, answer: Poll<A>) -> (r: Poll<B>)
        requires
            old(self).projection() matches Some(f) && (answer matches Poll::Ready(a)
                ==> call_requires(f, (a,))),
        ensures
            final(self).future() == old(self).future(),
            match answer {
                Poll::Pending => r is Pending && final(self).projection() == old(self).projection(),
                Poll::Ready(a) => r matches Poll::Ready(b) && call_ensures(
                    old(self).projection()->0,
                    (a,),
                    b,
                ) && final(self).projection() is None,
            },
    {
        match answer {
            Poll::Pending => Poll::Pending,
            Poll::Ready(output) => {
                let f = self.f.take().unwrap();
                Poll::Ready(f(output))
            },
        }
    }
}

impl<Fut, F, A, B> Computation<B> for Mapped<Fut, F, A> where
    Fut: Computation<A>,
    F: FnOnce(A) -> B,
 {
    open spec fn pollable(&self) -> bool {
        &&& self.projection() matches Some(f)
        &&& self.future().pollable()
        &&& forall|a: A| #[trigger] self.future().yields(a) ==> call_requires(f, (a,))
    }

    open spec fn yields(&self, outcome: B) -> bool {
        &&& self.projection() matches Some(f)
        &&& exists|a: A| #[trigger] self.future().yields(a) && call_ensures(f, (a,), outcome)
    }

    open spec fn polls(&self) -> nat {
        self.future().polls()
    }

    open spec fn resolved(&self) -> bool {
        self.future().resolved()
    }

    /// Polls `future` once. While it is pending, so is this computation,
    /// and the projection has not run. When it resolves, which it does at
    /// this poll where it has its outcome at hand, the projection runs on
    /// the outcome, and the computation may not be polled again.
    fn poll(&mut self, cx: &mut Context<'_>) -> (r: Poll<B>)
        ensures
            final(self).future().polls() == old(self).future().polls() + 1,
            (r is Pending) == final(self).future().pollable(),
            r is Pending ==> final(self).projection() == old(self).projection(),
            r matches Poll::Ready(b) ==> !final(self).armed() && exists|a: A| #[trigger]
                old(self).future().yields(a) && call_ensures(old(self).projection()->0, (a,), b),
    {
        let answer = self.future.poll(cx);
        self.project(answer)
    }
}

/// Once the projection has run, the computation cannot be polled and
/// resolves to nothing more: the projection runs once.
pub proof fn lemma_projection_runs_once<Fut, F, A, B>(mapped: Mapped<Fut, F, A>) where
    Fut: Computation<A>,
    F: FnOnce(A) -> B,

    requires
        !mapped.armed(),
    ensures
        !mapped.pollable(),
        forall|outcome: B| !mapped.yields(outcome),
{
}

/// A projected computation owes its outcome when the computation that it
/// projects does, and the outcome is then what the projection makes of that
/// one's: where `future` can resolve to `a` alone and has it at hand, a poll
/// that answers `r` answers what the projection makes of `a`.
pub proof fn lemma_resolved_is_projected_at_once<Fut, F, A, B>(
    mapped: Mapped<Fut, F, A>,
    a: A,
    r: Poll<B>,
) where Fut: Computation<A>, F: FnOnce(A) -> B
    requires
        mapped.pollable(),
        mapped.future().resolved(),
        forall|other: A| mapped.future().yields(other) ==> other == a,
        mapped.resolved() ==> r is Ready,
        r matches Poll::Ready(b) ==> mapped.yields(b),
    ensures
        mapped.resolved(),
        r matches Poll::Ready(b) && call_ensures(mapped.projection()->0, (a,), b),
{
}

/// A promise that waits for `promise` and resolves to what `f` makes of its
/// outcome.
pub fn map_outcome<T, U, E, F>(promise: Promise<T, E>, f: F) -> (r: Promise<U, E>) where
    T: 'static,
    U: 'static,
    E: 'static,
    F: FnOnce(Result<T, E>) -> Result<U, E> + 'static,

    requires
        forall|outcome: Result<T, E>| #[trigger]
            promise.yields(outcome) ==> call_requires(f, (outcome,)),
    ensures
        r.state() is Deferred,
        r.polls() == 0,
        r.computation_polls() == promise.polls(),
        r.pollable() == promise.pollable(),
        r.resolved() == promise.resolved(),
        forall|projected: Result<U, E>| #[trigger]
            r.yields(projected) <==> exists|outcome: Result<T, E>| #[trigger]
                promise.yields(outcome) && call_ensures(f, (outcome,), projected),
{
    Promise::from_future(Mapped::new(promise, f))
}

} // verus!
