//! A call that has not been sent, and what sending it hands out.

use crate::any_pointer;
use crate::error::Error;
use crate::hooks::{Hook, RequestHook};
use crate::mapped::map_outcome;
use crate::promise::{Computation, Promise};
use crate::response::Response;
use crate::traits::{FromPointerBuilder, Owned, Pipelined, SetPointerBuilder};
use std::marker::PhantomData;
use vstd::prelude::*;

verus! {

/// A handle on results that are still to come, read as a schema type.
pub trait FromTypelessPipeline: Sized {
    /// The handle without the schema type.
    open spec fn typeless(&self) -> any_pointer::Pipeline {
        arbitrary()
    }

    /// Reads a schema type into `typeless`.
    fn new(typeless: any_pointer::Pipeline) -> (r: Self)
        ensures
            r.typeless() == typeless,
    ;
}

impl FromTypelessPipeline for any_pointer::Pipeline {
    open spec fn typeless(&self) -> any_pointer::Pipeline {
        *self
    }

    fn new(typeless: any_pointer::Pipeline) -> (r: Self) {
        typeless
    }
}

/// A promise for a result from a method call.
#[must_use]
#[verifier::reject_recursive_types(Results)]
pub struct RemotePromise<Results> where Results: Pipelined + for<'a> Owned<'a> + 'static {
    /// Resolves to the results of the call.
    pub promise: Promise<Response<Results>, Error>,
    /// A handle on the results, for calls that need not wait for them.
    pub pipeline: Results::Pipeline,
}

/// What a call resolves to: its results, or the error that it failed with.
pub type Outcome<Results> = Result<Response<Results>, Error>;

/// Whether `typed` is `untyped` read as `Results`: the same response hook,
/// or the same error.
pub open spec fn retagged<Results>(
    untyped: Outcome<any_pointer::Owned>,
    typed: Outcome<Results>,
) -> bool {
    match untyped {
        Ok(response) => typed matches Ok(t) && t.hook == response.hook,
        Err(e) => typed == Err::<Response<Results>, Error>(e),
    }
}

impl<Results> RemotePromise<Results> where
    Results: Pipelined + for<'a> Owned<'a> + 'static,
    <Results as Pipelined>::Pipeline: FromTypelessPipeline,
 {
    /// Whether this is `typeless` read as `Results`: the promise has not
    /// been polled, polls that of `typeless` once at each poll, owes an
    /// outcome when that of `typeless` does, and resolves to its outcome,
    /// read as `Results`; the pipeline is that of `typeless`.
    pub open spec fn follows(&self, typeless: RemotePromise<any_pointer::Owned>) -> bool {
        &&& self.promise.state() is Deferred
        &&& self.promise.polls() == 0
        &&& self.promise.computation_polls() == typeless.promise.polls()
        &&& self.promise.pollable() == typeless.promise.pollable()
        &&& self.promise.resolved() == typeless.promise.resolved()
        &&& forall|typed: Outcome<Results>| #[trigger]
            self.promise.yields(typed) ==> exists|untyped: Outcome<any_pointer::Owned>| #[trigger]
                typeless.promise.yields(untyped) && retagged(untyped, typed)
        &&& self.pipeline.typeless() == typeless.pipeline
    }

    /// Reads `Results` into what a transport handed out for a call.
    pub fn from_typeless(typeless: RemotePromise<any_pointer::Owned>) -> (r: RemotePromise<Results>)
        ensures
            r.follows(typeless),
    {
        let RemotePromise { promise, pipeline } = typeless;
        let retag = |response: Outcome<any_pointer::Owned>| -> (r: Outcome<Results>)
            ensures
                retagged(response, r),
            {
                match response {
                    Ok(response) => Ok(Response { marker: PhantomData, hook: response.hook }),
                    Err(e) => Err(e),
                }
            };
        let typed_promise = map_outcome(promise, retag);
        RemotePromise { promise: typed_promise, pipeline: FromTypelessPipeline::new(pipeline) }
    }
}

/// A method call that has not been sent yet.
pub struct Request<Params, Results> {
    /// The schema types of the parameters and of the results.
    pub marker: PhantomData<(Params, Results)>,
    /// The call, as the transport holds it.
    pub hook: Hook<dyn RequestHook>,
}

impl<Params, Results> Request<Params, Results> where Params: for<'a> Owned<'a> {
    /// Whether this is the call `other` but for its parameters: sent with
    /// the same parameters, the two hand out the same.
    pub open spec fn same_call(&self, other: Request<Params, Results>) -> bool {
        forall|payload: any_pointer::Payload, sent: RemotePromise<any_pointer::Owned>| #[trigger]
            self.hook.boxed.dispatches(payload, sent) == other.hook.boxed.dispatches(payload, sent)
    }

    /// What is sent is the call as it was started, with the parameters as
    /// they were written: where `written` is `started` after its parameters
    /// were written through `get` or `set`, and sending `written` hands out
    /// `sent`, then `sent` is what `started` dispatches for the parameters
    /// that `written` holds.
    pub proof fn lemma_send_dispatches_what_was_written(
        started: Request<Params, Results>,
        written: Request<Params, Results>,
        sent: RemotePromise<any_pointer::Owned>,
    )
        requires
            written.same_call(started),
            written.hook.boxed.dispatches(written.hook.boxed.payload(), sent),
        ensures
            started.hook.boxed.dispatches(written.hook.boxed.payload(), sent),
    {
    }

    /// The call that `hook` holds, with the schema types of its parameters
    /// and results.
    pub fn new(hook: Box<dyn RequestHook>) -> (r: Request<Params, Results>)
        ensures
            r.hook.boxed == hook,
    {
        let hook = Hook { boxed: hook };
        Request { hook, marker: PhantomData }
    }

    /// A view of the parameters through which they are filled in: the
    /// schema type's view of the untyped one that the hook hands out, which
    /// opens on the parameters as they are and leaves them as it is left.
    /// What is written through it changes the parameters and nothing else of
    /// the call. Where the schema type cannot open the parameters, its error
    /// is handed on.
    pub fn get<'a>(&'a mut self) -> (r: Result<<Params as Owned<'a>>::Builder, Error>)
        ensures
            exists|builder: any_pointer::Builder<'a>|
                *builder.payload == old(self).hook.boxed.payload() && *final(builder.payload)
                    == final(self).hook.boxed.payload() && #[trigger] <<Params as Owned<
                    'a,
                >>::Builder as FromPointerBuilder<'a>>::builds(builder, r),
            final(self).same_call(*old(self)),
    {
        let builder = self.hook.boxed.get();
        <<Params as Owned<'a>>::Builder as FromPointerBuilder<'a>>::get_from_pointer(builder)
    }

    /// Copies `from` into the parameters. Nothing else of the call changes.
    pub fn set<'a>(&mut self, from: <Params as Owned<'a>>::Reader) -> (r: Result<(), Error>)
        ensures
            <<Params as Owned<'a>>::Reader as SetPointerBuilder>::writes(
                old(self).hook.boxed.payload(),
                from,
                final(self).hook.boxed.payload(),
                r,
            ),
            final(self).same_call(*old(self)),
    {
        let builder = self.hook.boxed.get();
        <<Params as Owned<'a>>::Reader as SetPointerBuilder>::set_pointer_builder(builder, from)
    }
}

impl<Params, Results> Request<Params, Results> where
    Results: Pipelined + for<'a> Owned<'a> + 'static,
    <Results as Pipelined>::Pipeline: FromTypelessPipeline,
 {
    /// Sends the call. The promise resolves to the results; the pipeline
    /// takes calls on them at once.
    pub fn send(self) -> (r: RemotePromise<Results>)
        ensures
            exists|typeless: RemotePromise<any_pointer::Owned>| #[trigger]
                self.hook.boxed.dispatches(self.hook.boxed.payload(), typeless) && r.follows(
                    typeless,
                ),
    {
        let typeless = self.hook.boxed.send();
        RemotePromise::from_typeless(typeless)
    }
}

} // verus!
