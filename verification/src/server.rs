//! A call as the callee sees it, and what a service implements.

use crate::any_pointer;
use crate::error::Error;
use crate::hooks::{Hook, ParamsHook, ResultsHook};
use crate::promise::Promise;
use crate::traits::{FromPointerBuilder, FromPointerReader, Owned, SetPointerBuilder};
use std::marker::PhantomData;
use vstd::prelude::*;

verus! {

/// The values of the parameters passed to a method call, as seen by the
/// server.
pub struct Params<T> {
    /// The schema type of the parameters.
    pub marker: PhantomData<T>,
    /// The parameters, as the transport received them.
    pub hook: Hook<dyn ParamsHook>,
}

impl<T> Params<T> {
    /// The parameters that `hook` holds, read as `T`.
    pub fn new(hook: Box<dyn ParamsHook>) -> (r: Params<T>)
        ensures
            r.hook.boxed == hook,
    {
        let hook = Hook { boxed: hook };
        Params { marker: PhantomData, hook }
    }

    /// The parameters, read as their schema type. An error of the transport
    /// is handed on as it is.
    pub fn get<'a>(&'a self) -> (r: Result<<T as Owned<'a>>::Reader, Error>) where T: Owned<'a>
        ensures
            match self.hook.boxed.payload() {
                Ok(payload) => <<T as Owned<'a>>::Reader as FromPointerReader<'a>>::reads(
                    payload,
                    r,
                ),
                Err(e) => r == Err::<<T as Owned<'a>>::Reader, Error>(e),
            },
    {
        match self.hook.boxed.get() {
            Ok(reader) => <<T as Owned<'a>>::Reader as FromPointerReader<'a>>::get_from_pointer(&reader),
            Err(e) => Err(e),
        }
    }
}

/// The return values of a method, written in-place by the method body.
pub struct Results<T> {
    /// The schema type of the results.
    pub marker: PhantomData<T>,
    /// The results, as the transport holds them.
    pub hook: Hook<dyn ResultsHook>,
}

impl<T> Results<T> where T: for<'a> Owned<'a> {
    /// The results that `hook` holds, written as `T`.
    pub fn new(hook: Box<dyn ResultsHook>) -> (r: Results<T>)
        ensures
            r.hook.boxed == hook,
    {
        let hook = Hook { boxed: hook };
        Results { marker: PhantomData, hook }
    }

    /// A view of the results through which they are written: the schema
    /// type's view of the untyped one that the hook hands out, which opens
    /// on the results as they are and leaves them as it is left. An error of
    /// the transport is handed on as it is, and the results stay as they
    /// are; an error of the schema type that cannot open the results is
    /// handed on too.
    pub fn get<'a>(&'a mut self) -> (r: Result<<T as Owned<'a>>::Builder, Error>)
        ensures
            match old(self).hook.boxed.payload() {
                Ok(payload) => exists|builder: any_pointer::Builder<'a>|
                    *builder.payload == payload && final(self).hook.boxed.payload() == Ok::<
                        any_pointer::Payload,
                        Error,
                    >(*final(builder.payload)) && #[trigger] <<T as Owned<
                        'a,
                    >>::Builder as FromPointerBuilder<'a>>::builds(builder, r),
                Err(e) => r == Err::<<T as Owned<'a>>::Builder, Error>(e) && final(self)
                    .hook.boxed.payload() == old(self).hook.boxed.payload(),
            },
    {
        match self.hook.boxed.get() {
            Ok(builder) => <<T as Owned<'a>>::Builder as FromPointerBuilder<'a>>::get_from_pointer(builder),
            Err(e) => Err(e),
        }
    }

    /// Copies `other` into the results. An error of the transport is handed
    /// on as it is, and the results stay as they are.
    pub fn set<'a>(&mut self, other: <T as Owned<'a>>::Reader) -> (r: Result<(), Error>)
        ensures
            match old(self).hook.boxed.payload() {
                Ok(before) => final(self).hook.boxed.payload() matches Ok(after) && <<T as Owned<
                    'a,
                >>::Reader as SetPointerBuilder>::writes(before, other, after, r),
                Err(e) => r == Err::<(), Error>(e) && final(self).hook.boxed.payload() == old(self)
                    .hook.boxed.payload(),
            },
    {
        match self.hook.boxed.get() {
            Ok(builder) => <<T as Owned<'a>>::Reader as SetPointerBuilder>::set_pointer_builder(builder, other),
            Err(e) => Err(e),
        }
    }
}

/// An untyped server.
pub trait Server {
    /// Serves the call of the method `method_id` of the interface
    /// `interface_id`: reads `params`, writes `results`, and resolves when
    /// the results are complete, or with the error that the call fails with.
    fn dispatch_call(
        &mut self,
        interface_id: u64,
        method_id: u16,
        params: Params<any_pointer::Owned>,
        results: Results<any_pointer::Owned>,
    ) -> Promise<(), Error>;
}

} // verus!
