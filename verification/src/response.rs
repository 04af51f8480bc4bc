//! The results of a call, as the caller sees them.

use crate::error::Error;
use crate::hooks::{Hook, ResponseHook};
use crate::traits::{FromPointerReader, Owned, Pipelined};
use std::marker::PhantomData;
use vstd::prelude::*;

verus! {

/// A response from a method call, as seen by the client.
pub struct Response<Results> {
    /// The schema type of the results.
    pub marker: PhantomData<Results>,
    /// The results, as the transport received them.
    pub hook: Hook<dyn ResponseHook>,
}

impl<Results> Response<Results> where Results: Pipelined + for<'a> Owned<'a> {
    /// The response that `hook` holds, read as `Results`.
    pub fn new(hook: Box<dyn ResponseHook>) -> (r: Response<Results>)
        ensures
            r.hook.boxed == hook,
    {
        let hook = Hook { boxed: hook };
        Response { marker: PhantomData, hook }
    }

    /// The results, read as their schema type. An error of the transport is
    /// handed on as it is.
    pub fn get<'a>(&'a self) -> (r: Result<<Results as Owned<'a>>::Reader, Error>)
        ensures
            match self.hook.boxed.payload() {
                Ok(payload) => <<Results as Owned<'a>>::Reader as FromPointerReader<'a>>::reads(
                    payload,
                    r,
                ),
                Err(e) => r == Err::<<Results as Owned<'a>>::Reader, Error>(e),
            },
    {
        match self.hook.boxed.get() {
            Ok(reader) => <<Results as Owned<'a>>::Reader as FromPointerReader<'a>>::get_from_pointer(&reader),
            Err(e) => Err(e),
        }
    }
}

} // verus!
