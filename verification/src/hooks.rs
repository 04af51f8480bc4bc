//! What a transport implements: capabilities, calls and their payloads,
//! without schema types.

use crate::any_pointer;
use crate::any_pointer::{Builder, Payload, Reader};
use crate::error::Error;
use crate::message_size::MessageSize;
use crate::promise::Promise;
use crate::request::{RemotePromise, Request};
use vstd::prelude::*;

verus! {

/// Owns a hook. The box is held in a struct that is generic in what is
/// boxed, so that a hook that goes from one owner to another is moved as it
/// is.
pub struct Hook<H: ?Sized> {
    /// The hook.
    pub boxed: Box<H>,
}

/// A capability: an object that can be called.
pub trait ClientHook {
    /// Whether `request` may be what starting a call of the method hands
    /// out: anything, where an implementation does not say.
    open spec fn starts(
        &self,
        interface_id: u64,
        method_id: u16,
        size_hint: Option<MessageSize>,
        request: Request<any_pointer::Owned, any_pointer::Owned>,
    ) -> bool {
        true
    }

    /// Starts a call of the method `method_id` of the interface
    /// `interface_id`. The call is sent when its parameters are filled in.
    fn new_call(&self, interface_id: u64, method_id: u16, size_hint: Option<MessageSize>) -> (r:
        Request<any_pointer::Owned, any_pointer::Owned>)
        ensures
            self.starts(interface_id, method_id, size_hint, r),
    ;

    /// Whether `promise` may be what waiting for the capability hands out:
    /// anything, where an implementation does not say.
    open spec fn resolves(&self, promise: Promise<(), Error>) -> bool {
        true
    }

    /// A promise that resolves when the capability has settled on where its
    /// calls go, and fails if it cannot.
    fn when_resolved(&self) -> (r: Promise<(), Error>)
        ensures
            self.resolves(r),
    ;
}

/// A call that is being put together.
pub trait RequestHook {
    /// The parameters, as far as they are filled in.
    open spec fn payload(&self) -> Payload {
        arbitrary()
    }

    /// Whether `sent` may be what sending the call with the parameters
    /// `payload` hands out: anything, where an implementation does not say.
    open spec fn dispatches(&self, payload: Payload, sent: RemotePromise<any_pointer::Owned>) -> bool {
        true
    }

    /// A view of the parameters through which they are filled in. What is
    /// written through it changes the parameters and nothing else of the
    /// call.
    fn get<'a>(&'a mut self) -> (r: Builder<'a>)
        ensures
            *r.payload == old(self).payload(),
            final(self).payload() == *final(r.payload),
            forall|payload: Payload, sent: RemotePromise<any_pointer::Owned>| #[trigger]
                final(self).dispatches(payload, sent) == old(self).dispatches(payload, sent),
    ;

    /// Sends the call with the parameters as they are.
    fn send(self: Box<Self>) -> (r: RemotePromise<any_pointer::Owned>)
        ensures
            self.dispatches(self.payload(), r),
    ;
}

/// The results of a call, as they were received.
pub trait ResponseHook {
    /// The payload that was received, or the error that reading it gives.
    open spec fn payload(&self) -> Result<Payload, Error> {
        arbitrary()
    }

    /// A read-only view of the payload.
    fn get<'a>(&'a self) -> (r: Result<Reader<'a>, Error>)
        ensures
            match r {
                Ok(reader) => self.payload() == Ok::<Payload, Error>(*reader.payload),
                Err(e) => self.payload() == Err::<Payload, Error>(e),
            },
    ;
}

/// The parameters of a call, as the callee received them.
pub trait ParamsHook {
    /// The payload that was received, or the error that reading it gives.
    open spec fn payload(&self) -> Result<Payload, Error> {
        arbitrary()
    }

    /// A read-only view of the payload.
    fn get<'a>(&'a self) -> (r: Result<Reader<'a>, Error>)
        ensures
            match r {
                Ok(reader) => self.payload() == Ok::<Payload, Error>(*reader.payload),
                Err(e) => self.payload() == Err::<Payload, Error>(e),
            },
    ;
}

/// The results of a call, while the callee writes them.
pub trait ResultsHook {
    /// The payload as far as it is written, or the error that writing it
    /// gives.
    open spec fn payload(&self) -> Result<Payload, Error> {
        arbitrary()
    }

    /// A view of the payload through which it is written. Where none can
    /// be had, nothing changes.
    fn get<'a>(&'a mut self) -> (r: Result<Builder<'a>, Error>)
        ensures
            match r {
                Ok(builder) => old(self).payload() == Ok::<Payload, Error>(*builder.payload)
                    && final(self).payload() == Ok::<Payload, Error>(*final(builder.payload)),
                Err(e) => old(self).payload() == Err::<Payload, Error>(e) && final(self).payload()
                    == old(self).payload(),
            },
    ;
}

} // verus!
