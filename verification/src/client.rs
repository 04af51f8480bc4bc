//! A capability, as its caller holds it.

use crate::any_pointer;
use crate::error::Error;
use crate::hooks::{ClientHook, Hook};
use crate::message_size::MessageSize;
use crate::promise::Promise;
use crate::request::Request;
use std::marker::PhantomData;
use vstd::prelude::*;

verus! {

/// A client that is made from a capability.
pub trait FromClientHook: Sized {
    /// The capability that the client calls.
    open spec fn client_hook(&self) -> Hook<dyn ClientHook> {
        arbitrary()
    }

    /// A client that calls `hook`.
    fn new(hook: Box<dyn ClientHook>) -> (r: Self)
        ensures
            r.client_hook().boxed == hook,
    ;
}

/// An untyped client.
pub struct Client {
    /// The capability, as the transport holds it.
    pub hook: Hook<dyn ClientHook>,
}

impl Client {
    /// A client that calls `hook`.
    pub fn new(hook: Box<dyn ClientHook>) -> (r: Client)
        ensures
            r.hook.boxed == hook,
    {
        let hook = Hook { boxed: hook };
        Client { hook }
    }

    /// Starts a call of the method `method_id` of the interface
    /// `interface_id`, with the schema types of its parameters and results.
    pub fn new_call<Params, Results>(
        &self,
        interface_id: u64,
        method_id: u16,
        size_hint: Option<MessageSize>,
    ) -> (r: Request<Params, Results>)
        ensures
            exists|typeless: Request<any_pointer::Owned, any_pointer::Owned>| #[trigger]
                self.hook.boxed.starts(interface_id, method_id, size_hint, typeless) && r.hook
                    == typeless.hook,
    {
        let typeless = self.hook.boxed.new_call(interface_id, method_id, size_hint);
        Request { hook: typeless.hook, marker: PhantomData }
    }

    /// If the capability is actually only a promise, the returned promise
    /// resolves once the capability itself has resolved to its final
    /// destination (or propagates the exception if the capability promise is
    /// rejected). This is mainly useful for error-checking in the case where
    /// no calls are being made. There is no reason to wait for this before
    /// making calls; if the capability does not resolve, the call results
    /// will propagate the error.
    pub fn when_resolved(&self) -> (r: Promise<(), Error>)
        ensures
            self.hook.boxed.resolves(r),
    {
        self.hook.boxed.when_resolved()
    }
}

impl FromClientHook for Client {
    open spec fn client_hook(&self) -> Hook<dyn ClientHook> {
        self.hook
    }

    fn new(hook: Box<dyn ClientHook>) -> (r: Self) {
        let hook = Hook { boxed: hook };
        Client { hook }
    }
}

} // verus!
