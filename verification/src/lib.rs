//! The capability layer of an RPC system: promises that resolve once, the
//! hooks that a transport implements, and the wrappers that read a schema
//! type into what the hooks carry.

pub mod any_pointer;
pub mod client;
pub mod error;
pub mod hooks;
pub mod mapped;
pub mod message_size;
pub mod promise;
pub mod request;
pub mod response;
pub mod server;
pub mod traits;
