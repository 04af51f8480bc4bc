//! The size of a message, as a hint for the transport that allocates it.

use vstd::prelude::*;

verus! {

/// How much room a message takes.
#[derive(Debug, Clone, Copy, PartialEq, Eq)]
pub struct MessageSize {
    /// The number of words of data.
    pub word_count: u64,
    /// The number of capabilities.
    pub cap_count: u32,
}

} // verus!
