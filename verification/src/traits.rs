//! What a schema type brings: its views of a payload.

use crate::any_pointer::{Builder, Payload, Reader};
use crate::error::Error;
use vstd::prelude::*;

verus! {

/// A read-only view of a payload as a schema type.
pub trait FromPointerReader<'a>: Sized {
    /// Whether reading `payload` as this type may give `view`: anything,
    /// where an implementation does not say.
    open spec fn reads(payload: Payload, view: Result<Self, Error>) -> bool {
        true
    }

    /// Reads the payload behind `reader` as this type.
    fn get_from_pointer(reader: &Reader<'a>) -> (r: Result<Self, Error>)
        ensures
            Self::reads(*reader.payload, r),
    ;
}

/// A view of a payload as a schema type, through which the payload is
/// written.
pub trait FromPointerBuilder<'a>: Sized {
    /// Whether opening the payload behind `builder` for writing as this
    /// type may give `view`: anything, where an implementation does not
    /// say.
    open spec fn builds(builder: Builder<'a>, view: Result<Self, Error>) -> bool {
        true
    }

    /// Opens the payload behind `builder` for writing as this type.
    fn get_from_pointer(builder: Builder<'a>) -> (r: Result<Self, Error>)
        ensures
            Self::builds(builder, r),
    ;
}

/// A value that can be copied into a payload.
pub trait SetPointerBuilder: Sized {
    /// Whether copying `value` into a payload that holds `before` may leave
    /// `after` there and answer `r`: anything, where an implementation does
    /// not say.
    open spec fn writes(before: Payload, value: Self, after: Payload, r: Result<(), Error>) -> bool {
        true
    }

    /// Copies `from` into the payload behind `builder`.
    fn set_pointer_builder<'b>(builder: Builder<'b>, from: Self) -> (r: Result<(), Error>)
        ensures
            Self::writes(*old(builder.payload), from, *final(builder.payload), r),
    ;
}

/// A schema type, by its two views of a payload.
pub trait Owned<'a> {
    /// The read-only view.
    type Reader: FromPointerReader<'a> + SetPointerBuilder;

    /// The view through which the payload is written.
    type Builder: FromPointerBuilder<'a>;
}

/// A schema type whose results can be called before they are there.
pub trait Pipelined {
    /// The handle on results of this type that are still to come.
    type Pipeline;
}

} // verus!
