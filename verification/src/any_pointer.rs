//! The payload of a call or of its results, before a schema type is read
//! into it.

use crate::error::Error;
use crate::traits;
use crate::traits::{FromPointerBuilder, FromPointerReader, Pipelined, SetPointerBuilder};
use vstd::prelude::*;

verus! {

/// A serialized structure: words whose meaning the schema type gives.
pub struct Payload {
    /// The words of the structure.
    pub words: Vec<u64>,
}

/// A read-only view of a payload.
pub struct Reader<'a> {
    /// The payload that is read.
    pub payload: &'a Payload,
}

/// A view of a payload through which it is written.
pub struct Builder<'a> {
    /// The payload that is written.
    pub payload: &'a mut Payload,
}

/// The schema type of a payload of which nothing is known.
pub struct Owned;

impl<'a> FromPointerReader<'a> for Reader<'a> {
    open spec fn reads(payload: Payload, view: Result<Self, Error>) -> bool {
        view matches Ok(reader) && *reader.payload == payload
    }

    fn get_from_pointer(reader: &Reader<'a>) -> (r: Result<Self, Error>) {
        Ok(Reader { payload: reader.payload })
    }
}

impl<'a> FromPointerBuilder<'a> for Builder<'a> {
    open spec fn builds(builder: Builder<'a>, view: Result<Self, Error>) -> bool {
        view == Ok::<Self, Error>(builder)
    }

    fn get_from_pointer(builder: Builder<'a>) -> (r: Result<Self, Error>) {
        Ok(builder)
    }
}

impl<'a> SetPointerBuilder for Reader<'a> {
    open spec fn writes(before: Payload, value: Self, after: Payload, r: Result<(), Error>) -> bool {
        r is Ok && after.words@ == value.payload.words@
    }

    fn set_pointer_builder<'b>(builder: Builder<'b>, from: Self) -> (r: Result<(), Error>) {
        builder.payload.words = from.payload.words.clone();
        Ok(())
    }
}

impl<'a> traits::Owned<'a> for Owned {
    type Reader = Reader<'a>;

    type Builder = Builder<'a>;
}

impl Pipelined for Owned {
    type Pipeline = Pipeline;
}

/// What is copied into a payload is what is read from it, word for word,
/// where the transport hands the payload on as it is: `value` is copied into
/// a payload that held `before`, which leaves `sent` and answers `copied`;
/// the other side has `received` and reads `view` from it.
pub proof fn lemma_copy_then_read_is_lossless<'a, 'b>(
    before: Payload,
    value: Reader<'a>,
    sent: Payload,
    copied: Result<(), Error>,
    received: Result<Payload, Error>,
    view: Result<Reader<'b>, Error>,
)
    requires
        <Reader<'a> as SetPointerBuilder>::writes(before, value, sent, copied),
        received == Ok::<Payload, Error>(sent),
        match received {
            Ok(payload) => <Reader<'b> as FromPointerReader<'b>>::reads(payload, view),
            Err(e) => view == Err::<Reader<'b>, Error>(e),
        },
    ensures
        copied is Ok,
        view matches Ok(reader) && reader.payload.words@ == value.payload.words@,
{
}

/// One step on the way from the results of a call to a capability in them.
#[derive(Debug, Clone, Copy, PartialEq, Eq)]
pub enum PipelineOp {
    /// Stay where you are.
    Noop,
    /// Go to the pointer field with this index.
    GetPointerField(u16),
}

/// A handle on the results that a call will have, or on something in them.
/// The transport that made the call numbers it, and takes calls for what the
/// handle leads to before the results are there.
pub struct Pipeline {
    /// The call, as its transport numbers it.
    pub call: u64,
    /// The way from the results of the call to what the handle stands for.
    pub ops: Vec<PipelineOp>,
}

impl Pipeline {
    /// A handle on the results of the call `call`.
    pub fn new(call: u64) -> (r: Pipeline)
        ensures
            r.call == call,
            r.ops@ == Seq::<PipelineOp>::empty(),
    {
        Pipeline { call, ops: Vec::new() }
    }

    /// A handle on what the pointer field `pointer_index` of what this handle
    /// stands for will hold.
    pub fn get_pointer_field(&self, pointer_index: u16) -> (r: Pipeline)
        ensures
            r.call == self.call,
            r.ops@ == self.ops@.push(PipelineOp::GetPointerField(pointer_index)),
    {
        let mut ops: Vec<PipelineOp> = Vec::new();
        let mut i: usize = 0;
        while i < self.ops.len()
            invariant
                i <= self.ops.len(),
                ops@ == self.ops@.take(i as int),
            decreases self.ops.len() - i,
        {
            ops.push(self.ops[i]);
            i = i + 1;
        }
        ops.push(PipelineOp::GetPointerField(pointer_index));
        Pipeline { call: self.call, ops }
    }
}

} // verus!
