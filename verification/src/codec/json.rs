//! The JSON codec that carries every message.

use std::marker::PhantomData;
use vstd::prelude::*;

use crate::status::Status;

verus! {

/// Decodes `In` and encodes `Out` as JSON.
pub struct JsonCodec<In, Out>(pub PhantomData<(In, Out)>);

impl<In, Out> JsonCodec<In, Out> {
    /// The codec; it holds no state.
    pub fn new() -> (codec: Self)
        ensures
            codec == JsonCodec::<In, Out>(PhantomData),
    {
        JsonCodec(PhantomData)
    }

    /// The encoding half of this codec.
    pub fn encoder(&mut self) -> (encoder: JsonCodec<(), Out>)
        ensures
            encoder == JsonCodec::<(), Out>(PhantomData),
            *final(self) == *old(self),
    {
        JsonCodec::new()
    }

    /// The decoding half of this codec.
    pub fn decoder(&mut self) -> (decoder: JsonCodec<In, ()>)
        ensures
            decoder == JsonCodec::<In, ()>(PhantomData),
            *final(self) == *old(self),
    {
        JsonCodec::new()
    }

    /// Finishes encoding a message, given what writing it as JSON returned:
    /// a failed write becomes an `Internal` status that carries the error.
    pub fn encode(&mut self, written: Result<(), serde_json::Error>) -> (res: Result<(), Status>)
        ensures
            written is Ok ==> res is Ok,
            written matches Err(error) ==> (res matches Err(status) && {
                &&& status.code == crate::status::Code::Internal
                &&& status.message@ == "Failed to write json"@
                &&& status.source == Some(error)
            }),
            *final(self) == *old(self),
    {
        match written {
            Ok(()) => Ok(()),
            Err(error) => {
                let mut status = Status::internal("Failed to write json");
                status.set_source(error);
                Err(status)
            },
        }
    }

    /// Finishes decoding a message, given what parsing the whole buffer as
    /// JSON returned: a parsed message is always complete, and a failed
    /// parse becomes an `Internal` status that carries the error.
    pub fn decode(&mut self, parsed: Result<In, serde_json::Error>) -> (res: Result<Option<In>, Status>)
        ensures
            parsed matches Ok(item) ==> res == Ok::<Option<In>, Status>(Some(item)),
            parsed matches Err(error) ==> (res matches Err(status) && {
                &&& status.code == crate::status::Code::Internal
                &&& status.message@ == "Failed to parse json"@
                &&& status.source == Some(error)
            }),
            *final(self) == *old(self),
    {
        match parsed {
            Ok(item) => Ok(Some(item)),
            Err(error) => {
                let mut status = Status::internal("Failed to parse json");
                status.set_source(error);
                Err(status)
            },
        }
    }
}

impl<In, Out> Default for JsonCodec<In, Out> {
    fn default() -> (codec: Self)
        ensures
            codec == JsonCodec::<In, Out>(PhantomData),
    {
        Self::new()
    }
}

} // verus!
