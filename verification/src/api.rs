//! An example API: a method that returns a random number.

use vstd::prelude::*;

use crate::False;
use crate::Method;

verus! {

/// Returns a random number, optionally within bounds.
pub struct GetRandomNumber;

impl Method for GetRandomNumber {
    const ID: &'static str = "GetRandomNumber";

    type IsRequestStreamed = False;
    type IsResponseStreamed = False;

    type Request = GetRandomNumberRequest;
    type Response = GetRandomNumberResponse;
}

/// The request of [`GetRandomNumber`]: optional lower and upper bounds.
#[derive(Clone, Debug, PartialEq, Eq, Structural)]
pub struct GetRandomNumberRequest {
    pub min: Option<u64>,
    pub max: Option<u64>,
}

/// The response of [`GetRandomNumber`].
#[derive(Clone, Debug, PartialEq, Eq, Structural)]
pub struct GetRandomNumberResponse {
    pub number: u64,
}

} // verus!
