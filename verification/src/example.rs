//! The handler that the example server gives [`crate::api::GetRandomNumber`].

use std::hash::BuildHasher;
use std::hash::DefaultHasher;
use std::hash::Hasher;
use std::hash::RandomState;
use vstd::prelude::*;
use vstd::std_specs::hash::DefaultHasherAdditionalSpecFns;

use crate::api::GetRandomNumberRequest;
use crate::api::GetRandomNumberResponse;
use crate::status::Code;
use crate::status::Status;

verus! {

/// `std::hash::RandomState::new`: a hasher builder seeded with fresh random
/// keys. Its keys depend on chance, so nothing is stated of the result.
#[verifier::external_body]
fn new_random_state() -> (state: RandomState) {
    RandomState::new()
}

/// `<RandomState as BuildHasher>::build_hasher`: a hasher keyed by `state`'s
/// random keys. Those keys are not visible, so nothing is stated of the result.
#[verifier::external_body]
fn build_hasher(state: &RandomState) -> (hasher: DefaultHasher) {
    state.build_hasher()
}

/// Whether a request asks for no bounds, the only kind this handler serves.
pub open spec fn is_unbounded(request: GetRandomNumberRequest) -> bool {
    request.min is None && request.max is None
}

/// A request is unbounded exactly when it sets neither bound: setting either
/// one, to any value, makes it bounded.
pub proof fn lemma_unbounded_exactly_without_bounds(request: GetRandomNumberRequest)
    ensures
        is_unbounded(request) <==> (request.min is None && request.max is None),
        request.min is Some ==> !is_unbounded(request),
        request.max is Some ==> !is_unbounded(request),
{
}

/// Whether `number` is a digest that a `DefaultHasher` gives: `finish` of
/// some hasher, whatever was written to it.
pub open spec fn is_hasher_digest(number: u64) -> bool {
    exists|writes: Seq<Seq<u8>>| number == #[trigger] DefaultHasher::spec_finish(writes)
}

/// A random number: the digest of an empty input under freshly seeded keys,
/// as `finish` gives it (no part of it is dropped).
pub fn get_random() -> (number: u64)
    ensures
        is_hasher_digest(number),
{
    let state = new_random_state();
    let hasher = build_hasher(&state);
    hasher.finish()
}

/// Refuses a request that asks for bounds, which are not implemented.
pub fn reject_bounds(request: &GetRandomNumberRequest) -> (res: Result<(), Status>)
    ensures
        is_unbounded(*request) ==> res is Ok,
        !is_unbounded(*request) ==> (res matches Err(status) && {
            &&& status.code == Code::Unimplemented
            &&& status.message@ == "Bounds are not implemented"@
            &&& status.source is None
        }),
        (request.min is Some || request.max is Some) ==> (res matches Err(status) && status.code
            == Code::Unimplemented),
        (request.min is None && request.max is None) ==> res is Ok,
{
    match (request.min, request.max) {
        (None, None) => Ok(()),
        _ => Err(Status::unimplemented("Bounds are not implemented")),
    }
}

/// The answer to a request, given the number drawn for it: an unbounded
/// request gets that number, any other is refused as unimplemented.
pub fn answer(request: &GetRandomNumberRequest, number: u64) -> (res: Result<GetRandomNumberResponse, Status>)
    ensures
        is_unbounded(*request) ==> res == Ok::<GetRandomNumberResponse, Status>(
            GetRandomNumberResponse { number },
        ),
        !is_unbounded(*request) ==> (res matches Err(status) && {
            &&& status.code == Code::Unimplemented
            &&& status.message@ == "Bounds are not implemented"@
            &&& status.source is None
        }),
        (request.min is Some || request.max is Some) ==> (res matches Err(status) && status.code
            == Code::Unimplemented),
        (request.min is None && request.max is None) ==> res is Ok,
{
    match reject_bounds(request) {
        Err(status) => Err(status),
        Ok(()) => Ok(GetRandomNumberResponse { number }),
    }
}

/// Serves a request: an unbounded one gets a freshly drawn random number
/// (see [`answer`]), any other is refused as unimplemented, and then no
/// number is drawn.
pub fn get_random_number(request: GetRandomNumberRequest) -> (res: Result<GetRandomNumberResponse, Status>)
    ensures
        res is Ok <==> is_unbounded(request),
        !is_unbounded(request) ==> (res matches Err(status) && {
            &&& status.code == Code::Unimplemented
            &&& status.message@ == "Bounds are not implemented"@
            &&& status.source is None
        }),
        (request.min is Some || request.max is Some) ==> (res matches Err(status) && status.code
            == Code::Unimplemented),
        (request.min is None && request.max is None) ==> (res matches Ok(response)
            && is_hasher_digest(response.number)),
{
    match reject_bounds(&request) {
        Err(status) => Err(status),
        Ok(()) => answer(&request, get_random()),
    }
}

} // verus!
