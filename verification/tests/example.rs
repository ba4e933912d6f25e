use rrpc::Method;
use rrpc::api::GetRandomNumber;
use rrpc::api::GetRandomNumberRequest;
use rrpc::api::GetRandomNumberResponse;
use rrpc::example::answer;
use rrpc::example::get_random;
use rrpc::example::get_random_number;
use rrpc::example::reject_bounds;
use rrpc::status::Code;

#[test]
fn the_method_is_named_by_its_id() {
    assert_eq!(<GetRandomNumber as Method>::ID, "GetRandomNumber");
}

#[test]
fn an_unbounded_request_gets_a_number() {
    let request = GetRandomNumberRequest { min: None, max: None };
    assert!(reject_bounds(&request).is_ok());
    assert!(get_random_number(request).is_ok());
}

#[test]
fn a_lower_bound_is_refused() {
    let request = GetRandomNumberRequest { min: Some(3), max: None };
    let status = get_random_number(request).unwrap_err();
    assert_eq!(status.code(), Code::Unimplemented);
    assert_eq!(status.message(), "Bounds are not implemented");
}

#[test]
fn an_upper_bound_is_refused() {
    let request = GetRandomNumberRequest { min: None, max: Some(3) };
    let status = reject_bounds(&request).unwrap_err();
    assert_eq!(status.code(), Code::Unimplemented);
    assert_eq!(status.message(), "Bounds are not implemented");
}

#[test]
fn both_bounds_are_refused() {
    let request = GetRandomNumberRequest { min: Some(1), max: Some(9) };
    let status = get_random_number(request).unwrap_err();
    assert_eq!(status.code(), Code::Unimplemented);
    assert!(status.source.is_none());
}

#[test]
fn random_numbers_come_from_fresh_keys() {
    let first = get_random();
    let second = get_random();
    let third = get_random();
    assert!(first != second || second != third);
}

#[test]
fn an_unbounded_request_is_answered_with_the_drawn_number() {
    let request = GetRandomNumberRequest { min: None, max: None };
    assert_eq!(answer(&request, 1234).unwrap(), GetRandomNumberResponse { number: 1234 });
    assert_eq!(answer(&request, u64::MAX).unwrap(), GetRandomNumberResponse { number: u64::MAX });
}

#[test]
fn a_bounded_request_is_refused_whatever_was_drawn() {
    let request = GetRandomNumberRequest { min: Some(0), max: Some(10) };
    let status = answer(&request, 5).unwrap_err();
    assert_eq!(status.code(), Code::Unimplemented);
    assert_eq!(status.message(), "Bounds are not implemented");
}
