use rrpc::False;
use rrpc::Method;
use rrpc::api::GetRandomNumber;
use rrpc::client::method_path;
use rrpc::client::method_path_string;
use rrpc::client::try_method_path;

struct Echo;
impl Method for Echo {
    const ID: &'static str = "echo.Echo";
    type IsRequestStreamed = False;
    type IsResponseStreamed = False;
    type Request = String;
    type Response = String;
}

struct Spaced;
impl Method for Spaced {
    const ID: &'static str = "has space";
    type IsRequestStreamed = False;
    type IsResponseStreamed = False;
    type Request = String;
    type Response = String;
}

struct Queried;
impl Method for Queried {
    const ID: &'static str = "find?q=`x`";
    type IsRequestStreamed = False;
    type IsResponseStreamed = False;
    type Request = String;
    type Response = String;
}

struct Quoted;
impl Method for Quoted {
    const ID: &'static str = "/\"?";
    type IsRequestStreamed = False;
    type IsResponseStreamed = False;
    type Request = String;
    type Response = String;
}

struct Unicode;
impl Method for Unicode {
    const ID: &'static str = "caf\u{e9}";
    type IsRequestStreamed = False;
    type IsResponseStreamed = False;
    type Request = String;
    type Response = String;
}

#[test]
fn the_path_puts_the_id_under_a_slash() {
    assert_eq!(method_path_string("GetRandomNumber"), "/GetRandomNumber/call");
    assert_eq!(method_path_string(""), "//call");
}

#[test]
fn the_example_method_can_be_called() {
    let path = method_path::<GetRandomNumber>();
    assert_eq!(path.as_str(), "/GetRandomNumber/call");
    assert!(path.as_str().starts_with(&format!("/{}/", <GetRandomNumber as Method>::ID)));
}

#[test]
fn a_dotted_id_gives_its_path() {
    let path = try_method_path::<Echo>().unwrap();
    assert_eq!(path.path(), "/echo.Echo/call");
}

#[test]
fn an_id_with_a_space_gives_no_path() {
    assert!(try_method_path::<Spaced>().is_none());
}

#[test]
fn a_query_in_the_id_is_kept_as_query() {
    let path = try_method_path::<Queried>().unwrap();
    assert_eq!(path.path(), "/find");
    assert_eq!(path.query(), Some("q=`x`/call"));
}

#[test]
fn non_ascii_text_is_accepted() {
    assert!(try_method_path::<Unicode>().is_some());
}

#[test]
fn an_id_that_is_a_static_path_gets_its_path() {
    let static_path = axum::http::uri::PathAndQuery::from_static(<Quoted as Method>::ID);
    assert_eq!(static_path.as_str(), "/\"?");
    let path = try_method_path::<Quoted>().unwrap();
    assert_eq!(path.path(), "//\"");
    assert_eq!(path.query(), Some("/call"));
}

#[test]
fn a_long_id_still_gets_its_path() {
    let id = format!("/{}", "a".repeat(65527));
    let text = method_path_string(&id);
    assert_eq!(text.len(), 65534);
    assert!(axum::http::uri::PathAndQuery::try_from(text).is_ok());
}
