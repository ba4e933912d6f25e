use rrpc::server::both_streaming::BothStreamingService;
use rrpc::server::client_streaming::ClientStreamingService;
use rrpc::server::non_streaming::NonStreamingService;
use rrpc::server::server_streaming::ServerStreamingService;
use rrpc::False;
use rrpc::Method;
use rrpc::True;

struct Upload;
impl Method for Upload {
    const ID: &'static str = "Upload";
    type IsRequestStreamed = True;
    type IsResponseStreamed = False;
    type Request = u64;
    type Response = u64;
}

struct Ask;
impl Method for Ask {
    const ID: &'static str = "Ask";
    type IsRequestStreamed = False;
    type IsResponseStreamed = False;
    type Request = u64;
    type Response = u64;
}

struct Watch;
impl Method for Watch {
    const ID: &'static str = "Watch";
    type IsRequestStreamed = False;
    type IsResponseStreamed = True;
    type Request = u64;
    type Response = u64;
}

struct Chat;
impl Method for Chat {
    const ID: &'static str = "Chat";
    type IsRequestStreamed = True;
    type IsResponseStreamed = True;
    type Request = String;
    type Response = String;
}

#[test]
fn a_client_streaming_service_keeps_its_handler() {
    let mut service: ClientStreamingService<Upload, String> =
        ClientStreamingService::new("sum".to_string());
    let mut copy = service.clone();
    assert_eq!(service.handler_mut().as_str(), "sum");
    assert_eq!(copy.handler_mut().as_str(), "sum");
}

#[test]
fn a_both_streaming_service_keeps_its_handler() {
    let mut service: BothStreamingService<Chat, Vec<u8>> = BothStreamingService::new(vec![1, 2]);
    let mut copy = service.clone();
    assert_eq!(*service.handler_mut(), vec![1, 2]);
    assert_eq!(*copy.handler_mut(), vec![1, 2]);
}

#[test]
fn a_handler_changed_through_the_service_stays_changed() {
    let mut service: ClientStreamingService<Upload, u64> = ClientStreamingService::new(1);
    *service.handler_mut() += 4;
    assert_eq!(*service.handler_mut(), 5);
    let mut copy = service.clone();
    *service.handler_mut() = 0;
    assert_eq!(*copy.handler_mut(), 5);
    let mut both: BothStreamingService<Chat, u64> = BothStreamingService::new(7);
    *both.handler_mut() = 9;
    assert_eq!(*both.handler_mut(), 9);
}

#[test]
fn non_and_server_streaming_services_keep_their_handler() {
    let mut service: NonStreamingService<Ask, String> = NonStreamingService::new("ask".to_string());
    let mut copy = service.clone();
    service.handler_mut().push('!');
    assert_eq!(service.handler_mut().as_str(), "ask!");
    assert_eq!(copy.handler_mut().as_str(), "ask");
    let mut watch: ServerStreamingService<Watch, u64> = ServerStreamingService::new(2);
    *watch.handler_mut() *= 3;
    assert_eq!(*watch.handler_mut(), 6);
    assert_eq!(*watch.clone().handler_mut(), 6);
}
