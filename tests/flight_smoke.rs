use lance_fly::flight::{
    Action, Criteria, DescriptorType, FlightDescriptor, HandshakeRequest, Ticket,
};
use lance_fly::server::LanceFlyService;
use lance_fly::status::{Code, Status};

fn action(action_type: &str, body: &[u8]) -> Action {
    Action { action_type: action_type.to_string(), body: body.to_vec() }
}

fn path_descriptor(p: &str) -> FlightDescriptor {
    FlightDescriptor { descriptor_type: DescriptorType::Path, cmd: vec![], path: vec![p.to_string()] }
}

#[test]
fn flight_health_action_works() {
    let svc = LanceFlyService::new(None);
    let results = svc.do_action(&action("health", b"")).expect("do_action");
    assert_eq!(results.len(), 1);
    assert_eq!(results[0].body, b"ok".to_vec());
}

#[test]
fn health_action_ignores_body() {
    let svc = LanceFlyService::new(Some("/data/a.lance".to_string()));
    let results = svc.do_action(&action("health", b"anything at all")).expect("do_action");
    assert_eq!(results.len(), 1);
    assert_eq!(results[0].body, b"ok".to_vec());
}

#[test]
fn list_actions_catalog_in_order() {
    for path in [None, Some("/tmp/ds.lance".to_string()), Some(String::new())] {
        let svc = LanceFlyService::new(path);
        let actions = svc.list_actions();
        assert_eq!(actions.len(), 2);
        assert_eq!(actions[0].action_type, "health");
        assert_eq!(
            actions[0].description,
            "Return a single Flight action result with body 'ok'."
        );
        assert_eq!(actions[1].action_type, "lance_info");
        assert_eq!(actions[1].description, "Return the configured dataset path if present.");
    }
}

#[test]
fn listed_actions_are_accepted() {
    let svc = LanceFlyService::new(None);
    for a in svc.list_actions() {
        assert!(svc.do_action(&action(&a.action_type, b"")).is_ok());
    }
}

#[test]
fn lance_info_without_dataset() {
    let svc = LanceFlyService::new(None);
    let results = svc.do_action(&action("lance_info", b"x")).expect("do_action");
    assert_eq!(results.len(), 1);
    assert_eq!(results[0].body, b"dataset_path=".to_vec());
}

#[test]
fn lance_info_with_dataset() {
    let svc = LanceFlyService::new(Some("s3://bucket/tables/t.lance".to_string()));
    let results = svc.do_action(&action("lance_info", b"")).expect("do_action");
    assert_eq!(results.len(), 1);
    assert_eq!(results[0].body, b"dataset_path=s3://bucket/tables/t.lance".to_vec());
}

#[test]
fn lance_info_with_non_ascii_path() {
    let svc = LanceFlyService::new(Some("/données/é.lance".to_string()));
    let results = svc.do_action(&action("lance_info", b"")).expect("do_action");
    assert_eq!(results[0].body, "dataset_path=/données/é.lance".as_bytes().to_vec());
}

#[test]
fn unknown_action_is_invalid_argument() {
    let svc = LanceFlyService::new(Some("/d".to_string()));
    for t in ["bogus", "", "Health", "lance_info ", "health2"] {
        let err = svc.do_action(&action(t, b"")).expect_err("unknown type");
        assert_eq!(err.code, Code::InvalidArgument);
        assert_eq!(err.message, format!("unknown action type: {t}"));
        assert!(err.message.contains(t));
    }
}

#[test]
fn list_flights_empty_without_dataset() {
    let svc = LanceFlyService::new(None);
    assert!(svc.list_flights(&Criteria { expression: vec![] }).is_empty());
    assert!(svc.list_flights(&Criteria { expression: b"filter".to_vec() }).is_empty());
}

#[test]
fn list_flights_one_path_descriptor_with_dataset() {
    let svc = LanceFlyService::new(Some("/data/a.lance".to_string()));
    for expression in [vec![], b"anything".to_vec()] {
        let flights = svc.list_flights(&Criteria { expression });
        assert_eq!(flights.len(), 1);
        let d = flights[0].flight_descriptor.as_ref().expect("descriptor");
        assert_eq!(d.descriptor_type, DescriptorType::Path);
        assert!(d.cmd.is_empty());
        assert_eq!(d.path, vec!["/data/a.lance".to_string()]);
    }
}

#[test]
fn handshake_echoes_first_request() {
    let svc = LanceFlyService::new(None);
    let first: Option<Result<HandshakeRequest, Status>> =
        Some(Ok(HandshakeRequest { protocol_version: 7, payload: b"token".to_vec() }));
    let responses = svc.handshake(first).expect("handshake");
    assert_eq!(responses.len(), 1);
    assert_eq!(responses[0].protocol_version, 7);
    assert_eq!(responses[0].payload, b"token".to_vec());
}

#[test]
fn handshake_without_request_answers_defaults() {
    let svc = LanceFlyService::new(None);
    let responses = svc.handshake::<Status>(None).expect("handshake");
    assert_eq!(responses.len(), 1);
    assert_eq!(responses[0].protocol_version, 0);
    assert!(responses[0].payload.is_empty());
}

#[test]
fn handshake_propagates_read_error() {
    let svc = LanceFlyService::new(None);
    let read_error = Status::new(Code::DataLoss, "stream broke".to_string());
    let err = svc.handshake(Some(Err(read_error))).expect_err("read error");
    assert_eq!(err.code, Code::DataLoss);
    assert_eq!(err.message, "stream broke");
}

#[test]
fn data_operations_are_unimplemented() {
    let svc = LanceFlyService::new(Some("/d".to_string()));
    let d = path_descriptor("/d");
    let cases = [
        (svc.get_flight_info(&d), "GetFlightInfo is not implemented yet"),
        (svc.poll_flight_info(&d), "PollFlightInfo is not implemented yet"),
        (svc.get_schema(&d), "GetSchema is not implemented yet"),
        (svc.do_get(&Ticket { ticket: b"t".to_vec() }), "DoGet is not implemented yet"),
        (svc.do_put(), "DoPut is not implemented yet"),
        (svc.do_exchange(), "DoExchange is not implemented yet"),
    ];
    for (status, message) in cases {
        assert_eq!(status.code, Code::Unimplemented);
        assert_eq!(status.message, message);
    }
    let results = svc.do_action(&action("health", b"")).expect("still serving");
    assert_eq!(results[0].body, b"ok".to_vec());
}

#[test]
fn unconfigured_service_scenario() {
    let svc = LanceFlyService::new(None);
    let results = svc.do_action(&action("health", b"")).expect("health");
    assert_eq!(results.len(), 1);
    assert_eq!(results[0].body, b"ok".to_vec());
    assert!(svc.list_flights(&Criteria { expression: vec![] }).is_empty());
    let err = svc.do_action(&action("bogus", b"")).expect_err("bogus");
    assert_eq!(err.code, Code::InvalidArgument);
    assert!(err.message.contains("bogus"));
}

#[test]
fn status_constructors() {
    let s = Status::unimplemented("nope".to_string());
    assert_eq!(s.code, Code::Unimplemented);
    assert_eq!(s.message, "nope");
    let s = Status::invalid_argument("bad".to_string());
    assert_eq!(s.code, Code::InvalidArgument);
    assert_eq!(s.message, "bad");
}
