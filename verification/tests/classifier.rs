//! Classification of inbound events: routes, roles, query parameters and
//! body fields, with every rejection a bad request before any side effect.

use signal_relay::coordinator::{handle_event, Step};
use signal_relay::errors::Outcome;
use signal_relay::message::{MessageFields, MessageIn};
use signal_relay::request::{ConnectRequest, InboundEvent, Role};

fn event(
    route: Option<&str>,
    handle: Option<&str>,
    query: Vec<(&str, &str)>,
    body: Option<MessageFields>,
) -> InboundEvent {
    InboundEvent {
        route: route.map(|s| s.to_string()),
        connection_handle: handle.map(|s| s.to_string()),
        query: query
            .into_iter()
            .map(|(k, v)| (k.to_string(), v.to_string()))
            .collect(),
        body,
    }
}

fn assert_bad_request(e: InboundEvent) {
    let step = handle_event(e, 0, 60);
    assert!(matches!(step, Step::Done(Outcome::BadRequest)));
}

#[test]
fn unrecognized_route_is_bad_request() {
    assert_bad_request(event(Some("DANCE"), Some("c"), vec![], None));
}

#[test]
fn missing_route_is_bad_request() {
    assert_bad_request(event(None, Some("c"), vec![], None));
}

#[test]
fn route_match_is_exact() {
    assert_bad_request(event(Some("$CONNECT"), Some("c"), vec![], None));
    assert_bad_request(event(Some("send_message"), Some("c"), vec![], None));
}

#[test]
fn connect_with_missing_role_is_bad_request() {
    assert_bad_request(event(
        Some("$connect"),
        Some("c"),
        vec![("transfer_id", "t")],
        None,
    ));
}

#[test]
fn connect_with_unrecognized_role_is_bad_request() {
    assert_bad_request(event(
        Some("$connect"),
        Some("c"),
        vec![("transfer_id", "t"), ("role", "sender")],
        None,
    ));
    assert_bad_request(event(
        Some("$connect"),
        Some("c"),
        vec![("transfer_id", "t"), ("role", "OFFERER")],
        None,
    ));
}

#[test]
fn connect_with_missing_transfer_id_is_bad_request() {
    assert_bad_request(event(Some("$connect"), Some("c"), vec![("role", "offerer")], None));
}

#[test]
fn connect_without_connection_handle_is_bad_request() {
    assert_bad_request(event(
        Some("$connect"),
        None,
        vec![("transfer_id", "t"), ("role", "offerer")],
        None,
    ));
}

#[test]
fn send_message_without_body_is_bad_request() {
    assert_bad_request(event(Some("SEND_MESSAGE"), Some("c"), vec![], None));
}

#[test]
fn send_message_with_missing_recipient_is_bad_request() {
    assert_bad_request(event(
        Some("SEND_MESSAGE"),
        Some("c"),
        vec![],
        Some(MessageFields {
            action: Some("SEND_MESSAGE".to_string()),
            recipient: None,
            body: Some("payload".to_string()),
        }),
    ));
}

#[test]
fn role_values_are_case_sensitive() {
    assert!(matches!(Role::from_str("offerer"), Ok(Role::Offerer)));
    assert!(matches!(Role::from_str("receiver"), Ok(Role::Receiver)));
    assert!(Role::from_str("Offerer").is_err());
    assert!(Role::from_str("sender").is_err());
    assert!(Role::from_str("").is_err());
}

#[test]
fn connect_request_takes_the_first_matching_parameter() {
    let query = vec![
        ("transfer_id".to_string(), "first".to_string()),
        ("transfer_id".to_string(), "second".to_string()),
        ("role".to_string(), "receiver".to_string()),
    ];
    let req = ConnectRequest::try_from(&query).expect("well-formed query");
    assert_eq!(req.transfer_id, "first");
    assert!(matches!(req.role, Role::Receiver));
}

#[test]
fn message_in_needs_all_three_fields() {
    let complete = MessageIn::from_fields(Some(MessageFields {
        action: Some("SEND_MESSAGE".to_string()),
        recipient: Some("conn-B".to_string()),
        body: Some("hello".to_string()),
    }))
    .expect("complete body");
    assert_eq!(complete.action, "SEND_MESSAGE");
    assert_eq!(complete.recipient, "conn-B");
    assert_eq!(complete.body, "hello");

    assert!(MessageIn::from_fields(None).is_err());
    assert!(MessageIn::from_fields(Some(MessageFields {
        action: None,
        recipient: Some("conn-B".to_string()),
        body: Some("hello".to_string()),
    }))
    .is_err());
    assert!(MessageIn::from_fields(Some(MessageFields {
        action: Some("SEND_MESSAGE".to_string()),
        recipient: Some("conn-B".to_string()),
        body: None,
    }))
    .is_err());
}
