//! End-to-end protocol scenarios: the coordinator run against the
//! in-memory directory, with delivery results fed in by hand.

use signal_relay::coordinator::{
    after_delivery, after_put, handle_event, resolve_receiver, Action, DeliveryResult, Step,
    StoreGetResult, StorePutResult,
};
use signal_relay::directory::Directory;
use signal_relay::errors::{Outcome, PeerDirection};
use signal_relay::message::MessageFields;
use signal_relay::request::InboundEvent;

fn connect_event(role: &str, transfer_id: &str, handle: &str) -> InboundEvent {
    InboundEvent {
        route: Some("$connect".to_string()),
        connection_handle: Some(handle.to_string()),
        query: vec![
            ("transfer_id".to_string(), transfer_id.to_string()),
            ("role".to_string(), role.to_string()),
        ],
        body: None,
    }
}

#[test]
fn offerer_then_receiver_pairs_and_notifies() {
    let mut dir = Directory::new();
    let now: i64 = 1_000;
    let ttl: i64 = 3_600;

    let step = handle_event(connect_event("offerer", "abc123", "conn-A"), now, ttl);
    let offer = match step {
        Step::Do(Action::PutOffer(o)) => o,
        other => panic!("expected a store write, got {:?}", other),
    };
    assert_eq!(offer.transfer_id, "abc123");
    assert_eq!(offer.connection_handle, "conn-A");
    assert_eq!(offer.valid_until, now + ttl);
    dir.put(offer);
    assert!(matches!(after_put(StorePutResult::Written), Outcome::Success));

    let step = handle_event(connect_event("receiver", "abc123", "conn-B"), now, ttl);
    let (transfer_id, receiver_handle) = match step {
        Step::Do(Action::GetOffer { transfer_id, receiver_handle }) => {
            (transfer_id, receiver_handle)
        }
        other => panic!("expected a store read, got {:?}", other),
    };
    assert_eq!(transfer_id, "abc123");
    assert_eq!(receiver_handle, "conn-B");

    let found = dir.get(&transfer_id, now).expect("the offer should be live");
    let record = found.to_record();
    let step = resolve_receiver(StoreGetResult::Found(record), receiver_handle, now);
    match step {
        Step::Do(Action::Deliver { target, message, direction }) => {
            assert_eq!(target, "conn-A");
            assert_eq!(message.sender, "conn-B");
            assert_eq!(message.recipient, "conn-A");
            assert_eq!(message.body, "{\"type\":\"NEW_RECIPIENT\"}");
            assert!(matches!(direction, PeerDirection::Sender));
            let outcome = after_delivery(DeliveryResult::Delivered, direction);
            assert!(matches!(outcome, Outcome::Success));
        }
        other => panic!("expected a delivery, got {:?}", other),
    }
}

#[test]
fn receiver_for_unknown_transfer_is_not_found() {
    let dir = Directory::new();
    let now: i64 = 5;

    let step = handle_event(connect_event("receiver", "nope", "conn-R"), now, 60);
    let (transfer_id, receiver_handle) = match step {
        Step::Do(Action::GetOffer { transfer_id, receiver_handle }) => {
            (transfer_id, receiver_handle)
        }
        other => panic!("expected a store read, got {:?}", other),
    };
    assert!(dir.get(&transfer_id, now).is_none());

    let step = resolve_receiver(StoreGetResult::Missing, receiver_handle, now);
    assert!(matches!(step, Step::Done(Outcome::NotFound)));
}

#[test]
fn receiver_when_offerer_is_gone_gets_sender_gone() {
    let mut dir = Directory::new();
    let now: i64 = 50;
    let step = handle_event(connect_event("offerer", "t1", "conn-stale"), now, 600);
    match step {
        Step::Do(Action::PutOffer(o)) => dir.put(o),
        other => panic!("expected a store write, got {:?}", other),
    }

    let found = dir.get("t1", now).expect("the offer should be live");
    let step = resolve_receiver(
        StoreGetResult::Found(found.to_record()),
        "conn-R".to_string(),
        now,
    );
    match step {
        Step::Do(Action::Deliver { direction, .. }) => {
            let outcome = after_delivery(DeliveryResult::Gone, direction);
            assert!(matches!(outcome, Outcome::PeerGone(PeerDirection::Sender)));
            assert!(!matches!(outcome, Outcome::Infrastructure(_)));
        }
        other => panic!("expected a delivery, got {:?}", other),
    }
}

#[test]
fn receiver_sees_expired_offer_as_not_found() {
    let mut dir = Directory::new();
    let step = handle_event(connect_event("offerer", "t2", "conn-A"), 100, 60);
    match step {
        Step::Do(Action::PutOffer(o)) => dir.put(o),
        other => panic!("expected a store write, got {:?}", other),
    }
    // the record still sits in the store, but its window has passed
    let later: i64 = 161;
    assert!(dir.get("t2", later).is_none());
    let stale = dir.get("t2", 100).expect("still live at write time");
    let step = resolve_receiver(
        StoreGetResult::Found(stale.to_record()),
        "conn-R".to_string(),
        later,
    );
    assert!(matches!(step, Step::Done(Outcome::NotFound)));
}

#[test]
fn relay_delivers_exact_envelope() {
    let event = InboundEvent {
        route: Some("SEND_MESSAGE".to_string()),
        connection_handle: Some("conn-A".to_string()),
        query: vec![],
        body: Some(MessageFields {
            action: Some("SEND_MESSAGE".to_string()),
            recipient: Some("conn-B".to_string()),
            body: Some("offer-sdp-blob".to_string()),
        }),
    };
    let step = handle_event(event, 0, 60);
    match step {
        Step::Do(Action::Deliver { target, message, direction }) => {
            assert_eq!(target, "conn-B");
            assert_eq!(message.sender, "conn-A");
            assert_eq!(message.recipient, "conn-B");
            assert_eq!(message.body, "offer-sdp-blob");
            assert!(matches!(direction, PeerDirection::Recipient));
            let outcome = after_delivery(DeliveryResult::Delivered, direction);
            assert!(matches!(outcome, Outcome::Success));
        }
        other => panic!("expected a delivery, got {:?}", other),
    }
}

#[test]
fn relay_to_gone_recipient_gets_recipient_gone() {
    let outcome = after_delivery(DeliveryResult::Gone, PeerDirection::Recipient);
    assert!(matches!(outcome, Outcome::PeerGone(PeerDirection::Recipient)));
}

#[test]
fn disconnect_is_a_successful_no_op() {
    let event = InboundEvent {
        route: Some("$disconnect".to_string()),
        connection_handle: None,
        query: vec![],
        body: None,
    };
    let step = handle_event(event, 0, 60);
    assert!(matches!(step, Step::Done(Outcome::Success)));
}

#[test]
fn store_failures_surface_as_infrastructure() {
    let outcome = after_put(StorePutResult::Failure("write timed out".to_string()));
    assert!(matches!(outcome, Outcome::Infrastructure(_)));

    let step = resolve_receiver(
        StoreGetResult::Failure("read timed out".to_string()),
        "conn-R".to_string(),
        0,
    );
    assert!(matches!(step, Step::Done(Outcome::Infrastructure(_))));

    // a record that holds no offer is an infrastructure error, not not-found
    let step = resolve_receiver(StoreGetResult::Found(vec![]), "conn-R".to_string(), 0);
    assert!(matches!(step, Step::Done(Outcome::Infrastructure(_))));

    let outcome = after_delivery(
        DeliveryResult::Failure("socket closed".to_string()),
        PeerDirection::Recipient,
    );
    assert!(matches!(outcome, Outcome::Infrastructure(_)));
}
