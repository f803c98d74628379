//! The in-memory offer directory: upsert, overwrite, and lazy expiry.

use signal_relay::directory::Directory;
use signal_relay::offer::{AttrValue, Offer};

fn offer(transfer_id: &str, handle: &str, valid_until: i64) -> Offer {
    Offer {
        transfer_id: transfer_id.to_string(),
        connection_handle: handle.to_string(),
        valid_until,
    }
}

#[test]
fn put_then_get_returns_the_written_handle() {
    let mut dir = Directory::new();
    dir.put(offer("abc123", "conn-A", 4_600));
    let got = dir.get("abc123", 1_000).expect("the offer should be live");
    assert_eq!(got.transfer_id, "abc123");
    assert_eq!(got.connection_handle, "conn-A");
    assert_eq!(got.valid_until, 4_600);
}

#[test]
fn second_put_overwrites_the_first() {
    let mut dir = Directory::new();
    dir.put(offer("abc123", "h1", 100));
    dir.put(offer("abc123", "h2", 200));
    let got = dir.get("abc123", 0).expect("the offer should be live");
    assert_eq!(got.connection_handle, "h2");
    assert_eq!(got.valid_until, 200);
}

#[test]
fn directories_keep_keys_apart() {
    let mut dir = Directory::new();
    dir.put(offer("t1", "h1", 100));
    dir.put(offer("t2", "h2", 100));
    dir.put(offer("t1", "h3", 100));
    assert_eq!(dir.get("t1", 0).unwrap().connection_handle, "h3");
    assert_eq!(dir.get("t2", 0).unwrap().connection_handle, "h2");
    assert!(dir.get("t3", 0).is_none());
}

#[test]
fn expiry_is_strict_after_valid_until() {
    let mut dir = Directory::new();
    dir.put(offer("t", "h", 100));
    assert!(dir.get("t", 100).is_some());
    assert!(dir.get("t", 101).is_none());
}

#[test]
fn record_round_trip_preserves_the_offer() {
    let o = offer("abc123", "conn-A", 1_700_000_000);
    let record = o.to_record();
    let back = Offer::try_from(&record).expect("the record holds the offer");
    assert_eq!(back.transfer_id, "abc123");
    assert_eq!(back.connection_handle, "conn-A");
    assert_eq!(back.valid_until, 1_700_000_000);
}

#[test]
fn record_fields_are_typed() {
    let o = offer("t", "h", -5);
    let record = o.to_record();
    assert!(record.iter().any(|(k, v)| k == "valid_until" && matches!(v, AttrValue::N(_))));
    assert!(record.iter().any(|(k, v)| k == "transfer_id" && matches!(v, AttrValue::S(_))));
    let back = Offer::try_from(&record).expect("negative instants round-trip too");
    assert_eq!(back.valid_until, -5);
}

#[test]
fn incomplete_records_are_rejected() {
    assert!(Offer::try_from(&vec![]).is_err());
    assert!(Offer::try_from(&vec![
        ("transfer_id".to_string(), AttrValue::S("t".to_string())),
        ("connection_handle".to_string(), AttrValue::S("h".to_string())),
    ])
    .is_err());
    // a field of the wrong shape fails like a missing one
    assert!(Offer::try_from(&vec![
        ("transfer_id".to_string(), AttrValue::S("t".to_string())),
        ("connection_handle".to_string(), AttrValue::N("7".to_string())),
        ("valid_until".to_string(), AttrValue::N("7".to_string())),
    ])
    .is_err());
    assert!(Offer::try_from(&vec![
        ("transfer_id".to_string(), AttrValue::S("t".to_string())),
        ("connection_handle".to_string(), AttrValue::S("h".to_string())),
        ("valid_until".to_string(), AttrValue::N("soon".to_string())),
    ])
    .is_err());
    assert!(Offer::try_from(&vec![
        ("transfer_id".to_string(), AttrValue::S("t".to_string())),
        ("connection_handle".to_string(), AttrValue::S("h".to_string())),
        ("valid_until".to_string(), AttrValue::Other),
    ])
    .is_err());
}
