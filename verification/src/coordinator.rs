//! The coordinator: the protocol decisions behind connect, disconnect and
//! relay.
//!
//! Every invocation is stateless; durable state lives in the offer
//! directory and messages travel over the delivery channel, both outside
//! collaborators. A step therefore either asks the surrounding service to
//! perform one outside call — returning an [`Action`] — or ends in an
//! [`Outcome`]. The service performs the call and feeds its result back
//! into the matching continuation, so every decision on either side of an
//! outside call is made here, verified.

use vstd::prelude::*;
use crate::errors::{Outcome, PeerDirection};
use crate::message::{new_recipient_body, new_recipient_notification, MessageOut};
use crate::offer::{offer_of_record, AttrValue, Offer};
use crate::request::{classify, classify_spec, Command, CommandView, InboundEvent, Role};

verus! {

/// What the offer directory reported for a write.
#[derive(Debug)]
pub enum StorePutResult {
    /// The record is durably written.
    Written,
    /// The store failed; the detail is for the log.
    Failure(String),
}

/// What the offer directory reported for a read.
#[derive(Debug)]
pub enum StoreGetResult {
    /// A record exists under the key; its raw fields.
    Found(Vec<(String, AttrValue)>),
    /// No record exists under the key.
    Missing,
    /// The store failed; the detail is for the log.
    Failure(String),
}

/// What the delivery channel reported for a push.
#[derive(Debug)]
pub enum DeliveryResult {
    /// The payload reached the connection.
    Delivered,
    /// The target connection no longer exists; a normal, expected condition,
    /// authoritative and final for this handle within the invocation.
    Gone,
    /// The channel failed some other way; the detail is for the log.
    Failure(String),
}

/// An outside call the surrounding service must perform next.
#[derive(Debug)]
pub enum Action {
    /// Upsert the offer under its transfer identifier, then resume with
    /// [`after_put`].
    PutOffer(Offer),
    /// Read the record under `transfer_id`, then resume with
    /// [`resolve_receiver`], passing `receiver_handle` through.
    GetOffer { transfer_id: String, receiver_handle: String },
    /// Push the message to the `target` connection, then resume with
    /// [`after_delivery`], passing `direction` through.
    Deliver { target: String, message: MessageOut, direction: PeerDirection },
}

/// One protocol step: an outside call to perform, or a final outcome.
#[derive(Debug)]
pub enum Step {
    Do(Action),
    Done(Outcome),
}

/// Begins the step a validated command asks for. An offerer's connect
/// builds the offer, valid for `ttl_seconds` from `now`, to be upserted —
/// overwriting any earlier offer under the same transfer identifier. A
/// receiver's connect asks for the offer lookup. A disconnect succeeds
/// unconditionally, a deliberate no-op: offers expire passively. A relay
/// asks for delivery of exactly the envelope `{sender, recipient, body}`
/// to `recipient`.
pub fn start(command: Command, now: i64, ttl_seconds: i64) -> (s: Step)
    requires
        0 < ttl_seconds,
        now + ttl_seconds <= i64::MAX,
    ensures
        match command@ {
            CommandView::Connect { role, transfer_id, connection_handle } => match role {
                Role::Offerer => s matches Step::Do(Action::PutOffer(o)) && o@.transfer_id
                    == transfer_id && o@.connection_handle == connection_handle && o@.valid_until
                    == now + ttl_seconds,
                Role::Receiver => s matches Step::Do(
                    Action::GetOffer { transfer_id: t, receiver_handle: h },
                ) && t@ == transfer_id && h@ == connection_handle,
            },
            CommandView::Disconnect => s matches Step::Done(Outcome::Success),
            CommandView::Relay { sender, recipient, body } => s matches Step::Do(
                Action::Deliver { target, message, direction },
            ) && target@ == recipient && message.sender@ == sender && message.recipient@
                == recipient && message.body@ == body && direction == PeerDirection::Recipient,
        },
{
    match command {
        Command::Connect { role, transfer_id, connection_handle } => match role {
            Role::Offerer => Step::Do(
                Action::PutOffer(
                    Offer { transfer_id, connection_handle, valid_until: now + ttl_seconds },
                ),
            ),
            Role::Receiver => Step::Do(
                Action::GetOffer { transfer_id, receiver_handle: connection_handle },
            ),
        },
        Command::Disconnect => Step::Done(Outcome::Success),
        Command::Relay { sender, recipient, body } => {
            let target = recipient.clone();
            Step::Do(
                Action::Deliver {
                    target,
                    message: MessageOut { sender, recipient, body },
                    direction: PeerDirection::Recipient,
                },
            )
        },
    }
}

/// Handles one inbound event up to the first outside call: classification
/// and the protocol decision in one step. A malformed event ends in the
/// bad-request outcome with no action asked for — in particular no store
/// write and no delivery attempt.
pub fn handle_event(event: InboundEvent, now: i64, ttl_seconds: i64) -> (s: Step)
    requires
        0 < ttl_seconds,
        now + ttl_seconds <= i64::MAX,
    ensures
        classify_spec(event) is None ==> s matches Step::Done(Outcome::BadRequest),
        classify_spec(event) matches Some(
            CommandView::Connect { role: Role::Offerer, transfer_id, connection_handle },
        ) ==> s matches Step::Do(Action::PutOffer(o)) && o@.transfer_id == transfer_id
            && o@.connection_handle == connection_handle && o@.valid_until == now + ttl_seconds,
        classify_spec(event) matches Some(
            CommandView::Connect { role: Role::Receiver, transfer_id, connection_handle },
        ) ==> s matches Step::Do(Action::GetOffer { transfer_id: t, receiver_handle: h }) && t@
            == transfer_id && h@ == connection_handle,
        classify_spec(event) matches Some(CommandView::Disconnect) ==> s matches Step::Done(
            Outcome::Success,
        ),
        classify_spec(event) matches Some(CommandView::Relay { sender, recipient, body })
            ==> s matches Step::Do(Action::Deliver { target, message, direction }) && target@
            == recipient && message.sender@ == sender && message.recipient@ == recipient
            && message.body@ == body && direction == PeerDirection::Recipient,
{
    match classify(event) {
        Err(_) => Step::Done(Outcome::BadRequest),
        Ok(command) => start(command, now, ttl_seconds),
    }
}

/// Ends an offerer's connect once the directory write came back: written
/// means success; a store failure surfaces as an infrastructure error,
/// never as silent success.
pub fn after_put(result: StorePutResult) -> (o: Outcome)
    ensures
        match result {
            StorePutResult::Written => o is Success,
            StorePutResult::Failure(d) => o matches Outcome::Infrastructure(detail) && detail@
                == d@,
        },
{
    match result {
        StorePutResult::Written => Outcome::Success,
        StorePutResult::Failure(d) => Outcome::Infrastructure(d),
    }
}

/// Continues a receiver's connect once the directory read came back. A
/// missing record, or one whose offer is already past `now`, ends not-found
/// — and asks for no delivery. A record that holds no offer is an
/// infrastructure error. A live offer asks for delivery of the fixed
/// new-recipient notification to the offerer's handle, naming the
/// receiver's own handle as sender.
pub fn resolve_receiver(result: StoreGetResult, receiver_handle: String, now: i64) -> (s: Step)
    ensures
        match result {
            StoreGetResult::Missing => s matches Step::Done(Outcome::NotFound),
            StoreGetResult::Failure(d) => s matches Step::Done(Outcome::Infrastructure(detail))
                && detail@ == d@,
            StoreGetResult::Found(record) => match offer_of_record(record@) {
                None => s matches Step::Done(Outcome::Infrastructure(_)),
                Some(offer) => if now <= offer.valid_until {
                    s matches Step::Do(Action::Deliver { target, message, direction }) && target@
                        == offer.connection_handle && message.sender@ == receiver_handle@
                        && message.recipient@ == offer.connection_handle && message.body@
                        == new_recipient_body() && direction == PeerDirection::Sender
                } else {
                    s matches Step::Done(Outcome::NotFound)
                },
            },
        },
{
    match result {
        StoreGetResult::Missing => Step::Done(Outcome::NotFound),
        StoreGetResult::Failure(d) => Step::Done(Outcome::Infrastructure(d)),
        StoreGetResult::Found(record) => match Offer::try_from(&record) {
            Err(_) => Step::Done(
                Outcome::Infrastructure("stored record does not hold an offer".to_owned()),
            ),
            Ok(offer) => if offer.is_live(now) {
                let target = offer.connection_handle.clone();
                Step::Do(
                    Action::Deliver {
                        target,
                        message: new_recipient_notification(
                            receiver_handle,
                            offer.connection_handle,
                        ),
                        direction: PeerDirection::Sender,
                    },
                )
            } else {
                Step::Done(Outcome::NotFound)
            },
        },
    }
}

/// Ends a step that asked for a delivery: delivered means success; a target
/// that is gone surfaces as the gone-peer condition for `direction`,
/// distinct from every other failure, which is an infrastructure error.
pub fn after_delivery(result: DeliveryResult, direction: PeerDirection) -> (o: Outcome)
    ensures
        match result {
            DeliveryResult::Delivered => o is Success,
            DeliveryResult::Gone => o matches Outcome::PeerGone(d) && d == direction,
            DeliveryResult::Failure(detail) => o matches Outcome::Infrastructure(x) && x@
                == detail@,
        },
{
    match result {
        DeliveryResult::Delivered => Outcome::Success,
        DeliveryResult::Gone => Outcome::PeerGone(direction),
        DeliveryResult::Failure(detail) => Outcome::Infrastructure(detail),
    }
}

} // verus!
