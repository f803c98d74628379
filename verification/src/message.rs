//! Messages relayed between two live connections.

use vstd::prelude::*;
use crate::errors::BadRequestError;

verus! {

/// The fields of a message-send body as the transport hands them over,
/// each one possibly missing.
#[derive(Debug)]
pub struct MessageFields {
    pub action: Option<String>,
    pub recipient: Option<String>,
    pub body: Option<String>,
}

/// A validated inbound message-send request.
#[derive(Debug)]
pub struct MessageIn {
    /// The route tag the client put in the body; required but not interpreted.
    pub action: String,
    /// The connection handle the message is addressed to.
    pub recipient: String,
    /// The opaque payload; this system never reads it.
    pub body: String,
}

/// The views of a message-send body's fields when all three are present.
pub open spec fn message_in_of(fields: Option<MessageFields>) -> Option<(Seq<char>, Seq<char>, Seq<char>)> {
    match fields {
        Some(f) => match (f.action, f.recipient, f.body) {
            (Some(a), Some(r), Some(b)) => Some((a@, r@, b@)),
            _ => None,
        },
        None => None,
    }
}

impl MessageIn {
    /// Validates the decoded fields of a message-send body: all three must be
    /// present, else the request is bad.
    pub fn from_fields(fields: Option<MessageFields>) -> (r: Result<MessageIn, BadRequestError>)
        ensures
            match r {
                Ok(m) => message_in_of(fields) == Some((m.action@, m.recipient@, m.body@)),
                Err(_) => message_in_of(fields) is None,
            },
    {
        match fields {
            Some(f) => match (f.action, f.recipient, f.body) {
                (Some(action), Some(recipient), Some(body)) => Ok(MessageIn { action, recipient, body }),
                _ => Err(BadRequestError),
            },
            None => Err(BadRequestError),
        }
    }
}

/// The envelope handed to the delivery channel.
#[derive(Debug)]
pub struct MessageOut {
    /// The connection handle the message comes from.
    pub sender: String,
    /// The connection handle the message goes to.
    pub recipient: String,
    /// The opaque payload.
    pub body: String,
}

/// The fixed payload that tells an offerer a receiver has joined.
pub open spec fn new_recipient_body() -> Seq<char> {
    "{\"type\":\"NEW_RECIPIENT\"}"@
}

/// Builds the notification an offerer gets when a receiver joins: it names
/// the receiver's connection handle as sender and carries no message body
/// beyond the fixed tag.
pub fn new_recipient_notification(receiver_handle: String, offerer_handle: String) -> (r: MessageOut)
    ensures
        r.sender@ == receiver_handle@,
        r.recipient@ == offerer_handle@,
        r.body@ == new_recipient_body(),
{
    MessageOut {
        sender: receiver_handle,
        recipient: offerer_handle,
        body: "{\"type\":\"NEW_RECIPIENT\"}".to_owned(),
    }
}

} // verus!
