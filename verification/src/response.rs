//! Mapping a protocol outcome to the transport's acknowledgement shape.

use vstd::prelude::*;
use crate::errors::{
    recipient_gone_text, sender_gone_text, BadRequestError, Outcome, PeerDirection,
    SenderGoneError,
};

verus! {

/// The acknowledgement the transport expects back.
#[derive(Debug)]
pub struct LambdaWebsocketResponse {
    pub is_base_64_encoded: bool,
    pub status_code: u16,
    pub headers: Vec<(String, String)>,
    pub body: String,
}

impl Default for LambdaWebsocketResponse {
    /// An empty success acknowledgement.
    fn default() -> (r: Self)
        ensures
            !r.is_base_64_encoded,
            r.status_code == 200,
            r.headers@.len() == 0,
            r.body@.len() == 0,
    {
        LambdaWebsocketResponse {
            is_base_64_encoded: false,
            status_code: 200,
            headers: Vec::new(),
            body: String::new(),
        }
    }
}

/// An acknowledgement with the given status and body, no headers.
fn respond_with(status_code: u16, body: &str) -> (r: LambdaWebsocketResponse)
    ensures
        !r.is_base_64_encoded,
        r.headers@.len() == 0,
        r.status_code == status_code,
        r.body@ == body@,
{
    LambdaWebsocketResponse {
        is_base_64_encoded: false,
        status_code,
        headers: Vec::new(),
        body: body.to_owned(),
    }
}

/// Builds the acknowledgement for an outcome. Success is an empty 200; a
/// bad request and a missing transfer each get their own status; a gone
/// peer gets a distinct human-readable body per direction, so a client can
/// tell the other party to reconnect; an infrastructure failure is a
/// generic 500 whose body never carries the internal detail — that is for
/// the log alone.
pub fn respond(outcome: &Outcome) -> (r: LambdaWebsocketResponse)
    ensures
        !r.is_base_64_encoded,
        r.headers@.len() == 0,
        match outcome {
            Outcome::Success => r.status_code == 200 && r.body@.len() == 0,
            Outcome::BadRequest => r.status_code == 400 && r.body@ == "Request is invalid"@,
            Outcome::NotFound => r.status_code == 404 && r.body@ == "Transfer not found"@,
            Outcome::PeerGone(d) => r.status_code == 410 && ((d is Sender ==> r.body@
                == sender_gone_text()) && (d is Recipient ==> r.body@ == recipient_gone_text())),
            Outcome::Infrastructure(_) => r.status_code == 500 && r.body@ == "Internal error"@,
        },
{
    match outcome {
        Outcome::Success => LambdaWebsocketResponse::default(),
        Outcome::BadRequest => {
            let text = BadRequestError.message();
            respond_with(400, text.as_str())
        },
        Outcome::NotFound => respond_with(404, "Transfer not found"),
        Outcome::PeerGone(d) => match d {
            PeerDirection::Sender => {
                let text = SenderGoneError.message();
                respond_with(410, text.as_str())
            },
            PeerDirection::Recipient => respond_with(
                410,
                "Recipient is gone. They may have closed their browser window; ask them to reconnect.",
            ),
        },
        Outcome::Infrastructure(_) => respond_with(500, "Internal error"),
    }
}

} // verus!
