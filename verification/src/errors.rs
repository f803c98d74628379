//! The closed taxonomy of outcomes a protocol step can end in.

use vstd::prelude::*;

verus! {

/// The inbound event was malformed or missed a required input.
#[derive(Debug)]
pub struct BadRequestError;

impl BadRequestError {
    /// The text shown to the caller for a malformed request.
    pub fn message(&self) -> (r: String)
        ensures
            r@ == "Request is invalid"@,
    {
        "Request is invalid".to_owned()
    }
}

/// The offering peer's connection was gone when the receiver tried to reach it.
#[derive(Debug)]
pub struct SenderGoneError;

impl SenderGoneError {
    /// The text shown to the receiver when the offerer's connection is gone.
    pub fn message(&self) -> (r: String)
        ensures
            r@ == sender_gone_text(),
    {
        "Sender is gone. Ensure they leave their browser window open as you transfer the file.".to_owned()
    }
}

/// The text surfaced when the offerer's connection is gone.
pub open spec fn sender_gone_text() -> Seq<char> {
    "Sender is gone. Ensure they leave their browser window open as you transfer the file."@
}

/// The text surfaced when a relay target's connection is gone.
pub open spec fn recipient_gone_text() -> Seq<char> {
    "Recipient is gone. They may have closed their browser window; ask them to reconnect."@
}

/// Which peer of the exchange turned out to be gone.
#[derive(Debug, Clone, Copy, PartialEq, Eq, Structural)]
pub enum PeerDirection {
    /// The offering peer, reached while a receiver joins.
    Sender,
    /// The target of a relayed message.
    Recipient,
}

/// Exactly one of these is the result of every protocol step.
#[derive(Debug)]
pub enum Outcome {
    /// The step did what was asked.
    Success,
    /// The inbound event was malformed; nothing was done.
    BadRequest,
    /// No live offer exists under the requested transfer identifier.
    NotFound,
    /// The peer's connection handle no longer corresponds to a live connection.
    PeerGone(PeerDirection),
    /// A store or delivery collaborator failed; the detail is for the log
    /// only and is never surfaced to the caller.
    Infrastructure(String),
}

} // verus!
