//! Classifying an inbound transport event into a protocol command.
//!
//! The transport hands over a route indicator, the requesting peer's
//! connection handle, the query parameters, and the decoded fields of a
//! body if one was present. Classification turns that into exactly one
//! [`Command`] or rejects the event as a bad request, with no side effect
//! either way.

use vstd::prelude::*;
use crate::errors::BadRequestError;
use crate::lookup::{assoc_first, assoc_lookup};
use crate::message::{message_in_of, MessageFields, MessageIn};
use crate::strutil::str_eq;

verus! {

/// The closed set of routes the transport can indicate.
#[derive(Debug, Clone, Copy, PartialEq, Eq, Structural)]
pub enum Route {
    /// A peer opened its connection.
    Connect,
    /// A peer closed its connection.
    Disconnect,
    /// A peer asks for a message to be relayed.
    SendMessage,
}

/// The route a route indicator names, if any.
pub open spec fn route_of(route: Option<String>) -> Option<Route> {
    match route {
        Some(s) => if s@ == "$connect"@ {
            Some(Route::Connect)
        } else if s@ == "$disconnect"@ {
            Some(Route::Disconnect)
        } else if s@ == "SEND_MESSAGE"@ {
            Some(Route::SendMessage)
        } else {
            None
        },
        None => None,
    }
}

/// Reads the transport's route indicator; an unrecognized or absent one is
/// a bad request.
pub fn parse_route(route: &Option<String>) -> (r: Result<Route, BadRequestError>)
    ensures
        match r {
            Ok(rt) => route_of(*route) == Some(rt),
            Err(_) => route_of(*route) is None,
        },
{
    match route {
        Some(s) => if str_eq(s.as_str(), "$connect") {
            Ok(Route::Connect)
        } else if str_eq(s.as_str(), "$disconnect") {
            Ok(Route::Disconnect)
        } else if str_eq(s.as_str(), "SEND_MESSAGE") {
            Ok(Route::SendMessage)
        } else {
            Err(BadRequestError)
        },
        None => Err(BadRequestError),
    }
}

/// The part a connecting peer plays in a transfer.
#[derive(Debug, Clone, Copy, PartialEq, Eq, Structural)]
pub enum Role {
    /// The peer that initiates the transfer and registers the offer.
    Offerer,
    /// The peer that joins the transfer through the offer.
    Receiver,
}

/// The role a query-parameter value names: exactly `offerer` or `receiver`,
/// case-sensitive.
pub open spec fn role_of(s: Seq<char>) -> Option<Role> {
    if s == "offerer"@ {
        Some(Role::Offerer)
    } else if s == "receiver"@ {
        Some(Role::Receiver)
    } else {
        None
    }
}

impl Role {
    /// Reads a `role` query-parameter value; anything but the two
    /// recognized values fails.
    pub fn from_str(input: &str) -> (r: Result<Role, ()>)
        ensures
            match r {
                Ok(role) => role_of(input@) == Some(role),
                Err(_) => role_of(input@) is None,
            },
    {
        if str_eq(input, "offerer") {
            Ok(Role::Offerer)
        } else if str_eq(input, "receiver") {
            Ok(Role::Receiver)
        } else {
            Err(())
        }
    }
}

/// A validated connect request: who is connecting, and to which transfer.
#[derive(Debug)]
pub struct ConnectRequest {
    pub transfer_id: String,
    pub role: Role,
}

/// The role and transfer identifier the query parameters of a connect event
/// hold, if both are present and the role is recognized.
pub open spec fn connect_request_of(query: Seq<(String, String)>) -> Option<(Role, Seq<char>)> {
    match assoc_lookup(query, "transfer_id"@) {
        Some(t) => match assoc_lookup(query, "role"@) {
            Some(role_text) => match role_of(role_text@) {
                Some(role) => Some((role, t@)),
                None => None,
            },
            None => None,
        },
        None => None,
    }
}

impl ConnectRequest {
    /// Reads the `transfer_id` and `role` query parameters of a connect
    /// event; either one missing, or an unrecognized role value, fails.
    pub fn try_from(query: &Vec<(String, String)>) -> (r: Result<ConnectRequest, ()>)
        ensures
            match r {
                Ok(c) => connect_request_of(query@) == Some((c.role, c.transfer_id@)),
                Err(_) => connect_request_of(query@) is None,
            },
    {
        let transfer_id: String = match assoc_first(query, "transfer_id") {
            Some(t) => t.clone(),
            None => {
                return Err(());
            },
        };
        let role_text: &String = match assoc_first(query, "role") {
            Some(x) => x,
            None => {
                return Err(());
            },
        };
        let role: Role = match Role::from_str(role_text.as_str()) {
            Ok(role) => role,
            Err(_) => {
                return Err(());
            },
        };
        Ok(ConnectRequest { transfer_id, role })
    }
}

/// An inbound event as the transport hands it over.
#[derive(Debug)]
pub struct InboundEvent {
    /// The route indicator, when the transport supplied one.
    pub route: Option<String>,
    /// The connection handle the transport assigned to the requesting peer.
    pub connection_handle: Option<String>,
    /// The query parameters, in order of appearance.
    pub query: Vec<(String, String)>,
    /// The fields of the body, when the event carried one that decoded as
    /// an object.
    pub body: Option<MessageFields>,
}

/// Exactly one of these is what a well-formed inbound event asks for.
#[derive(Debug)]
pub enum Command {
    /// Register or join a transfer, depending on the role.
    Connect { role: Role, transfer_id: String, connection_handle: String },
    /// Tear down a connection; deliberately a no-op, offers expire passively.
    Disconnect,
    /// Forward an opaque message to another live connection.
    Relay { sender: String, recipient: String, body: String },
}

/// The mathematical value of a command.
pub enum CommandView {
    Connect { role: Role, transfer_id: Seq<char>, connection_handle: Seq<char> },
    Disconnect,
    Relay { sender: Seq<char>, recipient: Seq<char>, body: Seq<char> },
}

impl View for Command {
    type V = CommandView;

    open spec fn view(&self) -> CommandView {
        match self {
            Command::Connect { role, transfer_id, connection_handle } => CommandView::Connect {
                role: *role,
                transfer_id: transfer_id@,
                connection_handle: connection_handle@,
            },
            Command::Disconnect => CommandView::Disconnect,
            Command::Relay { sender, recipient, body } => CommandView::Relay {
                sender: sender@,
                recipient: recipient@,
                body: body@,
            },
        }
    }
}

/// The command an inbound event asks for, if it is well-formed: a known
/// route; for a connect, a connection handle and valid query parameters;
/// for a message send, a connection handle and a complete body.
pub open spec fn classify_spec(e: InboundEvent) -> Option<CommandView> {
    match route_of(e.route) {
        None => None,
        Some(Route::Connect) => match e.connection_handle {
            Some(h) => match connect_request_of(e.query@) {
                Some((role, transfer_id)) => Some(
                    CommandView::Connect { role, transfer_id, connection_handle: h@ },
                ),
                None => None,
            },
            None => None,
        },
        Some(Route::Disconnect) => Some(CommandView::Disconnect),
        Some(Route::SendMessage) => match e.connection_handle {
            Some(h) => match message_in_of(e.body) {
                Some((action, recipient, body)) => Some(
                    CommandView::Relay { sender: h@, recipient, body },
                ),
                None => None,
            },
            None => None,
        },
    }
}

/// Parses and validates an inbound event into the command it asks for.
/// Fails with a bad request exactly when [`classify_spec`] has nothing for
/// it; classification has no side effect.
pub fn classify(event: InboundEvent) -> (r: Result<Command, BadRequestError>)
    ensures
        match r {
            Ok(c) => classify_spec(event) == Some(c@),
            Err(_) => classify_spec(event) is None,
        },
{
    let InboundEvent { route, connection_handle, query, body } = event;
    let route_kind: Route = match parse_route(&route) {
        Ok(rt) => rt,
        Err(e) => {
            return Err(e);
        },
    };
    match route_kind {
        Route::Disconnect => Ok(Command::Disconnect),
        Route::Connect => {
            let handle: String = match connection_handle {
                Some(h) => h,
                None => {
                    return Err(BadRequestError);
                },
            };
            let req: ConnectRequest = match ConnectRequest::try_from(&query) {
                Ok(c) => c,
                Err(_) => {
                    return Err(BadRequestError);
                },
            };
            Ok(Command::Connect {
                role: req.role,
                transfer_id: req.transfer_id,
                connection_handle: handle,
            })
        },
        Route::SendMessage => {
            let handle: String = match connection_handle {
                Some(h) => h,
                None => {
                    return Err(BadRequestError);
                },
            };
            let m: MessageIn = match MessageIn::from_fields(body) {
                Ok(m) => m,
                Err(e) => {
                    return Err(e);
                },
            };
            Ok(Command::Relay { sender: handle, recipient: m.recipient, body: m.body })
        },
    }
}

} // verus!
