//! Request-handler decisions: what each endpoint answers, as plain logic.
//!
//! The HTTP layer around the library parses the request, hands the parsed
//! values in, and renders the decision made here back into a response. The
//! functions in this module hold the whole of each handler's logic; only
//! parsing, storage and network I/O stay outside.

use vstd::prelude::*;
use crate::ticket::Ticket;

verus! {

/// What the ticket-creation endpoint decided: store the submitted ticket
/// and answer "created", or reject an unparseable request.
#[derive(Clone, Debug)]
pub enum CreateTicketAction {
    Store(Ticket),
    Reject,
}

impl CreateTicketAction {
    /// The HTTP status the decision is answered with: "created" when the
    /// ticket is stored, "bad request" when the payload was rejected.
    pub fn status_code(&self) -> (code: u16)
        ensures
            self is Store ==> code == 201,
            self is Reject ==> code == 400,
    {
        match self {
            CreateTicketAction::Store(..) => 201,
            CreateTicketAction::Reject => 400,
        }
    }

    /// The response body that accompanies the decision.
    pub fn response_message(&self) -> (message: &'static str)
        ensures
            self is Store ==> message@ == "Ticket created!"@,
            self is Reject ==> message@ == "Invalid JSON payload"@,
    {
        match self {
            CreateTicketAction::Store(..) => "Ticket created!",
            CreateTicketAction::Reject => "Invalid JSON payload",
        }
    }
}

/// Decides the ticket-creation endpoint: a ticket that parsed is stored as
/// sent; a request whose body did not parse is rejected, and nothing is
/// stored for it.
pub fn create_ticket(payload: Option<Ticket>) -> (action: CreateTicketAction)
    ensures
        payload matches Some(ticket) ==> action == CreateTicketAction::Store(ticket),
        payload is None ==> action is Reject,
{
    match payload {
        Some(ticket) => CreateTicketAction::Store(ticket),
        None => CreateTicketAction::Reject,
    }
}

/// The catalog file each known event is served from, by event identifier;
/// an unknown identifier has no file and is answered "not found".
pub fn event_file_name(event_id: u64) -> (name: Option<&'static str>)
    ensures
        event_id == 1 ==> (name matches Some(n) && n@ == "getEvent1.json"@),
        event_id == 2 ==> (name matches Some(n) && n@ == "getEvent2.json"@),
        event_id == 3 ==> (name matches Some(n) && n@ == "getEvent3.json"@),
        (event_id == 0 || event_id > 3) ==> name is None,
{
    match event_id {
        1 => Some("getEvent1.json"),
        2 => Some("getEvent2.json"),
        3 => Some("getEvent3.json"),
        _ => None,
    }
}

} // verus!
