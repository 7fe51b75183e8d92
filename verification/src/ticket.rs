//! Support tickets: the record a caller submits to be stored verbatim.
//!
//! Ticket persistence itself is a thin wrapper over an external document
//! store and carries no invariants beyond "store what was sent"; the record
//! type lives here so that the handler logic can speak of it.

use vstd::prelude::*;

verus! {

/// One support ticket, exactly as submitted.
#[derive(Clone, Debug)]
pub struct Ticket {
    pub id: String,
    pub title: String,
    pub description: String,
}

impl Ticket {
    /// Builds a ticket from its three fields, unchanged.
    pub fn new(id: String, title: String, description: String) -> (ticket: Ticket)
        ensures
            ticket.id == id,
            ticket.title == title,
            ticket.description == description,
    {
        Ticket { id, title, description }
    }
}

} // verus!
