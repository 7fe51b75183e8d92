use ticketing::handler::{create_ticket, event_file_name, CreateTicketAction};
use ticketing::ticket::Ticket;

#[test]
fn ticket_keeps_its_fields_as_sent() {
    let ticket = Ticket::new(
        String::from("t-1"),
        String::from("Broken link"),
        String::from("The confirmation link does not open."),
    );
    assert_eq!(ticket.id, "t-1");
    assert_eq!(ticket.title, "Broken link");
    assert_eq!(ticket.description, "The confirmation link does not open.");
}

#[test]
fn parsed_ticket_is_stored_and_answered_created() {
    let ticket = Ticket::new(
        String::from("t-2"),
        String::from("Refund"),
        String::from("Please refund seat 12."),
    );
    let action = create_ticket(Some(ticket));
    match &action {
        CreateTicketAction::Store(stored) => {
            assert_eq!(stored.id, "t-2");
            assert_eq!(stored.title, "Refund");
            assert_eq!(stored.description, "Please refund seat 12.");
        }
        CreateTicketAction::Reject => panic!("a parsed ticket must be stored"),
    }
    assert_eq!(action.status_code(), 201);
    assert_eq!(action.response_message(), "Ticket created!");
}

#[test]
fn unparseable_payload_is_rejected() {
    let action = create_ticket(None);
    assert!(matches!(action, CreateTicketAction::Reject));
    assert_eq!(action.status_code(), 400);
    assert_eq!(action.response_message(), "Invalid JSON payload");
}

#[test]
fn known_events_map_to_their_catalog_files() {
    assert_eq!(event_file_name(1), Some("getEvent1.json"));
    assert_eq!(event_file_name(2), Some("getEvent2.json"));
    assert_eq!(event_file_name(3), Some("getEvent3.json"));
}

#[test]
fn unknown_events_have_no_catalog_file() {
    assert_eq!(event_file_name(0), None);
    assert_eq!(event_file_name(4), None);
    assert_eq!(event_file_name(u64::MAX), None);
}
