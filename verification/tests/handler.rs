use ticket_store::handler::{
    create_ticket, edit_ticket, get_ticket_by_id, ApiError, EditOutcome, UpdateTicketSchema,
};
use ticket_store::store::TicketStore;
use ticket_store::ticket::{TicketDraft, TicketId};
use ticket_store::validation::ValidationError;

fn test_draft() -> TicketDraft {
    TicketDraft { title: String::from("test"), description: String::from("test") }
}

fn body(title: Option<&str>, description: Option<&str>, status: Option<&str>) -> UpdateTicketSchema {
    UpdateTicketSchema {
        title: title.map(String::from),
        description: description.map(String::from),
        status: status.map(String::from),
    }
}

#[test]
fn test_create_ticket() {
    let mut store = TicketStore::new();
    let resp = create_ticket(&mut store, test_draft()).unwrap();
    assert_eq!(resp.id, TicketId::new(0));
    assert_eq!(resp.message, "Ticket was created!");
}

#[test]
fn test_retrieve_ticket() {
    let mut store = TicketStore::new();
    store.add_ticket(test_draft()).unwrap();
    let body = get_ticket_by_id(&store, TicketId::new(0)).unwrap();
    assert_eq!(body.id, TicketId::new(0));
    assert_eq!(body.title, "test".to_string());
    assert_eq!(body.description, "test".to_string());
    assert_eq!(body.status, "ToDo".to_string());
}

#[test]
fn test_patch_ticket() {
    let mut store = TicketStore::new();
    store.add_ticket(test_draft()).unwrap();

    let resp = edit_ticket(&mut store, TicketId::new(0), Some(body(None, None, None)));
    assert!(resp.is_ok());

    let req_body = body(Some("THE"), Some("most powerful programming language."), None);
    let resp = edit_ticket(&mut store, TicketId::new(0), Some(req_body)).unwrap();
    assert_eq!(resp.message(), "Succesfull update ticket!");

    let resp = get_ticket_by_id(&store, TicketId::new(0)).unwrap();
    assert_eq!(resp.title, "THE".to_string());
    assert_eq!(resp.description, "most powerful programming language.".to_string());
    assert_eq!(resp.status, "ToDo".to_string());
}

#[test]
fn a_request_without_fields_does_not_reach_the_store() {
    let mut store = TicketStore::new();
    store.add_ticket(test_draft()).unwrap();
    let resp = edit_ticket(&mut store, TicketId::new(0), None).unwrap();
    assert_eq!(resp, EditOutcome::NothingToUpdate);
    assert_eq!(resp.message(), "Nothing to update!");
    let resp = edit_ticket(&mut store, TicketId::new(0), Some(body(None, None, None))).unwrap();
    assert_eq!(resp, EditOutcome::NothingToUpdate);
    // The id is not looked up either.
    let resp = edit_ticket(&mut store, TicketId::new(5), None).unwrap();
    assert_eq!(resp, EditOutcome::NothingToUpdate);
    let resp = edit_ticket(&mut store, TicketId::new(5), Some(body(None, None, None))).unwrap();
    assert_eq!(resp, EditOutcome::NothingToUpdate);
    let ticket = get_ticket_by_id(&store, TicketId::new(0)).unwrap();
    assert_eq!((ticket.title.as_str(), ticket.description.as_str()), ("test", "test"));
}

#[test]
fn a_status_in_the_body_is_read_and_applied() {
    let mut store = TicketStore::new();
    store.add_ticket(test_draft()).unwrap();
    let resp = edit_ticket(&mut store, TicketId::new(0), Some(body(None, None, Some("inPROGRESS"))));
    assert_eq!(resp.unwrap(), EditOutcome::Updated);
    let ticket = get_ticket_by_id(&store, TicketId::new(0)).unwrap();
    assert_eq!(ticket.status, "InProgress");
    assert_eq!(ticket.title, "test");
    let resp = edit_ticket(&mut store, TicketId::new(0), Some(body(None, None, Some("done"))));
    assert_eq!(resp.unwrap(), EditOutcome::Updated);
    assert_eq!(get_ticket_by_id(&store, TicketId::new(0)).unwrap().status, "Done");
}

#[test]
fn an_unreadable_status_is_refused_before_the_store_is_consulted() {
    let mut store = TicketStore::new();
    store.add_ticket(test_draft()).unwrap();
    let req = body(Some("changed"), None, Some("Invalid"));
    match edit_ticket(&mut store, TicketId::new(0), Some(req)) {
        Err(ApiError::BadStatus(e)) => {
            assert_eq!(e.text(), "Invalid");
            assert_eq!(ApiError::BadStatus(e).status_code(), 400);
        }
        other => panic!("unexpected answer: {:?}", other),
    }
    assert_eq!(get_ticket_by_id(&store, TicketId::new(0)).unwrap().title, "test");
    // Also for an id that leads nowhere.
    let req = body(None, None, Some("Invalid"));
    assert!(matches!(
        edit_ticket(&mut store, TicketId::new(3), Some(req)),
        Err(ApiError::BadStatus(_))
    ));
}

#[test]
fn an_unknown_id_is_answered_with_not_found() {
    let mut store = TicketStore::new();
    let err = get_ticket_by_id(&store, TicketId::new(0)).unwrap_err();
    assert!(matches!(err, ApiError::NotFound));
    assert_eq!(err.status_code(), 404);
    store.add_ticket(test_draft()).unwrap();
    assert!(matches!(get_ticket_by_id(&store, TicketId::new(1)), Err(ApiError::NotFound)));
    let err = edit_ticket(&mut store, TicketId::new(1), Some(body(Some("x"), None, None)));
    assert!(matches!(err, Err(ApiError::NotFound)));
}

#[test]
fn an_unacceptable_title_is_answered_with_a_client_error() {
    let mut store = TicketStore::new();
    let err = create_ticket(
        &mut store,
        TicketDraft { title: String::new(), description: String::from("test") },
    )
    .unwrap_err();
    assert!(matches!(err, ApiError::Invalid(ValidationError::Empty)));
    assert_eq!(err.status_code(), 422);
    assert_eq!(store.len(), 0);
    store.add_ticket(test_draft()).unwrap();
    let long = "t".repeat(301);
    let err = edit_ticket(&mut store, TicketId::new(0), Some(body(Some(&long), None, None)));
    assert!(matches!(err, Err(ApiError::Invalid(ValidationError::TooLong))));
    assert_eq!(get_ticket_by_id(&store, TicketId::new(0)).unwrap().title, "test");
}

#[test]
fn creations_through_the_handler_number_the_tickets() {
    let mut store = TicketStore::new();
    for n in 0..10u64 {
        let resp = create_ticket(&mut store, test_draft()).unwrap();
        assert_eq!(resp.id, TicketId::new(n));
    }
    assert_eq!(store.len(), 10);
}
