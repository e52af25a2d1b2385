use ticket_store::model::StoreError;
use ticket_store::status::Status;
use ticket_store::store::TicketStore;
use ticket_store::ticket::{TicketDraft, TicketId, TicketPatch};
use ticket_store::validation::ValidationError;

fn draft(title: &str, description: &str) -> TicketDraft {
    TicketDraft { title: title.to_string(), description: description.to_string() }
}

fn no_change() -> TicketPatch {
    TicketPatch { title: None, description: None, status: None }
}

#[test]
fn a_new_store_is_empty() {
    let store = TicketStore::new();
    assert_eq!(store.len(), 0);
    assert!(store.get(TicketId::new(0)).is_none());
    assert!(store.get(TicketId::new(1)).is_none());
    assert!(store.get(TicketId::new(u64::MAX)).is_none());
}

#[test]
fn ids_count_up_from_zero() {
    let mut store = TicketStore::new();
    let mut last: Option<TicketId> = None;
    for n in 0..50u64 {
        let id = store.add_ticket(draft("title", "text")).unwrap();
        assert_eq!(id, TicketId::new(n));
        if let Some(before) = last {
            assert!(before.0 < id.0);
        }
        last = Some(id);
    }
    assert_eq!(store.len(), 50);
    for n in 0..50u64 {
        assert_eq!(store.get(TicketId::new(n)).unwrap().id, TicketId::new(n));
    }
    assert!(store.get(TicketId::new(50)).is_none());
}

#[test]
fn get_after_create_shows_the_draft() {
    let mut store = TicketStore::new();
    store.add_ticket(draft("first", "one")).unwrap();
    let id = store.add_ticket(draft("second", "two")).unwrap();
    let ticket = store.get(id).unwrap();
    assert_eq!(ticket.id, TicketId::new(1));
    assert_eq!(ticket.title, "second");
    assert_eq!(ticket.description, "two");
    assert_eq!(ticket.status, Status::ToDo);
}

#[test]
fn a_refused_draft_takes_no_id() {
    let mut store = TicketStore::new();
    assert_eq!(store.add_ticket(draft("", "text")), Err(ValidationError::Empty));
    assert_eq!(store.add_ticket(draft(&"t".repeat(301), "text")), Err(ValidationError::TooLong));
    assert_eq!(store.len(), 0);
    assert!(store.get(TicketId::new(0)).is_none());
    assert_eq!(store.add_ticket(draft(&"t".repeat(300), "")), Ok(TicketId::new(0)));
    assert_eq!(store.len(), 1);
}

#[test]
fn the_description_is_free() {
    let mut store = TicketStore::new();
    let id = store.add_ticket(draft("t", "")).unwrap();
    assert_eq!(store.get(id).unwrap().description, "");
    let long = "d".repeat(5000);
    let id = store.add_ticket(draft("t", &long)).unwrap();
    assert_eq!(store.get(id).unwrap().description, long);
}

#[test]
fn the_empty_patch_changes_nothing() {
    let mut store = TicketStore::new();
    let id = store.add_ticket(draft("title", "text")).unwrap();
    let ticket = store.update(id, no_change()).unwrap();
    assert_eq!(ticket.id, id);
    assert_eq!(ticket.title, "title");
    assert_eq!(ticket.description, "text");
    assert_eq!(ticket.status, Status::ToDo);
    let stored = store.get(id).unwrap();
    assert_eq!(stored.title, "title");
    assert_eq!(stored.description, "text");
    assert_eq!(stored.status, Status::ToDo);
    assert_eq!(store.len(), 1);
}

#[test]
fn a_title_patch_changes_only_the_title() {
    let mut store = TicketStore::new();
    let other = store.add_ticket(draft("other", "untouched")).unwrap();
    let id = store.add_ticket(draft("title", "text")).unwrap();
    store
        .update(id, TicketPatch { title: None, description: None, status: Some(Status::Done) })
        .unwrap();
    let ticket = store
        .update(id, TicketPatch { title: Some("X".to_string()), description: None, status: None })
        .unwrap();
    assert_eq!(ticket.title, "X");
    assert_eq!(ticket.description, "text");
    assert_eq!(ticket.status, Status::Done);
    assert_eq!(ticket.id, id);
    let stored = store.get(id).unwrap();
    assert_eq!(stored.title, "X");
    assert_eq!(stored.description, "text");
    assert_eq!(stored.status, Status::Done);
    let untouched = store.get(other).unwrap();
    assert_eq!(untouched.title, "other");
    assert_eq!(untouched.description, "untouched");
    assert_eq!(untouched.status, Status::ToDo);
}

#[test]
fn each_field_can_be_patched() {
    let mut store = TicketStore::new();
    let id = store.add_ticket(draft("title", "text")).unwrap();
    store
        .update(
            id,
            TicketPatch { title: None, description: Some("new text".to_string()), status: None },
        )
        .unwrap();
    let ticket = store.get(id).unwrap();
    assert_eq!((ticket.title.as_str(), ticket.description.as_str()), ("title", "new text"));
    assert_eq!(ticket.status, Status::ToDo);
    let ticket = store
        .update(
            id,
            TicketPatch {
                title: Some("a".to_string()),
                description: Some("b".to_string()),
                status: Some(Status::InProgress),
            },
        )
        .unwrap();
    assert_eq!((ticket.title.as_str(), ticket.description.as_str()), ("a", "b"));
    assert_eq!(ticket.status, Status::InProgress);
}

#[test]
fn every_status_change_is_allowed() {
    let all = [Status::ToDo, Status::InProgress, Status::Done];
    let mut store = TicketStore::new();
    let id = store.add_ticket(draft("title", "text")).unwrap();
    for from in all {
        for to in all {
            store
                .update(id, TicketPatch { title: None, description: None, status: Some(from) })
                .unwrap();
            let ticket = store
                .update(id, TicketPatch { title: None, description: None, status: Some(to) })
                .unwrap();
            assert_eq!(ticket.status, to);
        }
    }
}

#[test]
fn an_unknown_id_is_not_found() {
    let mut store = TicketStore::new();
    assert_eq!(store.update(TicketId::new(0), no_change()).err(), Some(StoreError::NotFound));
    store.add_ticket(draft("title", "text")).unwrap();
    assert_eq!(store.update(TicketId::new(1), no_change()).err(), Some(StoreError::NotFound));
    assert_eq!(
        store.update(TicketId::new(u64::MAX), no_change()).err(),
        Some(StoreError::NotFound)
    );
    // An unknown id is reported before an unacceptable title.
    let bad = TicketPatch { title: Some(String::new()), description: None, status: None };
    assert_eq!(store.update(TicketId::new(7), bad).err(), Some(StoreError::NotFound));
    assert!(store.get(TicketId::new(1)).is_none());
}

#[test]
fn a_refused_title_leaves_the_ticket_as_it_was() {
    let mut store = TicketStore::new();
    let id = store.add_ticket(draft("title", "text")).unwrap();
    let empty = TicketPatch {
        title: Some(String::new()),
        description: Some("lost".to_string()),
        status: Some(Status::Done),
    };
    assert_eq!(store.update(id, empty).err(), Some(StoreError::Invalid(ValidationError::Empty)));
    let long = TicketPatch { title: Some("t".repeat(301)), description: None, status: None };
    assert_eq!(store.update(id, long).err(), Some(StoreError::Invalid(ValidationError::TooLong)));
    let ticket = store.get(id).unwrap();
    assert_eq!(ticket.title, "title");
    assert_eq!(ticket.description, "text");
    assert_eq!(ticket.status, Status::ToDo);
}

#[test]
fn a_snapshot_does_not_follow_later_updates() {
    let mut store = TicketStore::new();
    let id = store.add_ticket(draft("title", "text")).unwrap();
    let before = store.get(id).unwrap();
    store
        .update(id, TicketPatch { title: Some("new".to_string()), description: None, status: None })
        .unwrap();
    assert_eq!(before.title, "title");
    assert_eq!(store.get(id).unwrap().title, "new");
}

#[test]
fn updates_hand_out_no_ids() {
    let mut store = TicketStore::new();
    let first = store.add_ticket(draft("a", "")).unwrap();
    store.update(first, no_change()).unwrap();
    store
        .update(first, TicketPatch { title: Some("b".to_string()), description: None, status: None })
        .unwrap();
    let _ = store.update(TicketId::new(9), no_change());
    assert_eq!(store.add_ticket(draft("c", "")), Ok(TicketId::new(1)));
}
