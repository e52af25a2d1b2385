//! The ticket store: the one owner of all tickets and of the counter that
//! numbers them.

use std::collections::HashMap;
use std::sync::Arc;
use vstd::prelude::*;
use crate::model::{StoreError, StoreModel};
use crate::status::Status;
use crate::ticket::{Ticket, TicketDraft, TicketId, TicketPatch, TicketView};
use crate::validation::{check_text, ValidationError};

verus! {

/// An in-memory collection of tickets. Every method takes the store by
/// reference, `&mut` where it changes it, so calls on one store never
/// overlap: each sees the store as the one before left it.
#[derive(Debug, Clone)]
pub struct TicketStore {
    tickets: HashMap<u64, Arc<Ticket>>,
    counter: u64,
}

/// The view of an optional shared ticket.
pub open spec fn ticket_view(ticket: Option<Arc<Ticket>>) -> Option<TicketView> {
    match ticket {
        Some(t) => Some(t@),
        None => None,
    }
}

impl View for TicketStore {
    type V = StoreModel;

    closed spec fn view(&self) -> StoreModel {
        StoreModel {
            tickets: Map::new(
                |id: nat| id <= u64::MAX && self.tickets@.contains_key(id as u64),
                |id: nat| self.tickets@[id as u64]@,
            ),
            next: self.counter as nat,
        }
    }
}

impl TicketStore {
    /// The invariant of the store: that of the state it stands for. `new`
    /// establishes it and every method keeps it.
    pub open spec fn wf(&self) -> bool {
        self@.wf()
    }

    /// A store with no ticket in it.
    pub fn new() -> (store: TicketStore)
        ensures
            store.wf(),
            store@ == StoreModel::empty(),
    {
        let store = TicketStore { tickets: HashMap::new(), counter: 0 };
        assert(store@.tickets =~= Map::<nat, TicketView>::empty());
        store
    }

    /// The number of tickets in the store, which is also the number that
    /// the next ticket will get.
    pub fn len(&self) -> (n: u64)
        ensures
            n == self@.next,
    {
        self.counter
    }

    /// The ticket with the given id, if there is one, as a snapshot that
    /// later updates do not change.
    pub fn get(&self, id: TicketId) -> (r: Option<Arc<Ticket>>)
        requires
            self.wf(),
        ensures
            ticket_view(r) == self@.get(id@),
    {
        match self.tickets.get(&id.0) {
            Some(ticket) => Some(ticket.clone()),
            None => None,
        }
    }
    /// Creates a ticket from `draft`: it gets the next number, the draft's
    /// title and description, and the status `ToDo`. A draft whose title is
    /// empty or too long is refused and the store stays as it was.
    ///
    /// The counter is a `u64`: the store must not have handed out all of
    /// them yet.
    pub fn add_ticket(&mut self, draft: TicketDraft) -> (r: Result<TicketId, ValidationError>)
        requires
            old(self).wf(),
            old(self)@.next < u64::MAX,
        ensures
            final(self).wf(),
            final(self)@ == old(self)@.create(draft@),
            match r {
                Ok(id) => old(self)@.create_verdict(draft@) == Ok::<nat, ValidationError>(id@),
                Err(e) => old(self)@.create_verdict(draft@) == Err::<nat, ValidationError>(e),
            },
    {
        match check_text(draft.title.as_str()) {
            Err(e) => Err(e),
            Ok(()) => {
                let id = TicketId(self.counter);
                let ticket = Ticket {
                    id,
                    title: draft.title,
                    description: draft.description,
                    status: Status::ToDo,
                };
                self.tickets.insert(id.0, Arc::new(ticket));
                self.counter = self.counter + 1;
                proof {
                    old(self)@.lemma_create_wf(draft@);
                    assert(self@.tickets =~= old(self)@.create(draft@).tickets);
                }
                Ok(id)
            },
        }
    }

    /// Changes the ticket with the given id: each field that `patch` holds
    /// takes the patch's value, the others stay. Answers with a snapshot of
    /// the ticket as changed. An unknown id, or a new title that is empty
    /// or too long, is refused and the store stays as it was.
    pub fn update(&mut self, id: TicketId, patch: TicketPatch) -> (r: Result<
        Arc<Ticket>,
        StoreError,
    >)
        requires
            old(self).wf(),
        ensures
            final(self).wf(),
            final(self)@ == old(self)@.update(id@, patch@),
            match r {
                Ok(ticket) => old(self)@.update_verdict(id@, patch@) == Ok::<
                    TicketView,
                    StoreError,
                >(ticket@),
                Err(e) => old(self)@.update_verdict(id@, patch@) == Err::<TicketView, StoreError>(
                    e,
                ),
            },
    {
        let current = match self.tickets.get(&id.0) {
            Some(ticket) => ticket,
            None => {
                return Err(StoreError::NotFound);
            },
        };
        let title = match patch.title {
            Some(title) => {
                match check_text(title.as_str()) {
                    Err(e) => {
                        return Err(StoreError::Invalid(e));
                    },
                    Ok(()) => title,
                }
            },
            None => current.title.clone(),
        };
        let description = match patch.description {
            Some(description) => description,
            None => current.description.clone(),
        };
        let status = match patch.status {
            Some(status) => status,
            None => current.status,
        };
        let ticket = Arc::new(Ticket { id: current.id, title, description, status });
        let snapshot = ticket.clone();
        self.tickets.insert(id.0, ticket);
        proof {
            old(self)@.lemma_update_wf(id@, patch@);
            assert(self@.tickets =~= old(self)@.update(id@, patch@).tickets);
        }
        Ok(snapshot)
    }
}

} // verus!
