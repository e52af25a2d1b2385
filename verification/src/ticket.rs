//! Tickets, the drafts they are created from and the patches that change
//! them, each with its mathematical view.

use vstd::prelude::*;
use crate::status::Status;
use crate::validation::{text_ok, text_verdict, ValidationError};

verus! {

/// The identity of a ticket. Ids are handed out by the store, in order.
#[derive(Debug, Clone, Copy, PartialEq, Eq, Hash, Structural)]
pub struct TicketId(pub u64);

impl View for TicketId {
    type V = nat;

    open spec fn view(&self) -> nat {
        self.0 as nat
    }
}

impl TicketId {
    pub fn new(id: u64) -> (r: TicketId)
        ensures
            r == TicketId(id),
            r@ == id,
    {
        TicketId(id)
    }
}

/// A ticket as the store keeps it.
#[derive(Debug, Clone)]
pub struct Ticket {
    pub id: TicketId,
    pub title: String,
    pub description: String,
    pub status: Status,
}

/// What a ticket is: its number, its two texts and its status.
pub struct TicketView {
    pub id: nat,
    pub title: Seq<char>,
    pub description: Seq<char>,
    pub status: Status,
}

impl TicketView {
    /// A ticket is well formed when its title is non-empty and within the
    /// byte bound. The description is free.
    pub open spec fn wf(self) -> bool {
        text_ok(self.title)
    }
}

impl View for Ticket {
    type V = TicketView;

    open spec fn view(&self) -> TicketView {
        TicketView {
            id: self.id@,
            title: self.title@,
            description: self.description@,
            status: self.status,
        }
    }
}

/// The caller's input to the creation of a ticket. Nothing in it has been
/// checked yet.
#[derive(Debug, Clone)]
pub struct TicketDraft {
    pub title: String,
    pub description: String,
}

/// What a draft is: a title and a description.
pub struct DraftView {
    pub title: Seq<char>,
    pub description: Seq<char>,
}

impl DraftView {
    /// The verdict on the draft: that on its title.
    pub open spec fn verdict(self) -> Result<(), ValidationError> {
        text_verdict(self.title)
    }

    /// Whether a ticket can be made from the draft.
    pub open spec fn ok(self) -> bool {
        self.verdict() is Ok
    }
}

impl View for TicketDraft {
    type V = DraftView;

    open spec fn view(&self) -> DraftView {
        DraftView { title: self.title@, description: self.description@ }
    }
}

/// A partial update: a field that is `None` is left as it is.
#[derive(Debug, Clone)]
pub struct TicketPatch {
    pub title: Option<String>,
    pub description: Option<String>,
    pub status: Option<Status>,
}

/// What a patch is: for each field, the new value if there is one.
pub struct PatchView {
    pub title: Option<Seq<char>>,
    pub description: Option<Seq<char>>,
    pub status: Option<Status>,
}

impl PatchView {
    /// The patch that changes nothing.
    pub open spec fn empty() -> PatchView {
        PatchView { title: None, description: None, status: None }
    }

    /// The verdict on the patch: that on the new title, if it has one.
    pub open spec fn verdict(self) -> Result<(), ValidationError> {
        match self.title {
            Some(title) => text_verdict(title),
            None => Ok(()),
        }
    }

    /// `ticket` with the fields that the patch holds put in place of its own.
    pub open spec fn apply(self, ticket: TicketView) -> TicketView {
        TicketView {
            id: ticket.id,
            title: match self.title {
                Some(title) => title,
                None => ticket.title,
            },
            description: match self.description {
                Some(description) => description,
                None => ticket.description,
            },
            status: match self.status {
                Some(status) => status,
                None => ticket.status,
            },
        }
    }
}

/// The view of an optional text.
pub open spec fn text_view(text: Option<String>) -> Option<Seq<char>> {
    match text {
        Some(t) => Some(t@),
        None => None,
    }
}

impl View for TicketPatch {
    type V = PatchView;

    open spec fn view(&self) -> PatchView {
        PatchView {
            title: text_view(self.title),
            description: text_view(self.description),
            status: self.status,
        }
    }
}

} // verus!
