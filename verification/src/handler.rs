//! What the service answers to each request: the decisions between a
//! request that has been read and the response that will be written. The
//! functions here take the store and plain values; the transport around
//! them holds the lock while one of them runs.

use vstd::prelude::*;
use vstd::string::StringExecFns;
use crate::model::{StoreError, StoreModel};
use crate::status::{parse_status, Status, StatusError};
use crate::store::TicketStore;
use crate::ticket::{
    text_view, DraftView, PatchView, TicketDraft, TicketId, TicketPatch, TicketView,
};
use crate::validation::ValidationError;

verus! {

/// The body of a request to change a ticket, as it comes off the wire: the
/// status is still text.
#[derive(Debug, Clone)]
pub struct UpdateTicketSchema {
    pub title: Option<String>,
    pub description: Option<String>,
    pub status: Option<String>,
}

/// What such a body is: for each field, the new value if there is one.
pub struct SchemaView {
    pub title: Option<Seq<char>>,
    pub description: Option<Seq<char>>,
    pub status: Option<Seq<char>>,
}

impl SchemaView {
    /// Whether the body names no field.
    pub open spec fn is_empty(self) -> bool {
        self.title is None && self.description is None && self.status is None
    }

    /// Whether the status, if the body names one, spells a status.
    pub open spec fn status_ok(self) -> bool {
        self.status matches Some(text) ==> parse_status(text) is Some
    }

    /// The patch that the body asks for, with the status read from its
    /// text.
    pub open spec fn patch(self) -> PatchView {
        PatchView {
            title: self.title,
            description: self.description,
            status: match self.status {
                Some(text) => parse_status(text),
                None => None,
            },
        }
    }
}

impl UpdateTicketSchema {
    /// Whether the body names no field.
    pub fn is_empty(&self) -> (r: bool)
        ensures
            r == self@.is_empty(),
    {
        self.title.is_none() && self.description.is_none() && self.status.is_none()
    }
}

impl View for UpdateTicketSchema {
    type V = SchemaView;

    open spec fn view(&self) -> SchemaView {
        SchemaView {
            title: text_view(self.title),
            description: text_view(self.description),
            status: text_view(self.status),
        }
    }
}

/// The answer to a creation that succeeded.
#[derive(Debug, Clone)]
pub struct TicketCreatedResponse {
    pub id: TicketId,
    pub message: String,
}

/// The answer to a lookup that succeeded.
#[derive(Debug, Clone)]
pub struct TicketGetByIdResponse {
    pub id: TicketId,
    pub title: String,
    pub description: String,
    pub status: String,
}

impl TicketGetByIdResponse {
    /// Whether the response shows `ticket`: its number, its two texts, and
    /// its status by name.
    pub open spec fn shows(self, ticket: TicketView) -> bool {
        &&& self.id@ == ticket.id
        &&& self.title@ == ticket.title
        &&& self.description@ == ticket.description
        &&& self.status@ == ticket.status.name()
    }
}

/// The answer to a change request that succeeded.
#[derive(Debug, Clone, Copy, PartialEq, Eq, Structural)]
pub enum EditOutcome {
    /// The ticket was changed as asked.
    Updated,
    /// The request named no field; the store was not consulted.
    NothingToUpdate,
}

/// Why a request was refused.
#[derive(Debug)]
pub enum ApiError {
    /// No ticket has the id that the request names.
    NotFound,
    /// A field of the request holds a value that a ticket may not take.
    Invalid(ValidationError),
    /// The status in the request spells no status.
    BadStatus(StatusError),
}

/// What a refusal is: its kind, and for an unreadable status its text.
pub enum ApiErrorView {
    NotFound,
    Invalid(ValidationError),
    BadStatus(Seq<char>),
}

impl View for ApiError {
    type V = ApiErrorView;

    open spec fn view(&self) -> ApiErrorView {
        match self {
            ApiError::NotFound => ApiErrorView::NotFound,
            ApiError::Invalid(e) => ApiErrorView::Invalid(*e),
            ApiError::BadStatus(e) => ApiErrorView::BadStatus(e@),
        }
    }
}

impl ApiErrorView {
    /// The HTTP status code that reports the refusal.
    pub open spec fn status_code(self) -> u16 {
        match self {
            ApiErrorView::NotFound => 404,
            ApiErrorView::Invalid(_) => 422,
            ApiErrorView::BadStatus(_) => 400,
        }
    }

    /// The refusal that a store error becomes.
    pub open spec fn of_store(e: StoreError) -> ApiErrorView {
        match e {
            StoreError::NotFound => ApiErrorView::NotFound,
            StoreError::Invalid(v) => ApiErrorView::Invalid(v),
        }
    }
}

impl ApiError {
    /// The HTTP status code that reports the refusal: always one that
    /// blames the client.
    pub fn status_code(&self) -> (code: u16)
        ensures
            code == self@.status_code(),
            400 <= code < 500,
    {
        match self {
            ApiError::NotFound => 404,
            ApiError::Invalid(_) => 422,
            ApiError::BadStatus(_) => 400,
        }
    }
}

impl EditOutcome {
    /// The text that confirms the outcome.
    pub open spec fn spec_message(self) -> Seq<char> {
        match self {
            EditOutcome::Updated => "Succesfull update ticket!"@,
            EditOutcome::NothingToUpdate => "Nothing to update!"@,
        }
    }

    /// The text that confirms the outcome.
    pub fn message(&self) -> (r: &'static str)
        ensures
            r@ == self.spec_message(),
    {
        match self {
            EditOutcome::Updated => "Succesfull update ticket!",
            EditOutcome::NothingToUpdate => "Nothing to update!",
        }
    }
}

/// The text that confirms a creation.
pub open spec fn created_message() -> Seq<char> {
    "Ticket was created!"@
}

/// What a creation request is answered with.
pub open spec fn create_answer(store: StoreModel, draft: DraftView) -> Result<
    nat,
    ApiErrorView,
> {
    match store.create_verdict(draft) {
        Ok(id) => Ok(id),
        Err(e) => Err(ApiErrorView::Invalid(e)),
    }
}

/// Answers a request to create a ticket from `draft`: with the new
/// ticket's id and a confirmation, or with the reason why the draft is
/// refused. The store changes as `TicketStore::add_ticket` says.
pub fn create_ticket(store: &mut TicketStore, draft: TicketDraft) -> (r: Result<
    TicketCreatedResponse,
    ApiError,
>)
    requires
        old(store).wf(),
        old(store)@.next < u64::MAX,
    ensures
        final(store).wf(),
        final(store)@ == old(store)@.create(draft@),
        match r {
            Ok(response) => {
                &&& create_answer(old(store)@, draft@) == Ok::<nat, ApiErrorView>(response.id@)
                &&& response.message@ == created_message()
            },
            Err(e) => create_answer(old(store)@, draft@) == Err::<nat, ApiErrorView>(e@),
        },
{
    match store.add_ticket(draft) {
        Ok(id) => Ok(TicketCreatedResponse { id, message: String::from_str("Ticket was created!") }),
        Err(e) => Err(ApiError::Invalid(e)),
    }
}

/// Answers a request for the ticket with the given id: with its number,
/// title, description and status, or with `NotFound` where there is no
/// such ticket.
pub fn get_ticket_by_id(store: &TicketStore, id: TicketId) -> (r: Result<
    TicketGetByIdResponse,
    ApiError,
>)
    requires
        store.wf(),
    ensures
        match r {
            Ok(response) => store@.get(id@) is Some && response.shows(store@.get(id@)->0),
            Err(e) => store@.get(id@) is None && e@ == ApiErrorView::NotFound,
        },
{
    match store.get(id) {
        Some(ticket) => Ok(
            TicketGetByIdResponse {
                id: ticket.id,
                title: ticket.title.clone(),
                description: ticket.description.clone(),
                status: String::from_str(ticket.status.as_str()),
            },
        ),
        None => Err(ApiError::NotFound),
    }
}

/// Whether a change request with this body reaches the store: it has a
/// body, the body names a field, and its status, if any, can be read.
pub open spec fn edit_reaches_store(body: Option<SchemaView>) -> bool {
    body matches Some(schema) && !schema.is_empty() && schema.status_ok()
}

/// The store after a change request: changed by the body's patch where
/// the request reaches the store, else as it was.
pub open spec fn edit_store(store: StoreModel, id: nat, body: Option<SchemaView>) -> StoreModel {
    if edit_reaches_store(body) {
        store.update(id, body->0.patch())
    } else {
        store
    }
}

/// What a change request is answered with. A missing body and a body that
/// names no field are answered with `NothingToUpdate`, whatever the id. A
/// status that cannot be read is refused before the store is consulted.
/// Otherwise the answer is that of the store's update.
pub open spec fn edit_answer(store: StoreModel, id: nat, body: Option<SchemaView>) -> Result<
    EditOutcome,
    ApiErrorView,
> {
    match body {
        None => Ok(EditOutcome::NothingToUpdate),
        Some(schema) => if schema.is_empty() {
            Ok(EditOutcome::NothingToUpdate)
        } else if !schema.status_ok() {
            Err(ApiErrorView::BadStatus(schema.status->0))
        } else {
            match store.update_verdict(id, schema.patch()) {
                Ok(_) => Ok(EditOutcome::Updated),
                Err(e) => Err(ApiErrorView::of_store(e)),
            }
        },
    }
}

/// Reads the status of a body that names at least one field.
fn to_patch(schema: UpdateTicketSchema) -> (r: Result<TicketPatch, StatusError>)
    ensures
        match r {
            Ok(patch) => schema@.status_ok() && patch@ == schema@.patch(),
            Err(e) => !schema@.status_ok() && e@ == schema@.status->0,
        },
{
    let status = match schema.status {
        None => None,
        Some(text) => match Status::try_from(text) {
            Ok(status) => Some(status),
            Err(e) => {
                return Err(e);
            },
        },
    };
    Ok(TicketPatch { title: schema.title, description: schema.description, status })
}

/// Answers a request to change the ticket with the given id.
pub fn edit_ticket(store: &mut TicketStore, id: TicketId, body: Option<UpdateTicketSchema>) -> (r:
    Result<EditOutcome, ApiError>)
    requires
        old(store).wf(),
    ensures
        final(store).wf(),
        final(store)@ == edit_store(old(store)@, id@, schema_view(body)),
        match r {
            Ok(outcome) => edit_answer(old(store)@, id@, schema_view(body)) == Ok::<
                EditOutcome,
                ApiErrorView,
            >(outcome),
            Err(e) => edit_answer(old(store)@, id@, schema_view(body)) == Err::<
                EditOutcome,
                ApiErrorView,
            >(e@),
        },
{
    let schema = match body {
        None => {
            return Ok(EditOutcome::NothingToUpdate);
        },
        Some(schema) => schema,
    };
    if schema.is_empty() {
        return Ok(EditOutcome::NothingToUpdate);
    }
    let patch = match to_patch(schema) {
        Ok(patch) => patch,
        Err(e) => {
            return Err(ApiError::BadStatus(e));
        },
    };
    match store.update(id, patch) {
        Ok(_) => Ok(EditOutcome::Updated),
        Err(StoreError::NotFound) => Err(ApiError::NotFound),
        Err(StoreError::Invalid(e)) => Err(ApiError::Invalid(e)),
    }
}

/// The view of an optional body.
pub open spec fn schema_view(body: Option<UpdateTicketSchema>) -> Option<SchemaView> {
    match body {
        Some(schema) => Some(schema@),
        None => None,
    }
}

} // verus!
