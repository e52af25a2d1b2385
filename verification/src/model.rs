//! The ticket store as a mathematical object: a finite map from ticket
//! numbers to tickets together with the next number to hand out, the
//! operations on it, and what holds of them.

use vstd::prelude::*;
use crate::status::Status;
use crate::ticket::{DraftView, PatchView, TicketView};
use crate::validation::{text_ok, ValidationError};

verus! {

/// Why the store refused an update.
#[derive(Debug, Clone, Copy, PartialEq, Eq, Structural)]
pub enum StoreError {
    /// No ticket has the given id.
    NotFound,
    /// The patch holds a value that the ticket may not take.
    Invalid(ValidationError),
}

/// The state of a store.
pub struct StoreModel {
    /// The tickets, by number.
    pub tickets: Map<nat, TicketView>,
    /// The number that the next ticket will get.
    pub next: nat,
}

/// One state-changing call on a store.
pub enum Call {
    Create(DraftView),
    Update(nat, PatchView),
}

impl StoreModel {
    /// The store that holds no ticket and has handed out no number.
    pub open spec fn empty() -> StoreModel {
        StoreModel { tickets: Map::empty(), next: 0 }
    }

    /// The tickets are exactly those numbered below `next`, each is filed
    /// under its own number, and each is well formed.
    pub open spec fn wf(self) -> bool {
        &&& forall|id: nat| #[trigger] self.tickets.contains_key(id) <==> id < self.next
        &&& forall|id: nat| #[trigger]
            self.tickets.contains_key(id) ==> self.tickets[id].id == id && self.tickets[id].wf()
    }

    /// The ticket numbered `id`, if there is one.
    pub open spec fn get(self, id: nat) -> Option<TicketView> {
        if self.tickets.contains_key(id) {
            Some(self.tickets[id])
        } else {
            None
        }
    }

    /// The ticket that creation makes from `draft`.
    pub open spec fn fresh(self, draft: DraftView) -> TicketView {
        TicketView {
            id: self.next,
            title: draft.title,
            description: draft.description,
            status: Status::ToDo,
        }
    }

    /// What creation from `draft` answers: the new ticket's number, or why
    /// the draft was refused.
    pub open spec fn create_verdict(self, draft: DraftView) -> Result<nat, ValidationError> {
        match draft.verdict() {
            Ok(()) => Ok(self.next),
            Err(e) => Err(e),
        }
    }

    /// The store after creation from `draft`: with the new ticket filed
    /// under `next` and `next` moved on by one, or, where the draft is
    /// refused, as it was.
    pub open spec fn create(self, draft: DraftView) -> StoreModel {
        if draft.ok() {
            StoreModel {
                tickets: self.tickets.insert(self.next, self.fresh(draft)),
                next: self.next + 1,
            }
        } else {
            self
        }
    }

    /// What an update of ticket `id` by `patch` answers: the ticket as
    /// patched, or why the update was refused. An unknown id is reported
    /// before an invalid patch.
    pub open spec fn update_verdict(self, id: nat, patch: PatchView) -> Result<
        TicketView,
        StoreError,
    > {
        match self.get(id) {
            None => Err(StoreError::NotFound),
            Some(ticket) => match patch.verdict() {
                Err(e) => Err(StoreError::Invalid(e)),
                Ok(()) => Ok(patch.apply(ticket)),
            },
        }
    }

    /// The store after an update of ticket `id` by `patch`: with the
    /// patched ticket in place of the old one, or, where the update is
    /// refused, as it was.
    pub open spec fn update(self, id: nat, patch: PatchView) -> StoreModel {
        match self.update_verdict(id, patch) {
            Ok(ticket) => StoreModel { tickets: self.tickets.insert(id, ticket), next: self.next },
            Err(_) => self,
        }
    }

    /// The store after `call`.
    pub open spec fn step(self, call: Call) -> StoreModel {
        match call {
            Call::Create(draft) => self.create(draft),
            Call::Update(id, patch) => self.update(id, patch),
        }
    }

    /// The store after `calls`, made one after the other.
    pub open spec fn after(self, calls: Seq<Call>) -> StoreModel
        decreases calls.len(),
    {
        if calls.len() == 0 {
            self
        } else {
            self.after(calls.drop_last()).step(calls.last())
        }
    }

    /// The numbers that the creations among `calls` were answered with, in
    /// the order of the calls.
    pub open spec fn issued(self, calls: Seq<Call>) -> Seq<nat>
        decreases calls.len(),
    {
        if calls.len() == 0 {
            Seq::empty()
        } else {
            let earlier = self.issued(calls.drop_last());
            match calls.last() {
                Call::Create(draft) => if draft.ok() {
                    earlier.push(self.after(calls.drop_last()).next)
                } else {
                    earlier
                },
                Call::Update(_, _) => earlier,
            }
        }
    }

    /// Creation keeps a store well formed.
    pub proof fn lemma_create_wf(self, draft: DraftView)
        requires
            self.wf(),
        ensures
            self.create(draft).wf(),
    {
    }

    /// An update keeps a store well formed.
    pub proof fn lemma_update_wf(self, id: nat, patch: PatchView)
        requires
            self.wf(),
        ensures
            self.update(id, patch).wf(),
    {
    }

    /// Right after a creation that answered with a number, that number
    /// leads to a ticket with the draft's title and description, in status
    /// `ToDo`.
    pub proof fn lemma_get_after_create(self, draft: DraftView)
        requires
            self.wf(),
            draft.ok(),
        ensures
            self.create_verdict(draft) == Ok::<nat, ValidationError>(self.next),
            self.create(draft).get(self.next) == Some(
                TicketView {
                    id: self.next,
                    title: draft.title,
                    description: draft.description,
                    status: Status::ToDo,
                },
            ),
    {
    }

    /// Creation changes no ticket that was there before.
    pub proof fn lemma_create_keeps_others(self, draft: DraftView, id: nat)
        requires
            self.wf(),
            id != self.next,
        ensures
            self.create(draft).get(id) == self.get(id),
    {
    }

    /// An update by the empty patch succeeds on every known id, answers
    /// with the ticket as it is, and leaves the store as it was.
    pub proof fn lemma_update_empty_patch(self, id: nat)
        requires
            self.wf(),
            self.get(id) is Some,
        ensures
            self.update_verdict(id, PatchView::empty()) == Ok::<TicketView, StoreError>(
                self.get(id)->0,
            ),
            self.update(id, PatchView::empty()) == self,
    {
        assert(self.update(id, PatchView::empty()).tickets =~= self.tickets);
    }

    /// An update that holds only a title succeeds on every known id when
    /// the title is acceptable, and then changes the title and nothing
    /// else: not the ticket's number, description or status.
    pub proof fn lemma_update_title_only(self, id: nat, title: Seq<char>)
        requires
            self.wf(),
            self.get(id) is Some,
            text_ok(title),
        ensures
            ({
                let patch = PatchView { title: Some(title), description: None, status: None };
                let before = self.get(id)->0;
                let expected = TicketView {
                    id: before.id,
                    title: title,
                    description: before.description,
                    status: before.status,
                };
                &&& self.update_verdict(id, patch) == Ok::<TicketView, StoreError>(expected)
                &&& self.update(id, patch).get(id) == Some(expected)
            }),
    {
    }

    /// An update changes no ticket but the one it names, and hands out no
    /// number.
    pub proof fn lemma_update_keeps_others(self, id: nat, patch: PatchView, other: nat)
        requires
            other != id,
        ensures
            self.update(id, patch).get(other) == self.get(other),
            self.update(id, patch).next == self.next,
    {
    }

    /// An id that was never handed out leads to no ticket. In particular
    /// no id leads to a ticket in the empty store.
    pub proof fn lemma_get_unissued(self, id: nat)
        requires
            self.wf(),
            id >= self.next,
        ensures
            self.get(id) is None,
            StoreModel::empty().get(id) is None,
    {
    }

    /// No call removes a ticket or gives it another number.
    pub proof fn lemma_tickets_persist(self, call: Call, id: nat)
        requires
            self.wf(),
            self.get(id) is Some,
        ensures
            self.step(call).get(id) is Some,
            self.step(call).get(id)->0.id == id,
    {
    }

    /// Whatever calls are made on a well-formed store, it stays well
    /// formed, and the creations among them are answered with consecutive
    /// numbers, starting at the store's `next`.
    pub proof fn lemma_issued_consecutive(self, calls: Seq<Call>)
        requires
            self.wf(),
        ensures
            self.after(calls).wf(),
            self.after(calls).next == self.next + self.issued(calls).len(),
            forall|i: int|
                0 <= i < self.issued(calls).len() ==> #[trigger] self.issued(calls)[i] == self.next
                    + i,
        decreases calls.len(),
    {
        if calls.len() > 0 {
            let before = self.after(calls.drop_last());
            self.lemma_issued_consecutive(calls.drop_last());
            match calls.last() {
                Call::Create(draft) => before.lemma_create_wf(draft),
                Call::Update(id, patch) => before.lemma_update_wf(id, patch),
            }
        }
    }

    /// The numbers that creations are answered with are strictly
    /// increasing in the order of the calls, so no two are the same.
    pub proof fn lemma_issued_increasing(self, calls: Seq<Call>)
        requires
            self.wf(),
        ensures
            forall|i: int, j: int|
                0 <= i < j < self.issued(calls).len() ==> self.issued(calls)[i] < self.issued(
                    calls,
                )[j],
            self.issued(calls).no_duplicates(),
    {
        self.lemma_issued_consecutive(calls);
    }

    /// After any calls on the empty store, an id leads to a ticket exactly
    /// if one of the creations was answered with it.
    pub proof fn lemma_get_iff_issued(calls: Seq<Call>, id: nat)
        ensures
            StoreModel::empty().after(calls).get(id) is Some <==> StoreModel::empty().issued(
                calls,
            ).contains(id),
    {
        let start = StoreModel::empty();
        start.lemma_issued_consecutive(calls);
        let ids = start.issued(calls);
        if id < ids.len() {
            assert(ids[id as int] == id);
        }
    }

    /// However many creations are made on the empty store, each from an
    /// acceptable draft, they are answered with the numbers from zero up to
    /// their count less one, each once and none left out.
    pub proof fn lemma_creates_from_empty(drafts: Seq<DraftView>)
        requires
            forall|i: int| 0 <= i < drafts.len() ==> (#[trigger] drafts[i]).ok(),
        ensures
            StoreModel::empty().issued(creations(drafts)) == Seq::new(
                drafts.len(),
                |i: int| i as nat,
            ),
    {
        let start = StoreModel::empty();
        let calls = creations(drafts);
        start.lemma_issued_consecutive(calls);
        lemma_creations_all_answered(start, drafts);
        assert(start.issued(calls) =~= Seq::new(drafts.len(), |i: int| i as nat));
    }
}

/// The calls that create a ticket from each of `drafts`, in order.
pub open spec fn creations(drafts: Seq<DraftView>) -> Seq<Call> {
    Seq::new(drafts.len(), |i: int| Call::Create(drafts[i]))
}

/// Creations from acceptable drafts are each answered with a number.
proof fn lemma_creations_all_answered(start: StoreModel, drafts: Seq<DraftView>)
    requires
        forall|i: int| 0 <= i < drafts.len() ==> (#[trigger] drafts[i]).ok(),
    ensures
        start.issued(creations(drafts)).len() == drafts.len(),
    decreases drafts.len(),
{
    if drafts.len() > 0 {
        assert(creations(drafts).drop_last() =~= creations(drafts.drop_last()));
        lemma_creations_all_answered(start, drafts.drop_last());
        assert(drafts.last().ok());
    }
}

} // verus!
