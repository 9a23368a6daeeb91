//! The client side: single-flight request tracking, error routing, the
//! unsaved-changes guard, and merging confirmed changes into cached imports.
use crate::bulk::{BulkImport, BulkPatch};
use crate::ids::{Timestamp, Uuid};
use crate::api::Routes;
use crate::patch::PatchAction;
use crate::roles::{contains_role, Roles};
use vstd::prelude::*;

verus! {

/// An error met while talking to the server.
#[derive(Debug, Clone)]
pub struct ApiError {
    /// The HTTP status the server answered with; unset for local errors.
    pub code: Option<u16>,
    /// A short reason, shown as a title.
    pub reason: Option<String>,
    /// What went wrong.
    pub description: String,
}

impl ApiError {
    /// An error with the given description and nothing else.
    pub fn new(description: String) -> (r: ApiError)
        ensures
            r.code is None,
            r.reason is None,
            r.description == description,
    {
        ApiError { code: None, reason: None, description }
    }

    /// This error with the given HTTP status.
    pub fn with_code(self, code: u16) -> (r: ApiError)
        ensures
            r.code == Some(code),
            r.reason == self.reason,
            r.description == self.description,
    {
        ApiError { code: Some(code), ..self }
    }

    /// This error with the given short reason.
    pub fn with_reason(self, reason: String) -> (r: ApiError)
        ensures
            r.code == self.code,
            r.reason == Some(reason),
            r.description == self.description,
    {
        ApiError { reason: Some(reason), ..self }
    }

    /// Whether the server refused the session (HTTP 401).
    pub open spec fn is_unauthorized(&self) -> bool {
        self.code == Some(401u16)
    }
}

/// The state of the last request of one kind, as seen on one poll.
#[derive(Debug)]
pub enum Status<T> {
    /// The request succeeded with this value.
    Received(T),
    /// The request failed.
    Errored(ApiError),
    /// No answer to act on: none has come yet, or no request is followed.
    Pending,
}

/// Tracks at most one outstanding request of one kind. Each request gets a
/// ticket; a new request replaces the followed one, and an answer to any
/// ticket but the followed one is ignored.
#[derive(Debug)]
pub struct SingleFlight {
    /// The ticket of the request in flight, if any.
    pub current: Option<u64>,
    /// The ticket the next request gets.
    pub next: u64,
}

impl SingleFlight {
    /// Nothing in flight.
    pub fn new() -> (r: SingleFlight)
        ensures
            r.current is None,
    {
        SingleFlight { current: None, next: 0 }
    }

    /// Whether a request is in flight.
    pub fn in_flight(&self) -> (r: bool)
        ensures
            r == self.current is Some,
    {
        self.current.is_some()
    }

    /// Starts tracking a new request and returns its ticket; a request that
    /// was in flight is superseded.
    pub fn submit(&mut self) -> (ticket: u64)
        ensures
            final(self).current == Some(ticket),
            ticket == old(self).next,
            final(self).next == (if old(self).next == u64::MAX {
                0
            } else {
                (old(self).next + 1) as u64
            }),
    {
        let ticket = self.next;
        self.next = if self.next == u64::MAX {
            0
        } else {
            self.next + 1
        };
        self.current = Some(ticket);
        ticket
    }

    /// Stops tracking the request in flight; its answer will be ignored.
    pub fn discard(&mut self)
        ensures
            final(self).current is None,
            final(self).next == old(self).next,
    {
        self.current = None;
    }

    /// Handles one poll of request `ticket`: `answer` is `None` while no
    /// answer has come. An answer to the followed request is handed out and
    /// ends the tracking; anything else yields `Pending` and changes nothing.
    pub fn poll<T>(&mut self, ticket: u64, answer: Option<Result<T, ApiError>>) -> (r: Status<T>)
        ensures
            final(self).next == old(self).next,
            old(self).current == Some(ticket) && answer is Some ==> final(self).current is None
                && match answer->0 {
                Ok(v) => r == Status::<T>::Received(v),
                Err(e) => r == Status::<T>::Errored(e),
            },
            !(old(self).current == Some(ticket) && answer is Some) ==> final(self).current
                == old(self).current && r is Pending,
    {
        let is_current = match self.current {
            Some(t) => t == ticket,
            None => false,
        };
        if !is_current {
            return Status::Pending;
        }
        match answer {
            None => Status::Pending,
            Some(Ok(v)) => {
                self.current = None;
                Status::Received(v)
            },
            Some(Err(e)) => {
                self.current = None;
                Status::Errored(e)
            },
        }
    }
}

/// The errors on display, in the order they came.
#[derive(Debug)]
pub struct Layout {
    pub display_error: Vec<ApiError>,
}

impl Layout {
    pub fn new() -> (r: Layout)
        ensures
            r.display_error@.len() == 0,
    {
        Layout { display_error: Vec::new() }
    }

    /// Dismisses the error at `index`; an index past the end changes nothing.
    pub fn dismiss(&mut self, index: usize)
        ensures
            index < old(self).display_error@.len() ==> final(self).display_error@ == old(
                self,
            ).display_error@.remove(index as int),
            index >= old(self).display_error@.len() ==> final(self).display_error@ == old(
                self,
            ).display_error@,
    {
        if index < self.display_error.len() {
            self.display_error.remove(index);
        }
    }
}

/// What the client keeps across pages: the roles of the signed-in operator
/// (`None` when not signed in), the open page, and the errors on display.
#[derive(Debug)]
pub struct ClientState {
    pub authorized: Option<Vec<Roles>>,
    pub route: Routes,
    pub layout: Layout,
}

impl ClientState {
    /// Not signed in, on the record list, no errors.
    pub fn new() -> (r: ClientState)
        ensures
            r.authorized is None,
            r.route == Routes::Pigs,
            r.layout.display_error@.len() == 0,
    {
        ClientState { authorized: None, route: Routes::Pigs, layout: Layout::new() }
    }

    /// Whether the operator is signed in with `role`.
    pub fn has_role(&self, role: Roles) -> (r: bool)
        ensures
            r == (self.authorized is Some && self.authorized->0@.contains(role)),
    {
        match &self.authorized {
            None => false,
            Some(roles) => contains_role(roles, role),
        }
    }

    /// The errors the operator sees: none while not signed in, where a
    /// sign-in prompt takes their place.
    pub open spec fn shown_errors(&self) -> Seq<ApiError> {
        if self.authorized is Some {
            self.layout.display_error@
        } else {
            Seq::empty()
        }
    }

    /// Takes the answer to the session check: the roles are stored (none when
    /// not signed in, which also clears the errors, since they followed from
    /// the missing session); an error joins the displayed list.
    pub fn session_checked(&mut self, status: Status<Option<Vec<Roles>>>)
        ensures
            final(self).route == old(self).route,
            match status {
                Status::Received(roles) => {
                    &&& final(self).authorized == roles
                    &&& roles is None ==> final(self).layout.display_error@.len() == 0
                    &&& roles is Some ==> final(self).layout.display_error@ == old(
                        self,
                    ).layout.display_error@
                },
                Status::Errored(e) => final(self).authorized == old(self).authorized
                    && final(self).layout.display_error@ == old(self).layout.display_error@.push(e),
                Status::Pending => final(self).authorized == old(self).authorized
                    && final(self).layout.display_error@ == old(self).layout.display_error@,
            },
    {
        match status {
            Status::Received(roles) => {
                if roles.is_none() {
                    self.layout.display_error = Vec::new();
                }
                self.authorized = roles;
            },
            Status::Errored(e) => self.layout.display_error.push(e),
            Status::Pending => {},
        }
    }

    /// Takes what a poll returned: a value is handed out; a 401 ends the
    /// session; any other error joins the displayed list.
    pub fn received<T>(&mut self, status: Status<T>) -> (r: Option<T>)
        ensures
            final(self).route == old(self).route,
            match status {
                Status::Received(v) => r == Some(v) && final(self).authorized == old(self).authorized
                    && final(self).layout.display_error@ == old(self).layout.display_error@,
                Status::Errored(e) => r is None && if e.is_unauthorized() {
                    final(self).authorized is None && final(self).layout.display_error@ == old(
                        self,
                    ).layout.display_error@
                } else {
                    final(self).authorized == old(self).authorized
                        && final(self).layout.display_error@ == old(
                        self,
                    ).layout.display_error@.push(e)
                },
                Status::Pending => r is None && final(self).authorized == old(self).authorized
                    && final(self).layout.display_error@ == old(self).layout.display_error@,
            },
    {
        match status {
            Status::Received(v) => Some(v),
            Status::Errored(e) => {
                if e.code == Some(401u16) {
                    self.authorized = None;
                } else {
                    self.layout.display_error.push(e);
                }
                None
            },
            Status::Pending => None,
        }
    }
}

/// Holds back an action that would throw away unsaved edits until the
/// operator confirms it.
#[derive(Debug)]
pub struct DirtyGuard<A> {
    /// Whether there are unsaved edits.
    pub dirty: bool,
    /// The action waiting for confirmation.
    pub deferred: Option<A>,
}

impl<A> DirtyGuard<A> {
    pub fn new() -> (r: DirtyGuard<A>)
        ensures
            !r.dirty,
            r.deferred is None,
    {
        DirtyGuard { dirty: false, deferred: None }
    }

    /// Marks that there are unsaved edits.
    pub fn mark_dirty(&mut self)
        ensures
            final(self).dirty,
            final(self).deferred == old(self).deferred,
    {
        self.dirty = true;
    }

    /// Marks the edits as saved.
    pub fn mark_clean(&mut self)
        ensures
            !final(self).dirty,
            final(self).deferred == old(self).deferred,
    {
        self.dirty = false;
    }

    /// Asks for `action`: it is handed back to be done now when nothing is
    /// unsaved, else it waits for confirmation (replacing any action that
    /// waited).
    pub fn request(&mut self, action: A) -> (r: Option<A>)
        ensures
            final(self).dirty == old(self).dirty,
            !old(self).dirty ==> r == Some(action) && final(self).deferred is None,
            old(self).dirty ==> r is None && final(self).deferred == Some(action),
    {
        if self.dirty {
            self.deferred = Some(action);
            None
        } else {
            self.deferred = None;
            Some(action)
        }
    }

    /// The operator confirmed: the edits are dropped and the waiting action
    /// is handed back to be done.
    pub fn confirm(&mut self) -> (r: Option<A>)
        ensures
            !final(self).dirty,
            final(self).deferred is None,
            r == old(self).deferred,
    {
        self.dirty = false;
        self.deferred.take()
    }

    /// The operator declined: the waiting action is dropped, the edits stay.
    pub fn cancel(&mut self)
        ensures
            final(self).dirty == old(self).dirty,
            final(self).deferred is None,
    {
        self.deferred = None;
    }
}

/// The patch that resolves pending `name` as a new record `record`.
pub fn accept_patch(import_id: &Uuid, name: &String, record: &Uuid) -> (r: BulkPatch)
    ensures
        r.id == *import_id,
        r.pending_actions() == seq![PatchAction::REMOVE(name@)],
        r.accepted_actions() == seq![PatchAction::ADD(record@)],
        r.rejected is None,
{
    let r = BulkPatch::new(import_id).pending(PatchAction::REMOVE(name.clone())).accepted(
        PatchAction::ADD(*record),
    );
    assert(r.pending_actions() =~= seq![PatchAction::REMOVE(name@)]);
    assert(r.accepted_actions() =~= seq![PatchAction::ADD(record@)]);
    r
}

/// The patch that resolves pending `name` by discarding it.
pub fn reject_patch(import_id: &Uuid, name: &String) -> (r: BulkPatch)
    ensures
        r.id == *import_id,
        r.pending_actions() == seq![PatchAction::REMOVE(name@)],
        r.rejected_actions() == seq![PatchAction::ADD(name@)],
        r.accepted is None,
{
    let r = BulkPatch::new(import_id).pending(PatchAction::REMOVE(name.clone())).rejected(
        PatchAction::ADD(name.clone()),
    );
    assert(r.pending_actions() =~= seq![PatchAction::REMOVE(name@)]);
    assert(r.rejected_actions() =~= seq![PatchAction::ADD(name@)]);
    r
}

/// The identifiers of a list of imports, in order.
pub open spec fn import_ids(list: Seq<BulkImport>) -> Seq<Uuid> {
    list.map_values(|b: BulkImport| b.id)
}

/// `list` after the first import with `item`'s identifier was replaced by a
/// copy of `item` (`list` unchanged when there is none).
pub open spec fn replaced_by_id(old: Seq<BulkImport>, new: Seq<BulkImport>, item: BulkImport) -> bool {
    &&& new.len() == old.len()
    &&& match import_ids(old).index_of_first(item.id) {
        Some(i) => new[i].same_content(item) && forall|k: int|
            0 <= k < old.len() && k != i ==> new[k] == old[k],
        None => new == old,
    }
}

/// Replaces, in a cached list, the first import with `item`'s identifier by
/// a copy of `item`.
pub fn replace_by_id(list: &mut Vec<BulkImport>, item: &BulkImport)
    ensures
        replaced_by_id(old(list)@, final(list)@, *item),
{
    let ghost ids = import_ids(list@);
    let mut i: usize = 0;
    while i < list.len()
        invariant
            0 <= i <= list.len(),
            ids == import_ids(list@),
            ids.len() == list@.len(),
            list@ == old(list)@,
            forall|j: int| 0 <= j < i ==> ids[j] != item.id,
        decreases list.len() - i,
    {
        if list[i].id.value == item.id.value {
            proof {
                ids.index_of_first_ensures(item.id);
                let k = ids.index_of_first(item.id).unwrap();
                assert(ids[i as int] == item.id);
                if k < i {
                    assert(ids[k] != item.id);
                } else if k > i {
                    assert(ids[i as int] != item.id);
                }
            }
            list.set(i, item.copy());
            return;
        }
        i = i + 1;
    }
    proof {
        ids.index_of_first_ensures(item.id);
        if ids.contains(item.id) {
            let k = choose|k: int| 0 <= k < ids.len() && ids[k] == item.id;
            assert(ids[k] != item.id);
        }
    }
}

/// What the client should do after a confirmed patch was merged.
#[derive(Clone, Copy, Debug, PartialEq, Eq, Structural)]
pub enum FollowUp {
    /// Nothing more.
    Done,
    /// The selected import is finished: fetch it again from the server.
    RefetchSelected,
    /// No import was selected: reload the list of imports.
    ReloadList,
}

/// What the cached copy of a patched import keeps in `finished`: nothing
/// while a name is pending; otherwise the earlier stamp, until the server's
/// own stamp is fetched again (the merge asks for that).
pub open spec fn cached_finished_after(old: Option<Timestamp>, pending_len: nat) -> Option<Timestamp> {
    if pending_len == 0 {
        old
    } else {
        None
    }
}

/// Merges a patch that the server confirmed into the cached state: the
/// selected import gets the same patch the server applied, `finished` is
/// cleared while a name is pending, and its entry in the cached list is
/// replaced by the result. When nothing is left pending, the import is to be
/// fetched again for the server's `finished` stamp.
pub fn merge_confirmed_patch(
    selected: &mut Option<BulkImport>,
    imports: &mut Option<Vec<BulkImport>>,
    patch: &BulkPatch,
) -> (r: FollowUp)
    ensures
        (*old(selected)) is None ==> r == FollowUp::ReloadList && *final(selected) == *old(selected)
            && *final(imports) == *old(imports),
        (*old(selected)) is Some ==> {
            &&& (*final(selected)) is Some
            &&& patch.patched((*old(selected))->0, (*final(selected))->0)
            &&& (*final(selected))->0.finished == cached_finished_after(
                (*old(selected))->0.finished,
                (*final(selected))->0.pending@.len(),
            )
            &&& r == if (*final(selected))->0.pending@.len() == 0 {
                FollowUp::RefetchSelected
            } else {
                FollowUp::Done
            }
            &&& (*old(imports)) is None ==> (*final(imports)) is None
            &&& (*old(imports)) is Some ==> (*final(imports)) is Some && replaced_by_id(
                (*old(imports))->0@,
                (*final(imports))->0@,
                (*final(selected))->0,
            )
        },
{
    match selected {
        None => FollowUp::ReloadList,
        Some(sel) => {
            patch.update_import(sel);
            if sel.pending.len() != 0 {
                sel.finished = None;
            }
            if let Some(list) = imports {
                replace_by_id(list, sel);
            }
            if sel.pending.len() == 0 {
                FollowUp::RefetchSelected
            } else {
                FollowUp::Done
            }
        },
    }
}

} // verus!
