//! Import records and the patch engine that mutates them.
use crate::ids::{now, random_uuid, Timestamp, Uuid};
use crate::patch::{
    actions_view, apply_action, apply_actions, bucket_view, perform_actions, PatchAction,
};
use vstd::prelude::*;

verus! {

/// One batch of imported names. Each name sits in one of three buckets:
/// `pending` until an operator resolves it, then either the identifier of the
/// record created for it in `accepted`, or the name itself in `rejected`.
#[derive(Debug, Clone)]
pub struct BulkImport {
    /// The identifier of this import.
    pub id: Uuid,
    /// A human-friendly label: the first name of the batch.
    pub name: String,
    /// The identifier of the operator who started the import.
    pub creator: Uuid,
    /// When the import was created.
    pub started: Timestamp,
    /// When the last pending name was resolved; `None` while names are pending.
    pub finished: Option<Timestamp>,
    /// Names waiting to be resolved.
    pub pending: Vec<String>,
    /// Identifiers of the records created from this import.
    pub accepted: Vec<Uuid>,
    /// Names that were discarded.
    pub rejected: Vec<String>,
}

impl BulkImport {
    pub open spec fn pending_names(&self) -> Seq<Seq<char>> {
        bucket_view(self.pending@)
    }

    pub open spec fn accepted_ids(&self) -> Seq<u128> {
        bucket_view(self.accepted@)
    }

    pub open spec fn rejected_names(&self) -> Seq<Seq<char>> {
        bucket_view(self.rejected@)
    }

    /// `finished` is set exactly when nothing is pending.
    pub open spec fn finished_matches_pending(&self) -> bool {
        self.finished is Some <==> self.pending@.len() == 0
    }

    /// Whether `other` holds the same values as this import.
    pub open spec fn same_content(&self, other: BulkImport) -> bool {
        &&& self.id == other.id
        &&& self.name@ == other.name@
        &&& self.creator == other.creator
        &&& self.started == other.started
        &&& self.finished == other.finished
        &&& self.pending_names() == other.pending_names()
        &&& self.accepted_ids() == other.accepted_ids()
        &&& self.rejected_names() == other.rejected_names()
    }

    /// A copy of this import.
    pub fn copy(&self) -> (r: BulkImport)
        ensures
            r.same_content(*self),
    {
        BulkImport {
            id: self.id,
            name: self.name.clone(),
            creator: self.creator,
            started: self.started,
            finished: self.finished,
            pending: self.pending.clone(),
            accepted: self.accepted.clone(),
            rejected: self.rejected.clone(),
        }
    }

    /// Creates an import with a fresh random identifier, started at
    /// `started` and not finished.
    pub fn new_at(
        name: &String,
        creator: &Uuid,
        pending: &Vec<String>,
        accepted: &Vec<Uuid>,
        rejected: &Vec<String>,
        started: Timestamp,
    ) -> (r: BulkImport)
        ensures
            r.id.is_random(),
            r.name@ == name@,
            r.creator == *creator,
            r.started == started,
            r.finished is None,
            r.pending_names() == bucket_view(pending@),
            r.accepted_ids() == bucket_view(accepted@),
            r.rejected_names() == bucket_view(rejected@),
    {
        BulkImport {
            id: random_uuid(),
            name: name.clone(),
            creator: *creator,
            started,
            finished: None,
            pending: pending.clone(),
            accepted: accepted.clone(),
            rejected: rejected.clone(),
        }
    }

    /// Creates an import with a fresh random identifier, started now and not
    /// finished (see [`BulkImport::new_at`]).
    pub fn new(
        name: &String,
        creator: &Uuid,
        pending: &Vec<String>,
        accepted: &Vec<Uuid>,
        rejected: &Vec<String>,
    ) -> (r: BulkImport)
        ensures
            r.id.is_random(),
            r.name@ == name@,
            r.creator == *creator,
            r.finished is None,
            r.pending_names() == bucket_view(pending@),
            r.accepted_ids() == bucket_view(accepted@),
            r.rejected_names() == bucket_view(rejected@),
    {
        let started = now();
        BulkImport::new_at(name, creator, pending, accepted, rejected, started)
    }
}

/// A request to modify the import with identifier `id`: up to one list of
/// actions for each bucket.
#[derive(Debug)]
pub struct BulkPatch {
    pub id: Uuid,
    pub pending: Option<Vec<PatchAction<String>>>,
    pub accepted: Option<Vec<PatchAction<Uuid>>>,
    pub rejected: Option<Vec<PatchAction<String>>>,
}

/// The actions of an optional list; none when the list is absent.
pub open spec fn optional_actions<T: View>(o: Option<Vec<PatchAction<T>>>) -> Seq<PatchAction<T::V>> {
    match o {
        Some(v) => actions_view(v@),
        None => Seq::empty(),
    }
}

fn push_action<T>(list: Option<Vec<PatchAction<T>>>, action: PatchAction<T>) -> (r: Option<Vec<PatchAction<T>>>)
    ensures
        r is Some,
        r->0@ == match list {
            Some(v) => v@,
            None => Seq::empty(),
        }.push(action),
{
    let mut v = match list {
        Some(v) => v,
        None => Vec::new(),
    };
    v.push(action);
    Some(v)
}

impl BulkPatch {
    pub open spec fn pending_actions(&self) -> Seq<PatchAction<Seq<char>>> {
        optional_actions(self.pending)
    }

    pub open spec fn accepted_actions(&self) -> Seq<PatchAction<u128>> {
        optional_actions(self.accepted)
    }

    pub open spec fn rejected_actions(&self) -> Seq<PatchAction<Seq<char>>> {
        optional_actions(self.rejected)
    }

    /// Whether `import` is `old` with this patch's actions applied to each
    /// bucket, everything else unchanged.
    pub open spec fn patched(&self, old: BulkImport, import: BulkImport) -> bool {
        &&& import.pending_names() == apply_actions(old.pending_names(), self.pending_actions())
        &&& import.accepted_ids() == apply_actions(old.accepted_ids(), self.accepted_actions())
        &&& import.rejected_names() == apply_actions(old.rejected_names(), self.rejected_actions())
        &&& import.id == old.id
        &&& import.name@ == old.name@
        &&& import.creator == old.creator
        &&& import.started == old.started
    }

    /// An empty patch for the import with identifier `id`.
    pub fn new(id: &Uuid) -> (r: BulkPatch)
        ensures
            r.id == *id,
            r.pending is None,
            r.accepted is None,
            r.rejected is None,
    {
        BulkPatch { id: *id, pending: None, accepted: None, rejected: None }
    }

    /// Adds an action on the pending bucket.
    pub fn pending(self, action: PatchAction<String>) -> (r: BulkPatch)
        ensures
            r.id == self.id,
            r.pending_actions() == self.pending_actions().push(action@),
            r.accepted == self.accepted,
            r.rejected == self.rejected,
    {
        let BulkPatch { id, pending, accepted, rejected } = self;
        let pending = push_action(pending, action);
        let r = BulkPatch { id, pending, accepted, rejected };
        assert(r.pending_actions() =~= self.pending_actions().push(action@));
        r
    }

    /// Adds an action on the accepted bucket.
    pub fn accepted(self, action: PatchAction<Uuid>) -> (r: BulkPatch)
        ensures
            r.id == self.id,
            r.accepted_actions() == self.accepted_actions().push(action@),
            r.pending == self.pending,
            r.rejected == self.rejected,
    {
        let BulkPatch { id, pending, accepted, rejected } = self;
        let accepted = push_action(accepted, action);
        let r = BulkPatch { id, pending, accepted, rejected };
        assert(r.accepted_actions() =~= self.accepted_actions().push(action@));
        r
    }

    /// Adds an action on the rejected bucket.
    pub fn rejected(self, action: PatchAction<String>) -> (r: BulkPatch)
        ensures
            r.id == self.id,
            r.rejected_actions() == self.rejected_actions().push(action@),
            r.pending == self.pending,
            r.accepted == self.accepted,
    {
        let BulkPatch { id, pending, accepted, rejected } = self;
        let rejected = push_action(rejected, action);
        let r = BulkPatch { id, pending, accepted, rejected };
        assert(r.rejected_actions() =~= self.rejected_actions().push(action@));
        r
    }

    /// Applies the actions of this patch to the buckets of `import`: first the
    /// pending list, then the accepted list, then the rejected list. Nothing
    /// else changes, `finished` included.
    pub fn update_import(&self, import: &mut BulkImport)
        ensures
            self.patched(*old(import), *final(import)),
            final(import).finished == old(import).finished,
    {
        if let Some(pending_actions) = self.pending.as_ref() {
            perform_actions(pending_actions, &mut import.pending);
        }
        if let Some(accepted_actions) = self.accepted.as_ref() {
            perform_actions(accepted_actions, &mut import.accepted);
        }
        if let Some(rejected_actions) = self.rejected.as_ref() {
            perform_actions(rejected_actions, &mut import.rejected);
        }
    }
}

/// What the patch engine leaves in `finished`: the time of the patch when
/// nothing is pending afterwards, else nothing.
pub open spec fn finished_after(pending_len: nat, at: Timestamp) -> Option<Timestamp> {
    if pending_len == 0 {
        Some(at)
    } else {
        None
    }
}

/// Applies a patch to an import at time `at`: the buckets change as the
/// patch says, and `finished` becomes `at` when nothing is pending
/// afterwards, and is cleared when a name is still (or again) pending.
pub fn apply_patch_at(import: &mut BulkImport, patch: &BulkPatch, at: Timestamp)
    ensures
        patch.patched(*old(import), *final(import)),
        final(import).finished == finished_after(final(import).pending@.len(), at),
{
    patch.update_import(import);
    if import.pending.len() == 0 {
        import.finished = Some(at);
    } else {
        import.finished = None;
    }
}

/// Applies a patch to an import now (see [`apply_patch_at`]).
pub fn apply_patch(import: &mut BulkImport, patch: &BulkPatch)
    ensures
        patch.patched(*old(import), *final(import)),
        final(import).finished_matches_pending(),
{
    let at = now();
    apply_patch_at(import, patch, at);
}

/// Why the patch engine refused a patch.
#[derive(Debug, Clone, Copy, PartialEq, Eq, Structural)]
pub enum PatchError {
    /// No import has the patch's identifier.
    NotFound,
    /// The store returned more than one import for one identifier.
    Ambiguous,
}

/// The patch engine on what the store returned for the patch's identifier:
/// refuses when that is not exactly one import with that identifier, and
/// otherwise returns it patched at time `at`.
pub fn patch_loaded(loaded: Vec<BulkImport>, patch: &BulkPatch, at: Timestamp) -> (r: Result<BulkImport, PatchError>)
    ensures
        loaded@.len() == 0 ==> r == Err::<BulkImport, PatchError>(PatchError::NotFound),
        loaded@.len() > 1 ==> r == Err::<BulkImport, PatchError>(PatchError::Ambiguous),
        loaded@.len() == 1 && loaded@[0].id != patch.id ==> r == Err::<BulkImport, PatchError>(PatchError::NotFound),
        loaded@.len() == 1 && loaded@[0].id == patch.id ==> r is Ok,
        r is Ok ==> patch.patched(loaded@[0], r->Ok_0) && r->Ok_0.finished == finished_after(
            r->Ok_0.pending@.len(),
            at,
        ),
{
    if loaded.len() == 0 {
        return Err(PatchError::NotFound);
    }
    if loaded.len() > 1 {
        return Err(PatchError::Ambiguous);
    }
    let mut loaded = loaded;
    let mut import = loaded.pop().unwrap();
    if import.id.value != patch.id.value {
        return Err(PatchError::NotFound);
    }
    apply_patch_at(&mut import, patch, at);
    Ok(import)
}

} // verus!
