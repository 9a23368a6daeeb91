//! The state of the import page: the selections, the name being edited,
//! the unsaved-changes guard, and how confirmed server answers change them.
use crate::bulk::{BulkImport, BulkPatch};
use crate::client::{accept_patch, cached_finished_after, merge_confirmed_patch, replace_by_id, replaced_by_id, DirtyGuard, FollowUp};
use crate::ids::Uuid;
use crate::records::Pig;
use vstd::prelude::*;

verus! {

/// An entry selected from one of the buckets of the selected import.
#[derive(Debug, Clone)]
pub enum SelectedImportedPig {
    Pending(String),
    Accepted(Pig),
    Rejected(String),
}

/// An action that discards the name being edited.
#[derive(Debug)]
pub enum BulkPageDirtyAction {
    /// Select another import, or none.
    SelectImport(Option<BulkImport>),
    /// Select another entry, or none.
    SelectPig(Option<SelectedImportedPig>),
}

/// What the page must refresh after an action.
#[derive(Clone, Copy, Debug, PartialEq, Eq, Structural)]
pub enum PageRefresh {
    /// Nothing was done.
    Nothing,
    /// The import selection changed: show it in the address and load its
    /// accepted records.
    ImportSelected,
    /// The entry selection changed: look up duplicates of the edited name.
    EntrySelected,
    /// An import was created and selected: show it in the address, reload
    /// the list of imports and load its accepted records.
    ImportCreated,
}

/// What became of a fetch of the selected import by its identifier.
#[derive(Clone, Copy, Debug, PartialEq, Eq, Structural)]
pub enum SelectionFetched {
    /// No import has that identifier: show that it was not found.
    NotFound,
    /// The import was found and asked to be selected.
    Found(PageRefresh),
}

/// A list of imports in the reverse of the order it came in (newest first
/// for a list that came oldest first).
pub fn newest_first(imports: Vec<BulkImport>) -> (r: Vec<BulkImport>)
    ensures
        r@ == imports@.reverse(),
{
    let mut imports = imports;
    let mut r: Vec<BulkImport> = Vec::new();
    let ghost orig = imports@;
    while imports.len() > 0
        invariant
            imports@.len() <= orig.len(),
            imports@ == orig.subrange(0, imports@.len() as int),
            r@ == orig.subrange(imports@.len() as int, orig.len() as int).reverse(),
        decreases imports.len(),
    {
        let ghost n = imports@.len() as int;
        let last = imports.pop().unwrap();
        assert(last == orig[n - 1]);
        r.push(last);
        assert(r@ =~= orig.subrange(imports@.len() as int, orig.len() as int).reverse());
    }
    assert(orig.subrange(0, orig.len() as int) =~= orig);
    r
}

/// The import page.
#[derive(Debug)]
pub struct BulkPage {
    pub selected_import: Option<BulkImport>,
    pub selected_pig: Option<SelectedImportedPig>,
    /// The pending name as the operator is editing it.
    pub updated_name: String,
    /// Unsaved edits and the action waiting for confirmation.
    pub guard: DirtyGuard<BulkPageDirtyAction>,
}

/// The name to edit for a selection: the name of a pending entry, else
/// nothing.
pub open spec fn edited_name(sel: Option<SelectedImportedPig>) -> Seq<char> {
    match sel {
        Some(SelectedImportedPig::Pending(name)) => name@,
        _ => Seq::empty(),
    }
}

/// What doing `action` leaves on the page (the guard aside): selecting an
/// import clears the entry selection and the edited name; selecting an entry
/// makes its name (when pending) the edited name.
pub open spec fn performed(before: BulkPage, after: BulkPage, action: BulkPageDirtyAction, r: PageRefresh) -> bool {
    match action {
        BulkPageDirtyAction::SelectImport(sel) => {
            &&& r == PageRefresh::ImportSelected
            &&& after.selected_import == sel
            &&& after.selected_pig is None
            &&& after.updated_name@.len() == 0
        },
        BulkPageDirtyAction::SelectPig(sel) => {
            &&& r == PageRefresh::EntrySelected
            &&& after.selected_import == before.selected_import
            &&& after.selected_pig == sel
            &&& after.updated_name@ == edited_name(sel)
        },
    }
}

impl BulkPage {
    /// Nothing selected, nothing unsaved.
    pub fn new() -> (r: BulkPage)
        ensures
            r.selected_import is None,
            r.selected_pig is None,
            r.updated_name@.len() == 0,
            !r.guard.dirty,
            r.guard.deferred is None,
    {
        BulkPage { selected_import: None, selected_pig: None, updated_name: String::new(), guard: DirtyGuard::new() }
    }

    /// Does an action now.
    fn perform(&mut self, action: BulkPageDirtyAction) -> (r: PageRefresh)
        ensures
            final(self).guard == old(self).guard,
            performed(*old(self), *final(self), action, r),
    {
        match action {
            BulkPageDirtyAction::SelectImport(sel) => {
                self.selected_import = sel;
                self.selected_pig = None;
                self.updated_name = String::new();
                PageRefresh::ImportSelected
            },
            BulkPageDirtyAction::SelectPig(sel) => {
                self.updated_name = match &sel {
                    Some(SelectedImportedPig::Pending(name)) => name.clone(),
                    _ => String::new(),
                };
                self.selected_pig = sel;
                PageRefresh::EntrySelected
            },
        }
    }

    /// Asks for an action: done at once when nothing is unsaved, else held
    /// until the operator confirms.
    pub fn warn_if_dirty(&mut self, action: BulkPageDirtyAction) -> (r: PageRefresh)
        ensures
            old(self).guard.dirty ==> {
                &&& r == PageRefresh::Nothing
                &&& final(self).guard.dirty
                &&& final(self).guard.deferred == Some(action)
                &&& final(self).selected_import == old(self).selected_import
                &&& final(self).selected_pig == old(self).selected_pig
                &&& final(self).updated_name == old(self).updated_name
            },
            !old(self).guard.dirty ==> {
                &&& !final(self).guard.dirty
                &&& final(self).guard.deferred is None
                &&& performed(*old(self), *final(self), action, r)
            },
    {
        match self.guard.request(action) {
            Some(a) => self.perform(a),
            None => PageRefresh::Nothing,
        }
    }

    /// The operator confirmed discarding the edits: the held action is done.
    pub fn confirm_dirty_action(&mut self) -> (r: PageRefresh)
        ensures
            !final(self).guard.dirty,
            final(self).guard.deferred is None,
            old(self).guard.deferred is None ==> {
                &&& r == PageRefresh::Nothing
                &&& final(self).selected_import == old(self).selected_import
                &&& final(self).selected_pig == old(self).selected_pig
                &&& final(self).updated_name == old(self).updated_name
            },
            old(self).guard.deferred is Some ==> performed(
                *old(self),
                *final(self),
                old(self).guard.deferred->0,
                r,
            ),
    {
        match self.guard.confirm() {
            Some(a) => self.perform(a),
            None => PageRefresh::Nothing,
        }
    }

    /// The operator kept the edits: the held action is dropped.
    pub fn cancel_dirty_action(&mut self)
        ensures
            final(self).guard.dirty == old(self).guard.dirty,
            final(self).guard.deferred is None,
            final(self).selected_import == old(self).selected_import,
            final(self).selected_pig == old(self).selected_pig,
    {
        self.guard.cancel();
    }

    /// The operator edited the pending name.
    pub fn edit_name(&mut self, name: String)
        ensures
            final(self).updated_name == name,
            final(self).guard.dirty,
            final(self).guard.deferred == old(self).guard.deferred,
            final(self).selected_import == old(self).selected_import,
            final(self).selected_pig == old(self).selected_pig,
    {
        self.updated_name = name;
        self.guard.mark_dirty();
    }

    /// The server created an import: it becomes the selection and nothing
    /// is unsaved. The page must then show it in the address, reload the
    /// list of imports and load its accepted records.
    pub fn import_created(&mut self, import: BulkImport) -> (r: PageRefresh)
        ensures
            r == PageRefresh::ImportCreated,
            final(self).selected_import == Some(import),
            !final(self).guard.dirty,
            final(self).guard.deferred == old(self).guard.deferred,
    {
        self.selected_import = Some(import);
        self.guard.mark_clean();
        PageRefresh::ImportCreated
    }

    /// The server answered a fetch of one import by identifier (with at most
    /// one result): the cached list gets the fresh copy, and the import is
    /// asked to be selected.
    pub fn selection_fetched(&mut self, imports: &mut Option<Vec<BulkImport>>, fetched: Vec<BulkImport>) -> (r: SelectionFetched)
        ensures
            fetched@.len() == 0 ==> r == SelectionFetched::NotFound && *final(imports) == *old(imports)
                && final(self).selected_import == old(self).selected_import
                && final(self).selected_pig == old(self).selected_pig
                && final(self).updated_name == old(self).updated_name
                && final(self).guard == old(self).guard,
            fetched@.len() > 0 ==> r is Found && ((*old(imports)) is Some ==> (*final(imports)) is Some
                && replaced_by_id((*old(imports))->0@, (*final(imports))->0@, fetched@.last())),
            fetched@.len() > 0 && !old(self).guard.dirty ==> final(self).selected_import == Some(
                fetched@.last(),
            ),
            fetched@.len() > 0 && old(self).guard.dirty ==> {
                &&& final(self).guard.dirty
                &&& final(self).guard.deferred == Some(
                    BulkPageDirtyAction::SelectImport(Some(fetched@.last())),
                )
                &&& final(self).selected_import == old(self).selected_import
                &&& final(self).selected_pig == old(self).selected_pig
                &&& final(self).updated_name == old(self).updated_name
            },
    {
        let mut fetched = fetched;
        match fetched.pop() {
            None => SelectionFetched::NotFound,
            Some(sel) => {
                if let Some(list) = imports {
                    replace_by_id(list, &sel);
                }
                SelectionFetched::Found(self.warn_if_dirty(BulkPageDirtyAction::SelectImport(Some(sel))))
            },
        }
    }

    /// The server confirmed a patch: it is merged into the cached selection
    /// and list, and the entry selection and edits are reset.
    pub fn patch_confirmed(&mut self, imports: &mut Option<Vec<BulkImport>>, patch: &BulkPatch) -> (r: FollowUp)
        ensures
            (*old(self)).selected_import is None ==> r == FollowUp::ReloadList
                && final(self).selected_import == old(self).selected_import,
            (*old(self)).selected_import is Some ==> {
                &&& final(self).selected_import is Some
                &&& patch.patched(
                    (*old(self)).selected_import->0,
                    (*final(self)).selected_import->0,
                )
                &&& (*final(self)).selected_import->0.finished == cached_finished_after(
                    (*old(self)).selected_import->0.finished,
                    (*final(self)).selected_import->0.pending@.len(),
                )
                &&& r == if (*final(self)).selected_import->0.pending@.len() == 0 {
                    FollowUp::RefetchSelected
                } else {
                    FollowUp::Done
                }
                &&& (*old(imports)) is None ==> (*final(imports)) is None
                &&& (*old(imports)) is Some ==> (*final(imports)) is Some && replaced_by_id(
                    (*old(imports))->0@,
                    (*final(imports))->0@,
                    (*final(self)).selected_import->0,
                )
            },
            (*old(self)).selected_import is None ==> *final(imports) == *old(imports),
            final(self).selected_pig is None,
            final(self).updated_name@.len() == 0,
            !final(self).guard.dirty,
    {
        let r = merge_confirmed_patch(&mut self.selected_import, imports, patch);
        self.selected_pig = None;
        self.updated_name = String::new();
        self.guard.mark_clean();
        r
    }

    /// A record was created for the selected entry: when that entry is a
    /// pending name of the selected import, the patch that resolves it with
    /// the new record.
    pub fn record_created(&self, record: &Uuid) -> (r: Option<BulkPatch>)
        ensures
            (self.selected_import is Some && self.selected_pig matches Some(
                SelectedImportedPig::Pending(_),
            )) <==> r is Some,
            r is Some ==> r->0.id == self.selected_import->0.id && r->0.pending_actions() == seq![
                crate::patch::PatchAction::REMOVE(edited_name(self.selected_pig)),
            ] && r->0.accepted_actions() == seq![crate::patch::PatchAction::ADD(record@)]
                && r->0.rejected is None,
    {
        match (&self.selected_import, &self.selected_pig) {
            (Some(import), Some(SelectedImportedPig::Pending(name))) => Some(accept_patch(&import.id, name, record)),
            _ => None,
        }
    }
}

} // verus!
