use pigweb_bulk::bulk::BulkImport;
use pigweb_bulk::bulk_page::{
    newest_first, BulkPage, BulkPageDirtyAction, PageRefresh, SelectedImportedPig, SelectionFetched,
};
use pigweb_bulk::client::FollowUp;
use pigweb_bulk::{Timestamp, Uuid};

fn import(id: u128, pending: &[&str]) -> BulkImport {
    BulkImport {
        id: Uuid { value: id },
        name: "batch".to_string(),
        creator: Uuid { value: 7 },
        started: Timestamp { micros: 1 },
        finished: None,
        pending: pending.iter().map(|s| s.to_string()).collect(),
        accepted: vec![],
        rejected: vec![],
    }
}

#[test]
fn selection_applies_at_once_when_clean() {
    let mut page = BulkPage::new();
    let r = page.warn_if_dirty(BulkPageDirtyAction::SelectImport(Some(import(3, &["x"]))));
    assert_eq!(r, PageRefresh::ImportSelected);
    assert_eq!(page.selected_import.as_ref().map(|i| i.id), Some(Uuid { value: 3 }));
    let r = page.warn_if_dirty(BulkPageDirtyAction::SelectPig(Some(SelectedImportedPig::Pending("x".to_string()))));
    assert_eq!(r, PageRefresh::EntrySelected);
    assert_eq!(page.updated_name, "x");
    let r = page.warn_if_dirty(BulkPageDirtyAction::SelectPig(Some(SelectedImportedPig::Rejected("y".to_string()))));
    assert_eq!(r, PageRefresh::EntrySelected);
    assert_eq!(page.updated_name, "");
}

#[test]
fn dirty_edit_holds_selection_until_confirmed() {
    let mut page = BulkPage::new();
    page.warn_if_dirty(BulkPageDirtyAction::SelectImport(Some(import(3, &["x"]))));
    page.edit_name("x2".to_string());
    let r = page.warn_if_dirty(BulkPageDirtyAction::SelectImport(None));
    assert_eq!(r, PageRefresh::Nothing);
    assert!(page.selected_import.is_some());
    assert_eq!(page.updated_name, "x2");
    page.cancel_dirty_action();
    assert_eq!(page.confirm_dirty_action(), PageRefresh::Nothing);
    page.edit_name("x3".to_string());
    page.warn_if_dirty(BulkPageDirtyAction::SelectImport(None));
    assert_eq!(page.confirm_dirty_action(), PageRefresh::ImportSelected);
    assert!(page.selected_pig.is_none());
    assert_eq!(page.updated_name, "");
    assert!(page.selected_import.is_none());
    assert!(!page.guard.dirty);
}

#[test]
fn created_record_resolves_pending_entry() {
    let mut page = BulkPage::new();
    assert_eq!(page.import_created(import(3, &["x", "y"])), PageRefresh::ImportCreated);
    assert!(page.record_created(&Uuid { value: 50 }).is_none());
    page.warn_if_dirty(BulkPageDirtyAction::SelectPig(Some(SelectedImportedPig::Pending("x".to_string()))));
    let patch = page.record_created(&Uuid { value: 50 }).unwrap();
    assert_eq!(patch.id, Uuid { value: 3 });
    let mut list = Some(vec![import(3, &["x", "y"])]);
    assert_eq!(page.patch_confirmed(&mut list, &patch), FollowUp::Done);
    let sel = page.selected_import.as_ref().unwrap();
    assert_eq!(sel.pending, vec!["y".to_string()]);
    assert_eq!(sel.accepted, vec![Uuid { value: 50 }]);
    assert_eq!(list.unwrap()[0].accepted, vec![Uuid { value: 50 }]);
    assert!(page.selected_pig.is_none());
    assert_eq!(page.updated_name, "");
}

#[test]
fn fetched_list_is_shown_newest_first() {
    let list = newest_first(vec![import(1, &[]), import(2, &[]), import(3, &[])]);
    let ids: Vec<u128> = list.iter().map(|i| i.id.value).collect();
    assert_eq!(ids, vec![3, 2, 1]);
    assert!(newest_first(vec![]).is_empty());
}

#[test]
fn fetched_selection_found_or_not() {
    let mut page = BulkPage::new();
    let mut list = Some(vec![import(3, &["x"]), import(4, &[])]);
    assert_eq!(page.selection_fetched(&mut list, vec![]), SelectionFetched::NotFound);
    assert!(page.selected_import.is_none());
    let fresh = import(3, &[]);
    assert_eq!(page.selection_fetched(&mut list, vec![fresh]), SelectionFetched::Found(PageRefresh::ImportSelected));
    assert!(list.as_ref().unwrap()[0].pending.is_empty());
    assert_eq!(page.selected_import.as_ref().map(|i| i.id), Some(Uuid { value: 3 }));
    page.edit_name("z".to_string());
    assert_eq!(
        page.selection_fetched(&mut list, vec![import(4, &[])]),
        SelectionFetched::Found(PageRefresh::Nothing)
    );
    assert_eq!(page.selected_import.as_ref().map(|i| i.id), Some(Uuid { value: 3 }));
}
