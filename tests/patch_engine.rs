use pigweb_bulk::bulk::{apply_patch, apply_patch_at, patch_loaded, BulkImport, BulkPatch, PatchError};
use pigweb_bulk::client::reject_patch;
use pigweb_bulk::patch::{perform_action, perform_actions, PatchAction};
use pigweb_bulk::{Timestamp, Uuid};

fn names(v: &[&str]) -> Vec<String> {
    v.iter().map(|s| s.to_string()).collect()
}

fn import(pending: &[&str], finished: Option<Timestamp>) -> BulkImport {
    BulkImport {
        id: Uuid { value: 3 },
        name: "batch".to_string(),
        creator: Uuid { value: 7 },
        started: Timestamp { micros: 1 },
        finished,
        pending: names(pending),
        accepted: vec![],
        rejected: vec![],
    }
}

#[test]
fn actions_apply_in_order() {
    let mut v = names(&["a", "b", "a"]);
    let actions = vec![
        PatchAction::ADD("c".to_string()),
        PatchAction::REMOVE("a".to_string()),
        PatchAction::UPDATE("a".to_string(), "z".to_string()),
        PatchAction::UPDATE("missing".to_string(), "y".to_string()),
    ];
    perform_actions(&actions, &mut v);
    assert_eq!(v, names(&["b", "z", "c"]));
}

#[test]
fn remove_absent_is_no_op() {
    let mut v = names(&["a", "b"]);
    perform_action(&PatchAction::REMOVE("x".to_string()), &mut v);
    assert_eq!(v, names(&["a", "b"]));
}

#[test]
fn remove_twice_same_as_once() {
    let mut once = names(&["a", "b", "c"]);
    perform_action(&PatchAction::REMOVE("b".to_string()), &mut once);
    let mut twice = names(&["a", "b", "c"]);
    perform_action(&PatchAction::REMOVE("b".to_string()), &mut twice);
    perform_action(&PatchAction::REMOVE("b".to_string()), &mut twice);
    assert_eq!(once, twice);
    assert_eq!(once, names(&["a", "c"]));
}

#[test]
fn remove_takes_first_occurrence_only() {
    let mut v = names(&["b", "a", "b"]);
    perform_action(&PatchAction::REMOVE("b".to_string()), &mut v);
    assert_eq!(v, names(&["a", "b"]));
}

#[test]
fn ids_bucket_supports_all_actions() {
    let mut v = vec![Uuid { value: 1 }, Uuid { value: 2 }];
    perform_action(&PatchAction::UPDATE(Uuid { value: 2 }, Uuid { value: 5 }), &mut v);
    perform_action(&PatchAction::REMOVE(Uuid { value: 1 }), &mut v);
    perform_action(&PatchAction::ADD(Uuid { value: 9 }), &mut v);
    assert_eq!(v, vec![Uuid { value: 5 }, Uuid { value: 9 }]);
}

#[test]
fn builder_collects_actions_per_bucket() {
    let p = BulkPatch::new(&Uuid { value: 3 })
        .pending(PatchAction::REMOVE("x".to_string()))
        .rejected(PatchAction::ADD("x".to_string()))
        .pending(PatchAction::ADD("y".to_string()));
    assert_eq!(p.pending.as_ref().map(|v| v.len()), Some(2));
    assert_eq!(p.rejected.as_ref().map(|v| v.len()), Some(1));
    assert!(p.accepted.is_none());
}

#[test]
fn reject_patch_moves_name_and_finishes() {
    let mut imp = import(&["x"], None);
    let p = reject_patch(&imp.id, &"x".to_string());
    apply_patch_at(&mut imp, &p, Timestamp { micros: 50 });
    assert!(imp.pending.is_empty());
    assert_eq!(imp.rejected, names(&["x"]));
    assert_eq!(imp.finished, Some(Timestamp { micros: 50 }));
}

#[test]
fn finished_invariant_after_partial_patch() {
    let mut imp = import(&["x", "y"], None);
    let p = reject_patch(&imp.id, &"x".to_string());
    apply_patch_at(&mut imp, &p, Timestamp { micros: 50 });
    assert_eq!(imp.pending, names(&["y"]));
    assert_eq!(imp.finished, None);
}

#[test]
fn finished_cleared_when_pending_refilled() {
    let mut imp = import(&[], Some(Timestamp { micros: 5 }));
    let p = BulkPatch::new(&imp.id).pending(PatchAction::ADD("again".to_string()));
    apply_patch_at(&mut imp, &p, Timestamp { micros: 50 });
    assert_eq!(imp.pending, names(&["again"]));
    assert_eq!(imp.finished, None);
}

#[test]
fn apply_patch_now_sets_finished() {
    let mut imp = import(&["x"], None);
    let p = reject_patch(&imp.id, &"x".to_string());
    apply_patch(&mut imp, &p);
    assert!(imp.finished.is_some());
}

#[test]
fn patch_loaded_errors() {
    let p = reject_patch(&Uuid { value: 3 }, &"x".to_string());
    assert_eq!(patch_loaded(vec![], &p, Timestamp { micros: 1 }).err(), Some(PatchError::NotFound));
    assert_eq!(
        patch_loaded(vec![import(&["x"], None), import(&["x"], None)], &p, Timestamp { micros: 1 }).err(),
        Some(PatchError::Ambiguous)
    );
    let mut other = import(&["x"], None);
    other.id = Uuid { value: 4 };
    assert_eq!(patch_loaded(vec![other], &p, Timestamp { micros: 1 }).err(), Some(PatchError::NotFound));
    let ok = patch_loaded(vec![import(&["x"], None)], &p, Timestamp { micros: 2 }).unwrap();
    assert_eq!(ok.rejected, names(&["x"]));
    assert_eq!(ok.finished, Some(Timestamp { micros: 2 }));
}

#[test]
fn new_import_is_unfinished_with_random_id() {
    let imp = BulkImport::new(&"n".to_string(), &Uuid { value: 7 }, &names(&["a"]), &vec![], &names(&["b"]));
    assert_eq!(imp.finished, None);
    assert_eq!((imp.id.value >> 76) & 0xf, 4);
    assert_eq!(imp.pending, names(&["a"]));
    assert_eq!(imp.rejected, names(&["b"]));
}

#[test]
fn new_import_at_given_start() {
    let imp = BulkImport::new_at(&"n".to_string(), &Uuid { value: 7 }, &vec![], &vec![], &vec![], Timestamp { micros: 42 });
    assert_eq!(imp.started, Timestamp { micros: 42 });
    assert_eq!(imp.finished, None);
}
