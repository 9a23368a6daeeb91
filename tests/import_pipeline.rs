use pigweb_bulk::bulk::{apply_patch_at, BulkImport};
use pigweb_bulk::client::accept_patch;
use pigweb_bulk::pipeline::{
    classify, normalize_name, same_ignoring_ascii_case, Bucket, Classification, ImportBuilder, Offer,
};
use pigweb_bulk::records::Pig;
use pigweb_bulk::{Timestamp, Uuid};

fn pig(id: u128, name: &str) -> Pig {
    Pig {
        id: Uuid { value: id },
        name: name.to_string(),
        created: Timestamp { micros: 0 },
        creator: Uuid { value: 7 },
    }
}

fn names(v: &[&str]) -> Vec<String> {
    v.iter().map(|s| s.to_string()).collect()
}

fn finish(b: ImportBuilder) -> BulkImport {
    b.finish_at(Uuid { value: 1 }, Uuid { value: 7 }, Timestamp { micros: 10 }, Timestamp { micros: 20 })
}

#[test]
fn exact_duplicate_is_rejected() {
    let mut b = ImportBuilder::new();
    let r = b.offer("Bob".to_string(), Some(vec![pig(5, "Bob")]));
    assert_eq!(r, Offer::Placed(Bucket::Rejected));
    let imp = finish(b);
    assert!(imp.pending.is_empty());
    assert!(imp.accepted.is_empty());
    assert_eq!(imp.rejected, names(&["Bob"]));
    assert_eq!(imp.finished, Some(Timestamp { micros: 20 }));
}

#[test]
fn empty_store_creates_record() {
    let mut b = ImportBuilder::new();
    let r = b.offer("Alice".to_string(), Some(vec![]));
    assert_eq!(r, Offer::CreateRecord);
    let created = Pig::new("Alice", &Uuid { value: 7 });
    assert_eq!(created.name, "Alice");
    assert_eq!(b.created(Some(created.id)), Bucket::Accepted);
    let imp = finish(b);
    assert!(imp.pending.is_empty());
    assert_eq!(imp.accepted, vec![created.id]);
    assert!(imp.rejected.is_empty());
    assert!(imp.finished.is_some());
    assert_eq!(imp.name, "Alice");
}

#[test]
fn ambiguous_name_stays_pending() {
    let mut b = ImportBuilder::new();
    let r = b.offer("Alice".to_string(), Some(vec![pig(1, "Alice Smith"), pig(2, "Alice Jones")]));
    assert_eq!(r, Offer::Placed(Bucket::Pending));
    let imp = finish(b);
    assert_eq!(imp.pending, names(&["Alice"]));
    assert!(imp.accepted.is_empty());
    assert!(imp.rejected.is_empty());
    assert_eq!(imp.finished, None);
}

#[test]
fn patch_resolves_pending_name() {
    let mut b = ImportBuilder::new();
    b.offer("Alice".to_string(), Some(vec![pig(1, "Alice Smith"), pig(2, "Alice Jones")]));
    let mut imp = finish(b);
    let new_id = Uuid { value: 99 };
    let patch = accept_patch(&imp.id, &"Alice".to_string(), &new_id);
    apply_patch_at(&mut imp, &patch, Timestamp { micros: 30 });
    assert!(imp.pending.is_empty());
    assert_eq!(imp.accepted, vec![new_id]);
    assert_eq!(imp.finished, Some(Timestamp { micros: 30 }));
}

#[test]
fn batch_internal_dedup_skips_repeated_pending_name() {
    let ambiguous = || Some(vec![pig(1, "Bob Smith"), pig(2, "Bob Jones")]);
    let mut b = ImportBuilder::new();
    assert!(b.needs_lookup(&"Bob".to_string()));
    assert_eq!(b.offer("Bob".to_string(), ambiguous()), Offer::Placed(Bucket::Pending));
    assert!(!b.needs_lookup(&"Bob".to_string()));
    assert_eq!(b.offer("Bob".to_string(), Some(vec![pig(3, "Bob")])), Offer::Skipped);
    assert_eq!(b.offer("Alice".to_string(), Some(vec![pig(4, "Alice")])), Offer::Placed(Bucket::Rejected));
    let imp = finish(b);
    assert_eq!(imp.pending, names(&["Bob"]));
    assert_eq!(imp.rejected, names(&["Alice"]));
    assert_eq!(imp.name, "Bob");
}

#[test]
fn same_name_classified_the_same_in_two_batches() {
    let matches = || Some(vec![pig(1, "Carol Ann")]);
    let mut first = ImportBuilder::new();
    first.offer("Zed".to_string(), Some(vec![pig(8, "Zed A"), pig(9, "Zed B")]));
    let mut second = ImportBuilder::new();
    assert_eq!(first.offer("Carol".to_string(), matches()), second.offer("Carol".to_string(), matches()));
}

#[test]
fn detector_failure_then_creation_failure_defers() {
    let mut b = ImportBuilder::new();
    assert_eq!(b.offer("Dora".to_string(), None), Offer::CreateRecord);
    assert_eq!(b.created(None), Bucket::Pending);
    let imp = finish(b);
    assert_eq!(imp.pending, names(&["Dora"]));
    assert_eq!(imp.finished, None);
}

#[test]
fn case_insensitive_single_match_is_duplicate() {
    assert_eq!(classify(&"bob".to_string(), &Some(vec![pig(1, "BOB")])), Classification::Duplicate);
    assert_eq!(classify(&"bob".to_string(), &Some(vec![pig(1, "Bobby")])), Classification::Ambiguous);
    assert_eq!(
        classify(&"bob".to_string(), &Some(vec![pig(1, "bob"), pig(2, "Bob Smith")])),
        Classification::Ambiguous
    );
    assert_eq!(classify(&"bob".to_string(), &None), Classification::New);
    assert!(same_ignoring_ascii_case("MiXeD", "mixed"));
    assert!(!same_ignoring_ascii_case("mixed", "mixe"));
}

#[test]
fn normalization_trims_and_plains_punctuation() {
    assert_eq!(normalize_name("  \u{201C}Bob\u{2019}s\u{201D} \u{2014} Jr\t"), "\"Bob's\" - Jr");
    assert_eq!(normalize_name("a\u{2012}b\u{2013}c\u{2E3A}d\u{2E3B}e\u{2018}"), "a-b-c-d-e'");
    assert_eq!(normalize_name("   "), "");
    assert_eq!(normalize_name("Bob"), "Bob");
    assert_eq!(normalize_name("\u{3000}Bob\u{A0}\u{2028}"), "Bob");
}

#[test]
fn empty_batch_is_finished() {
    let imp = finish(ImportBuilder::new());
    assert_eq!(imp.name, "");
    assert!(imp.pending.is_empty());
    assert_eq!(imp.finished, Some(Timestamp { micros: 20 }));
}

#[test]
fn finish_gives_random_identifier() {
    let mut b = ImportBuilder::new();
    b.offer("Eve".to_string(), Some(vec![pig(1, "eve")]));
    let imp = b.finish(Uuid { value: 7 }, Timestamp { micros: 1 });
    assert_eq!((imp.id.value >> 76) & 0xf, 4);
    assert_eq!((imp.id.value >> 62) & 0x3, 2);
    assert!(imp.finished.is_some());
    assert_eq!(imp.creator, Uuid { value: 7 });
}

#[test]
fn repeated_rejected_name_is_skipped() {
    let mut b = ImportBuilder::new();
    assert_eq!(b.offer("Bob".to_string(), Some(vec![pig(5, "Bob")])), Offer::Placed(Bucket::Rejected));
    assert!(!b.needs_lookup(&"Bob".to_string()));
    assert_eq!(b.offer("Bob".to_string(), Some(vec![pig(5, "Bob")])), Offer::Skipped);
    assert_eq!(b.offer("Alice".to_string(), Some(vec![])), Offer::CreateRecord);
    b.created(Some(Uuid { value: 11 }));
    let imp = finish(b);
    assert_eq!(imp.rejected, names(&["Bob"]));
    assert_eq!(imp.accepted, vec![Uuid { value: 11 }]);
    assert!(imp.pending.is_empty());
}

#[test]
fn repeated_accepted_name_is_skipped() {
    let mut b = ImportBuilder::new();
    assert_eq!(b.offer("Bob".to_string(), Some(vec![])), Offer::CreateRecord);
    b.created(Some(Uuid { value: 12 }));
    assert_eq!(b.accepted_names, names(&["Bob"]));
    assert_eq!(b.offer("Bob".to_string(), Some(vec![pig(12, "Bob")])), Offer::Skipped);
    let imp = finish(b);
    assert_eq!(imp.accepted, vec![Uuid { value: 12 }]);
    assert!(imp.rejected.is_empty());
    assert!(imp.pending.is_empty());
}

#[test]
fn buckets_hold_one_entry_per_distinct_name() {
    let mut b = ImportBuilder::new();
    for n in ["A", "B", "A", "C", "B", "A"] {
        let matches = match n {
            "A" => Some(vec![pig(1, "a")]),
            "B" => Some(vec![pig(2, "B x"), pig(3, "B y")]),
            _ => Some(vec![]),
        };
        if b.offer(n.to_string(), matches) == Offer::CreateRecord {
            b.created(None);
        }
    }
    let imp = finish(b);
    assert_eq!(imp.pending.len() + imp.accepted.len() + imp.rejected.len(), 3);
    assert_eq!(imp.rejected, names(&["A"]));
    assert_eq!(imp.pending, names(&["B", "C"]));
}
