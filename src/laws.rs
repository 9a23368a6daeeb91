//! Properties that hold across calls: of the bucket partition, of the
//! `finished` stamp, of repeated removals and of classification.
use crate::bulk::{finished_after, BulkImport};
use crate::patch::{apply_action, PatchAction};
use crate::pipeline::{offer_result, Bucket, ImportBuilder, Offer};
use vstd::prelude::*;

verus! {

/// Three distinct, pairwise disjoint sequences have a distinct
/// concatenation.
proof fn lemma_concat_distinct(p: Seq<Seq<char>>, a: Seq<Seq<char>>, r: Seq<Seq<char>>)
    requires
        p.no_duplicates(),
        a.no_duplicates(),
        r.no_duplicates(),
        p.disjoint(a),
        p.disjoint(r),
        a.disjoint(r),
    ensures
        (p + a + r).no_duplicates(),
{
    let all = p + a + r;
    let lp = p.len() as int;
    let la = a.len() as int;
    assert forall|x: int, y: int| 0 <= x < all.len() && 0 <= y < all.len() && x != y implies all[x]
        != all[y] by {
        if x < lp && y < lp {
            assert(all[x] == p[x] && all[y] == p[y]);
        } else if x < lp && y < lp + la {
            assert(all[x] == p[x] && all[y] == a[y - lp]);
        } else if x < lp {
            assert(all[x] == p[x] && all[y] == r[y - lp - la]);
        } else if x < lp + la && y < lp {
            assert(all[x] == a[x - lp] && all[y] == p[y]);
        } else if x < lp + la && y < lp + la {
            assert(all[x] == a[x - lp] && all[y] == a[y - lp]);
        } else if x < lp + la {
            assert(all[x] == a[x - lp] && all[y] == r[y - lp - la]);
        } else if y < lp {
            assert(all[x] == r[x - lp - la] && all[y] == p[y]);
        } else if y < lp + la {
            assert(all[x] == r[x - lp - la] && all[y] == a[y - lp]);
        } else {
            assert(all[x] == r[x - lp - la] && all[y] == r[y - lp - la]);
        }
    }
}

/// Every name placed into a batch sits in a bucket slot that holds it (for
/// `accepted`, the identifier created for it). No name sits in two buckets,
/// nor twice in one, so the buckets hold together exactly as many entries as
/// there are distinct names among those placed: a name repeated in the
/// batch is counted once.
pub proof fn lemma_bucket_partition(b: ImportBuilder)
    requires
        b.wf(),
    ensures
        forall|i: int| 0 <= i < b.inputs@.len() ==> #[trigger] b.in_slot(i),
        b.pending_names().no_duplicates(),
        b.accepted_for().no_duplicates(),
        b.rejected_names().no_duplicates(),
        b.pending_names().disjoint(b.accepted_for()),
        b.pending_names().disjoint(b.rejected_names()),
        b.accepted_for().disjoint(b.rejected_names()),
        b.placed_names().to_set() == b.inputs@.to_set(),
        b.pending@.len() + b.accepted@.len() + b.rejected@.len() == b.inputs@.to_set().len(),
{
    let all = b.placed_names();
    lemma_concat_distinct(b.pending_names(), b.accepted_for(), b.rejected_names());
    assert forall|x: Seq<char>| all.to_set().contains(x) implies b.inputs@.to_set().contains(x) by {
        b.lemma_placed_names(x);
        if b.pending_names().contains(x) {
            let j = choose|j: int| 0 <= j < b.pending_names().len() && b.pending_names()[j] == x;
            assert(b.owned(Bucket::Pending, j, b.pending_owner@));
            assert(b.in_slot(b.pending_owner@[j]));
            assert(b.inputs@[b.pending_owner@[j]] == x);
        } else if b.accepted_for().contains(x) {
            let j = choose|j: int| 0 <= j < b.accepted_for().len() && b.accepted_for()[j] == x;
            assert(b.owned(Bucket::Accepted, j, b.accepted_owner@));
            assert(b.in_slot(b.accepted_owner@[j]));
            assert(b.inputs@[b.accepted_owner@[j]] == x);
        } else {
            let j = choose|j: int| 0 <= j < b.rejected_names().len() && b.rejected_names()[j] == x;
            assert(b.owned(Bucket::Rejected, j, b.rejected_owner@));
            assert(b.in_slot(b.rejected_owner@[j]));
            assert(b.inputs@[b.rejected_owner@[j]] == x);
        }
    }
    assert forall|x: Seq<char>| b.inputs@.to_set().contains(x) implies all.to_set().contains(x) by {
        let i = choose|i: int| 0 <= i < b.inputs@.len() && b.inputs@[i] == x;
        assert(b.in_slot(i));
        let (bk, j) = b.slots@[i];
        if bk == Bucket::Pending {
            assert(b.pending_names()[j] == x);
        } else if bk == Bucket::Accepted {
            assert(b.accepted_for()[j] == x);
        } else {
            assert(b.rejected_names()[j] == x);
        }
        b.lemma_placed_names(x);
    }
    assert(all.to_set() =~= b.inputs@.to_set());
    all.unique_seq_to_set();
    assert(all.len() == b.pending@.len() + b.accepted@.len() + b.rejected@.len());
}

/// After the patch engine, `finished` is set exactly when nothing is
/// pending, whatever it was before the patch.
pub proof fn lemma_finished_after_patch(after: BulkImport, at: crate::ids::Timestamp)
    requires
        after.finished == finished_after(after.pending@.len(), at),
    ensures
        after.finished_matches_pending(),
{
}

/// Removing a value twice leaves a bucket as removing it once does, when the
/// value occurs in it at most once.
pub proof fn lemma_remove_twice<V>(s: Seq<V>, x: V)
    requires
        forall|i: int, j: int| 0 <= i < j < s.len() && s[i] == x ==> s[j] != x,
    ensures
        apply_action(apply_action(s, PatchAction::REMOVE(x)), PatchAction::REMOVE(x)) == apply_action(
            s,
            PatchAction::REMOVE(x),
        ),
{
    let once = s.remove_value(x);
    s.index_of_first_ensures(x);
    if s.contains(x) {
        let i = s.index_of_first(x).unwrap();
        s.remove_ensures(i);
        if once.contains(x) {
            let k = choose|k: int| 0 <= k < once.len() && once[k] == x;
            if k < i {
                assert(s[k] == x);
            } else {
                assert(s[k + 1] == x);
            }
        }
    }
    once.index_of_first_ensures(x);
}

/// Removing or updating a value that a bucket does not hold changes nothing:
/// such actions are safe to retry.
pub proof fn lemma_absent_value_no_op<V>(s: Seq<V>, x: V, y: V)
    requires
        !s.contains(x),
    ensures
        apply_action(s, PatchAction::REMOVE(x)) == s,
        apply_action(s, PatchAction::UPDATE(x, y)) == s,
{
    s.index_of_first_ensures(x);
}

/// A name not yet placed in either of two batches is classified the same
/// way in both, given the same detector answer.
pub proof fn lemma_classification_deterministic(
    placed_a: Seq<Seq<char>>,
    placed_b: Seq<Seq<char>>,
    name: Seq<char>,
    matches: Option<Seq<Seq<char>>>,
)
    requires
        !placed_a.contains(name),
        !placed_b.contains(name),
    ensures
        offer_result(placed_a, name, matches) == offer_result(placed_b, name, matches),
{
}

/// Once a name was placed in a batch, in whatever bucket, offering it again
/// adds nothing, whatever the detector answers this time. (`offer` and
/// `created` say in their `ensures` that they place the name they handle.)
pub proof fn lemma_repeated_name_skipped(
    b: ImportBuilder,
    name: Seq<char>,
    second: Option<Seq<Seq<char>>>,
)
    requires
        b.wf(),
        b.placed_names().contains(name),
    ensures
        offer_result(b.placed_names(), name, second) == Offer::Skipped,
{
}

} // verus!
