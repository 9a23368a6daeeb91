//! Creation of an import from a pasted batch of names.
//!
//! Each name is normalised, skipped if it is already pending in the batch,
//! and otherwise classified from what the duplicate detector found for it.
//! Looking names up and creating records are the caller's work: the
//! [`ImportBuilder`] says what to do next and records what came back.
use crate::bulk::BulkImport;
use crate::ids::{now, random_uuid, Timestamp, Uuid};
use crate::patch::{bucket_view, find_first};
use crate::records::{names_of, Pig};
use crate::text::{push_char, trim, trimmed};
use vstd::prelude::*;

verus! {

/// Typographic quotes and dashes mapped to their plain ASCII forms; every
/// other character unchanged.
pub open spec fn plain_char(c: char) -> char {
    if c == '\u{201C}' || c == '\u{201D}' {
        '"'
    } else if c == '\u{2018}' || c == '\u{2019}' {
        '\''
    } else if c == '\u{2012}' || c == '\u{2013}' || c == '\u{2014}' || c == '\u{2E3A}' || c
        == '\u{2E3B}' {
        '-'
    } else {
        c
    }
}

fn to_plain_char(c: char) -> (r: char)
    ensures
        r == plain_char(c),
{
    if c == '\u{201C}' || c == '\u{201D}' {
        '"'
    } else if c == '\u{2018}' || c == '\u{2019}' {
        '\''
    } else if c == '\u{2012}' || c == '\u{2013}' || c == '\u{2014}' || c == '\u{2E3A}' || c
        == '\u{2E3B}' {
        '-'
    } else {
        c
    }
}

/// A raw name as the import stores it: trimmed, with typographic quotes and
/// dashes made plain.
pub open spec fn normalized(s: Seq<char>) -> Seq<char> {
    trimmed(s).map_values(|c: char| plain_char(c))
}

/// Normalises one raw name.
pub fn normalize_name(input: &str) -> (r: String)
    ensures
        r@ == normalized(input@),
{
    let t = trim(input);
    let n = t.unicode_len();
    let mut r = String::new();
    let mut i: usize = 0;
    while i < n
        invariant
            n == t@.len(),
            t@ == trimmed(input@),
            0 <= i <= n,
            r@ == t@.subrange(0, i as int).map_values(|c: char| plain_char(c)),
        decreases n - i,
    {
        let c = t.get_char(i);
        push_char(&mut r, to_plain_char(c));
        assert(t@.subrange(0, i as int + 1) =~= t@.subrange(0, i as int).push(c));
        i = i + 1;
    }
    assert(t@.subrange(0, n as int) =~= t@);
    r
}

/// The character code with ASCII upper-case letters mapped to lower case.
pub open spec fn ascii_lower_code(c: char) -> u32 {
    if 65 <= c as u32 <= 90 {
        (c as u32 + 32) as u32
    } else {
        c as u32
    }
}

/// Whether two texts are equal once ASCII letters are folded to lower case.
pub open spec fn eq_ignore_ascii_case(a: Seq<char>, b: Seq<char>) -> bool {
    a.len() == b.len() && forall|i: int|
        0 <= i < a.len() ==> ascii_lower_code(#[trigger] a[i]) == ascii_lower_code(b[i])
}

fn lower_code(c: char) -> (r: u32)
    ensures
        r == ascii_lower_code(c),
{
    let v = c as u32;
    if 65 <= v && v <= 90 {
        v + 32
    } else {
        v
    }
}

/// Compares two texts with ASCII letters folded to lower case.
pub fn same_ignoring_ascii_case(a: &str, b: &str) -> (r: bool)
    ensures
        r == eq_ignore_ascii_case(a@, b@),
{
    let n = a.unicode_len();
    if n != b.unicode_len() {
        return false;
    }
    let mut i: usize = 0;
    while i < n
        invariant
            n == a@.len(),
            n == b@.len(),
            0 <= i <= n,
            forall|j: int| 0 <= j < i ==> ascii_lower_code(#[trigger] a@[j]) == ascii_lower_code(
                b@[j],
            ),
        decreases n - i,
    {
        if lower_code(a.get_char(i)) != lower_code(b.get_char(i)) {
            return false;
        }
        i = i + 1;
    }
    true
}

/// How the duplicate detector's answer classifies a name.
#[derive(Clone, Copy, Debug, PartialEq, Eq, Structural)]
pub enum Classification {
    /// The one match is the name itself, up to ASCII case: reject the name.
    Duplicate,
    /// Matches that need an operator's judgement: keep the name pending.
    Ambiguous,
    /// No match, or the detector failed: create a record for the name.
    New,
}

/// The classification of `name` from the names of the detector's matches,
/// `None` when the detector failed.
pub open spec fn classification_of(name: Seq<char>, matches: Option<Seq<Seq<char>>>) -> Classification {
    match matches {
        None => Classification::New,
        Some(m) => if m.len() == 0 {
            Classification::New
        } else if m.len() == 1 && eq_ignore_ascii_case(m[0], name) {
            Classification::Duplicate
        } else {
            Classification::Ambiguous
        },
    }
}

/// The names of the detector's matches, `None` when it failed.
pub open spec fn match_names(matches: Option<Vec<Pig>>) -> Option<Seq<Seq<char>>> {
    match matches {
        Some(v) => Some(names_of(v@)),
        None => None,
    }
}

/// Classifies a normalised name from the detector's matches (`None` when the
/// detector failed).
pub fn classify(name: &String, matches: &Option<Vec<Pig>>) -> (r: Classification)
    ensures
        r == classification_of(name@, match_names(*matches)),
{
    match matches {
        None => Classification::New,
        Some(m) => {
            if m.len() == 0 {
                Classification::New
            } else if m.len() == 1 && same_ignoring_ascii_case(m[0].name.as_str(), name.as_str()) {
                Classification::Duplicate
            } else {
                Classification::Ambiguous
            }
        },
    }
}

/// One of the three buckets of an import.
#[derive(Clone, Copy, Debug, PartialEq, Eq, Structural)]
pub enum Bucket {
    Pending,
    Accepted,
    Rejected,
}

/// What the builder made of an offered name.
#[derive(Clone, Copy, Debug, PartialEq, Eq, Structural)]
pub enum Offer {
    /// The name was already pending in this batch; nothing was added.
    Skipped,
    /// The name went into this bucket.
    Placed(Bucket),
    /// A record must be created for the name; report the outcome with
    /// [`ImportBuilder::created`].
    CreateRecord,
}

/// What offering `name` does, given the names already placed in the batch
/// and the detector's answer: a name placed before, in any bucket, is
/// skipped.
pub open spec fn offer_result(
    placed: Seq<Seq<char>>,
    name: Seq<char>,
    matches: Option<Seq<Seq<char>>>,
) -> Offer {
    if placed.contains(name) {
        Offer::Skipped
    } else {
        match classification_of(name, matches) {
            Classification::Duplicate => Offer::Placed(Bucket::Rejected),
            Classification::Ambiguous => Offer::Placed(Bucket::Pending),
            Classification::New => Offer::CreateRecord,
        }
    }
}

/// The state of an import under creation.
///
/// Besides the three buckets it keeps the name each accepted identifier was
/// created for, and, as ghost state, every name offered and placed so far
/// (`inputs`) with the bucket slot that holds it (`slots`), and for each
/// slot of each bucket the input that owns it.
pub struct ImportBuilder {
    /// The first name offered.
    pub name: Option<String>,
    pub pending: Vec<String>,
    pub accepted: Vec<Uuid>,
    pub rejected: Vec<String>,
    /// The name each accepted identifier was created for.
    pub accepted_names: Vec<String>,
    /// The name whose record is being created, if any.
    pub awaiting: Option<String>,
    pub inputs: Ghost<Seq<Seq<char>>>,
    pub slots: Ghost<Seq<(Bucket, int)>>,
    pub pending_owner: Ghost<Seq<int>>,
    pub accepted_owner: Ghost<Seq<int>>,
    pub rejected_owner: Ghost<Seq<int>>,
}

impl ImportBuilder {
    pub open spec fn pending_names(&self) -> Seq<Seq<char>> {
        bucket_view(self.pending@)
    }

    pub open spec fn accepted_ids(&self) -> Seq<u128> {
        bucket_view(self.accepted@)
    }

    pub open spec fn rejected_names(&self) -> Seq<Seq<char>> {
        bucket_view(self.rejected@)
    }

    pub open spec fn accepted_for(&self) -> Seq<Seq<char>> {
        bucket_view(self.accepted_names@)
    }

    /// Every name placed in the batch: pending, accepted (by the name its
    /// record was created for) and rejected.
    pub open spec fn placed_names(&self) -> Seq<Seq<char>> {
        self.pending_names() + self.accepted_for() + self.rejected_names()
    }

    /// Whether the name occurs in one of the buckets.
    pub open spec fn is_placed(&self, name: Seq<char>) -> bool {
        self.pending_names().contains(name) || self.accepted_for().contains(name)
            || self.rejected_names().contains(name)
    }

    /// Input `i` sits in its slot: the slot exists and holds the input (for
    /// an accepted slot, the identifier was created for the input).
    pub open spec fn in_slot(&self, i: int) -> bool {
        let (b, j) = self.slots@[i];
        match b {
            Bucket::Pending => 0 <= j < self.pending@.len() && self.pending_names()[j]
                == self.inputs@[i],
            Bucket::Accepted => 0 <= j < self.accepted@.len() && self.accepted_for()[j]
                == self.inputs@[i],
            Bucket::Rejected => 0 <= j < self.rejected@.len() && self.rejected_names()[j]
                == self.inputs@[i],
        }
    }

    /// Slot `j` of bucket `b` is owned by an input that sits there.
    pub open spec fn owned(&self, b: Bucket, j: int, owner: Seq<int>) -> bool {
        0 <= owner[j] < self.inputs@.len() && self.slots@[owner[j]] == (b, j)
    }

    pub open spec fn wf(&self) -> bool {
        &&& self.slots@.len() == self.inputs@.len()
        &&& self.accepted_names@.len() == self.accepted@.len()
        &&& self.pending_owner@.len() == self.pending@.len()
        &&& self.accepted_owner@.len() == self.accepted@.len()
        &&& self.rejected_owner@.len() == self.rejected@.len()
        &&& forall|i: int| 0 <= i < self.inputs@.len() ==> #[trigger] self.in_slot(i)
        &&& forall|j: int|
            0 <= j < self.pending@.len() ==> #[trigger] self.owned(
                Bucket::Pending,
                j,
                self.pending_owner@,
            )
        &&& forall|j: int|
            0 <= j < self.accepted@.len() ==> #[trigger] self.owned(
                Bucket::Accepted,
                j,
                self.accepted_owner@,
            )
        &&& forall|j: int|
            0 <= j < self.rejected@.len() ==> #[trigger] self.owned(
                Bucket::Rejected,
                j,
                self.rejected_owner@,
            )
        &&& self.pending_names().no_duplicates()
        &&& self.accepted_for().no_duplicates()
        &&& self.rejected_names().no_duplicates()
        &&& self.pending_names().disjoint(self.accepted_for())
        &&& self.pending_names().disjoint(self.rejected_names())
        &&& self.accepted_for().disjoint(self.rejected_names())
        &&& self.awaiting is Some ==> !self.is_placed(self.awaiting->0@)
    }

    /// The names placed are those of the three buckets.
    pub proof fn lemma_placed_names(&self, name: Seq<char>)
        ensures
            self.placed_names().contains(name) <==> self.is_placed(name),
    {
        let p = self.pending_names();
        let a = self.accepted_for();
        let r = self.rejected_names();
        let all = self.placed_names();
        assert(all.len() == p.len() + a.len() + r.len());
        if all.contains(name) {
            let k = choose|k: int| 0 <= k < all.len() && all[k] == name;
            if k < p.len() {
                assert(p[k] == name);
            } else if k < p.len() + a.len() {
                assert(a[k - p.len()] == name);
            } else {
                assert(r[k - p.len() - a.len()] == name);
            }
        }
        if p.contains(name) {
            let k = choose|k: int| 0 <= k < p.len() && p[k] == name;
            assert(all[k] == name);
        }
        if a.contains(name) {
            let k = choose|k: int| 0 <= k < a.len() && a[k] == name;
            assert(all[k + p.len()] == name);
        }
        if r.contains(name) {
            let k = choose|k: int| 0 <= k < r.len() && r[k] == name;
            assert(all[k + p.len() + a.len()] == name);
        }
    }

    /// An empty batch.
    pub fn new() -> (r: ImportBuilder)
        ensures
            r.wf(),
            r.name is None,
            r.awaiting is None,
            r.inputs@.len() == 0,
            r.pending@.len() == 0,
            r.accepted@.len() == 0,
            r.rejected@.len() == 0,
            r.accepted_names@.len() == 0,
    {
        ImportBuilder {
            name: None,
            pending: Vec::new(),
            accepted: Vec::new(),
            rejected: Vec::new(),
            accepted_names: Vec::new(),
            awaiting: None,
            inputs: Ghost(Seq::empty()),
            slots: Ghost(Seq::empty()),
            pending_owner: Ghost(Seq::empty()),
            accepted_owner: Ghost(Seq::empty()),
            rejected_owner: Ghost(Seq::empty()),
        }
    }

    /// The bucket slot that holds `name`, if it was placed.
    fn find_placed(&self, name: &String) -> (r: Option<(Bucket, usize)>)
        requires
            self.wf(),
        ensures
            r is None <==> !self.is_placed(name@),
            r matches Some((b, j)) ==> match b {
                Bucket::Pending => j < self.pending@.len() && self.pending_names()[j as int] == name@,
                Bucket::Accepted => j < self.accepted@.len() && self.accepted_for()[j as int]
                    == name@,
                Bucket::Rejected => j < self.rejected@.len() && self.rejected_names()[j as int]
                    == name@,
            },
    {
        proof {
            self.pending_names().index_of_first_ensures(name@);
            self.accepted_for().index_of_first_ensures(name@);
            self.rejected_names().index_of_first_ensures(name@);
        }
        if let Some(j) = find_first(&self.pending, name) {
            return Some((Bucket::Pending, j));
        }
        if let Some(j) = find_first(&self.accepted_names, name) {
            return Some((Bucket::Accepted, j));
        }
        if let Some(j) = find_first(&self.rejected, name) {
            return Some((Bucket::Rejected, j));
        }
        None
    }

    /// Whether `name` still has to be looked up: it was not placed in this
    /// batch yet.
    pub fn needs_lookup(&self, name: &String) -> (r: bool)
        requires
            self.wf(),
        ensures
            r == !self.placed_names().contains(name@),
    {
        proof {
            self.lemma_placed_names(name@);
        }
        self.find_placed(name).is_none()
    }

    /// Offers the next normalised name with the detector's matches for it
    /// (`None` when the detector failed). A name already placed in this
    /// batch, in any bucket, is skipped.
    pub fn offer(&mut self, name: String, matches: Option<Vec<Pig>>) -> (r: Offer)
        requires
            old(self).wf(),
            old(self).awaiting is None,
        ensures
            final(self).wf(),
            r == offer_result(old(self).placed_names(), name@, match_names(matches)),
            final(self).name == if old(self).name is None {
                Some(name)
            } else {
                old(self).name
            },
            final(self).pending_names() == if r == Offer::Placed(Bucket::Pending) {
                old(self).pending_names().push(name@)
            } else {
                old(self).pending_names()
            },
            final(self).rejected_names() == if r == Offer::Placed(Bucket::Rejected) {
                old(self).rejected_names().push(name@)
            } else {
                old(self).rejected_names()
            },
            final(self).accepted == old(self).accepted,
            final(self).accepted_names == old(self).accepted_names,
            final(self).awaiting == if r == Offer::CreateRecord {
                Some(name)
            } else {
                None::<String>
            },
            r != Offer::CreateRecord ==> final(self).inputs@ == old(self).inputs@.push(name@),
            r != Offer::CreateRecord ==> final(self).placed_names().contains(name@),
            r == Offer::CreateRecord ==> final(self).inputs@ == old(self).inputs@,
    {
        let ghost old_self = *self;
        proof {
            self.lemma_placed_names(name@);
        }
        let found = self.find_placed(&name);
        if self.name.is_none() {
            self.name = Some(name.clone());
        }
        if let Some((b, j)) = found {
            let ghost i = self.inputs@.len() as int;
            self.inputs = Ghost(self.inputs@.push(name@));
            self.slots = Ghost(self.slots@.push((b, j as int)));
            proof {
                self.lemma_skipped(old_self, i);
                self.lemma_placed_names(name@);
            }
            return Offer::Skipped;
        }
        let class = classify(&name, &matches);
        match class {
            Classification::Duplicate => {
                let ghost i = self.inputs@.len() as int;
                let ghost j = self.rejected@.len() as int;
                self.rejected.push(name);
                self.inputs = Ghost(self.inputs@.push(self.rejected@[j]@));
                self.slots = Ghost(self.slots@.push((Bucket::Rejected, j)));
                self.rejected_owner = Ghost(self.rejected_owner@.push(i));
                proof {
                    assert(self.rejected_names() =~= old_self.rejected_names().push(self.inputs@[i]));
                    self.lemma_placed_fresh(old_self, i, Bucket::Rejected, j);
                    assert(self.rejected_names()[j] == self.inputs@[i]);
                    self.lemma_placed_names(self.inputs@[i]);
                }
                Offer::Placed(Bucket::Rejected)
            },
            Classification::Ambiguous => {
                let ghost i = self.inputs@.len() as int;
                let ghost j = self.pending@.len() as int;
                self.pending.push(name);
                self.inputs = Ghost(self.inputs@.push(self.pending@[j]@));
                self.slots = Ghost(self.slots@.push((Bucket::Pending, j)));
                self.pending_owner = Ghost(self.pending_owner@.push(i));
                proof {
                    assert(self.pending_names() =~= old_self.pending_names().push(self.inputs@[i]));
                    self.lemma_placed_fresh(old_self, i, Bucket::Pending, j);
                    assert(self.pending_names()[j] == self.inputs@[i]);
                    self.lemma_placed_names(self.inputs@[i]);
                }
                Offer::Placed(Bucket::Pending)
            },
            Classification::New => {
                self.awaiting = Some(name);
                proof {
                    assert forall|k: int| 0 <= k < self.inputs@.len() implies #[trigger] self.in_slot(k) by {
                        assert(old_self.in_slot(k));
                    }
                    assert forall|j2: int| 0 <= j2 < self.pending@.len() implies #[trigger] self.owned(
                        Bucket::Pending,
                        j2,
                        self.pending_owner@,
                    ) by {
                        assert(old_self.owned(Bucket::Pending, j2, old_self.pending_owner@));
                    }
                    assert forall|j2: int| 0 <= j2 < self.accepted@.len() implies #[trigger] self.owned(
                        Bucket::Accepted,
                        j2,
                        self.accepted_owner@,
                    ) by {
                        assert(old_self.owned(Bucket::Accepted, j2, old_self.accepted_owner@));
                    }
                    assert forall|j2: int| 0 <= j2 < self.rejected@.len() implies #[trigger] self.owned(
                        Bucket::Rejected,
                        j2,
                        self.rejected_owner@,
                    ) by {
                        assert(old_self.owned(Bucket::Rejected, j2, old_self.rejected_owner@));
                    }
                }
                Offer::CreateRecord
            },
        }
    }

    /// Reports the outcome of creating a record for the awaited name: its
    /// identifier goes to `accepted`, or, when creation failed, the name goes
    /// to `pending`.
    pub fn created(&mut self, id: Option<Uuid>) -> (r: Bucket)
        requires
            old(self).wf(),
            old(self).awaiting is Some,
        ensures
            final(self).wf(),
            final(self).awaiting is None,
            final(self).name == old(self).name,
            final(self).inputs@ == old(self).inputs@.push(old(self).awaiting->0@),
            final(self).placed_names().contains(old(self).awaiting->0@),
            id is Some ==> {
                &&& r == Bucket::Accepted
                &&& final(self).accepted_ids() == old(self).accepted_ids().push(id->0@)
                &&& final(self).accepted_for() == old(self).accepted_for().push(
                    old(self).awaiting->0@,
                )
                &&& final(self).pending_names() == old(self).pending_names()
            },
            id is None ==> {
                &&& r == Bucket::Pending
                &&& final(self).accepted_ids() == old(self).accepted_ids()
                &&& final(self).accepted_for() == old(self).accepted_for()
                &&& final(self).pending_names() == old(self).pending_names().push(
                    old(self).awaiting->0@,
                )
            },
            final(self).rejected_names() == old(self).rejected_names(),
    {
        let ghost old_self = *self;
        let name = self.awaiting.take().unwrap();
        let ghost i = self.inputs@.len() as int;
        self.inputs = Ghost(self.inputs@.push(name@));
        match id {
            Some(id) => {
                let ghost j = self.accepted@.len() as int;
                self.accepted.push(id);
                self.accepted_names.push(name);
                self.slots = Ghost(self.slots@.push((Bucket::Accepted, j)));
                self.accepted_owner = Ghost(self.accepted_owner@.push(i));
                proof {
                    assert(self.accepted_ids() =~= old_self.accepted_ids().push(id@));
                    assert(self.accepted_for() =~= old_self.accepted_for().push(self.inputs@[i]));
                    self.lemma_placed_fresh(old_self, i, Bucket::Accepted, j);
                    assert(self.accepted_for()[j] == self.inputs@[i]);
                    self.lemma_placed_names(self.inputs@[i]);
                }
                Bucket::Accepted
            },
            None => {
                let ghost j = self.pending@.len() as int;
                self.pending.push(name);
                self.slots = Ghost(self.slots@.push((Bucket::Pending, j)));
                self.pending_owner = Ghost(self.pending_owner@.push(i));
                proof {
                    assert(self.pending_names() =~= old_self.pending_names().push(self.inputs@[i]));
                    self.lemma_placed_fresh(old_self, i, Bucket::Pending, j);
                    assert(self.pending_names()[j] == self.inputs@[i]);
                    self.lemma_placed_names(self.inputs@[i]);
                }
                Bucket::Pending
            },
        }
    }

    /// The import made of this batch, with identifier `id`, started at
    /// `started` and closed at `at`: `finished` is `at` when nothing is
    /// pending, else unset. Its label is the first name offered (empty when
    /// none was).
    pub fn finish_at(self, id: Uuid, creator: Uuid, started: Timestamp, at: Timestamp) -> (r: BulkImport)
        requires
            self.wf(),
            self.awaiting is None,
        ensures
            r.id == id,
            r.creator == creator,
            r.started == started,
            r.name@ == match self.name {
                Some(n) => n@,
                None => Seq::<char>::empty(),
            },
            r.pending@ == self.pending@,
            r.accepted@ == self.accepted@,
            r.rejected@ == self.rejected@,
            r.finished == if self.pending@.len() == 0 {
                Some(at)
            } else {
                None::<Timestamp>
            },
            r.finished_matches_pending(),
    {
        let finished = if self.pending.len() == 0 {
            Some(at)
        } else {
            None
        };
        let name = match self.name {
            Some(n) => n,
            None => String::new(),
        };
        BulkImport {
            id,
            name,
            creator,
            started,
            finished,
            pending: self.pending,
            accepted: self.accepted,
            rejected: self.rejected,
        }
    }

    /// The import made of this batch, with a fresh random identifier, closed
    /// now (see [`ImportBuilder::finish_at`]).
    pub fn finish(self, creator: Uuid, started: Timestamp) -> (r: BulkImport)
        requires
            self.wf(),
            self.awaiting is None,
        ensures
            r.id.is_random(),
            r.creator == creator,
            r.started == started,
            r.name@ == match self.name {
                Some(n) => n@,
                None => Seq::<char>::empty(),
            },
            r.pending@ == self.pending@,
            r.accepted@ == self.accepted@,
            r.rejected@ == self.rejected@,
            r.finished_matches_pending(),
    {
        let id = random_uuid();
        let at = now();
        self.finish_at(id, creator, started, at)
    }

    /// After input `i` was appended sharing the slot of an earlier placement
    /// of the same name, the builder is well formed again.
    proof fn lemma_skipped(&self, old_self: ImportBuilder, i: int)
        requires
            old_self.wf(),
            i == old_self.inputs@.len(),
            self.inputs@ == old_self.inputs@.push(self.inputs@[i]),
            self.slots@ == old_self.slots@.push(self.slots@[i]),
            match self.slots@[i].0 {
                Bucket::Pending => 0 <= self.slots@[i].1 < old_self.pending@.len()
                    && old_self.pending_names()[self.slots@[i].1] == self.inputs@[i],
                Bucket::Accepted => 0 <= self.slots@[i].1 < old_self.accepted@.len()
                    && old_self.accepted_for()[self.slots@[i].1] == self.inputs@[i],
                Bucket::Rejected => 0 <= self.slots@[i].1 < old_self.rejected@.len()
                    && old_self.rejected_names()[self.slots@[i].1] == self.inputs@[i],
            },
            self.pending == old_self.pending,
            self.accepted == old_self.accepted,
            self.rejected == old_self.rejected,
            self.accepted_names == old_self.accepted_names,
            self.pending_owner == old_self.pending_owner,
            self.accepted_owner == old_self.accepted_owner,
            self.rejected_owner == old_self.rejected_owner,
            self.awaiting is None,
        ensures
            self.wf(),
    {
        assert(self.in_slot(i));
        assert forall|k: int| 0 <= k < self.inputs@.len() implies #[trigger] self.in_slot(k) by {
            if k < i {
                assert(old_self.in_slot(k));
            }
        }
        assert forall|j2: int| 0 <= j2 < self.pending@.len() implies #[trigger] self.owned(
            Bucket::Pending,
            j2,
            self.pending_owner@,
        ) by {
            assert(old_self.owned(Bucket::Pending, j2, old_self.pending_owner@));
        }
        assert forall|j2: int| 0 <= j2 < self.accepted@.len() implies #[trigger] self.owned(
            Bucket::Accepted,
            j2,
            self.accepted_owner@,
        ) by {
            assert(old_self.owned(Bucket::Accepted, j2, old_self.accepted_owner@));
        }
        assert forall|j2: int| 0 <= j2 < self.rejected@.len() implies #[trigger] self.owned(
            Bucket::Rejected,
            j2,
            self.rejected_owner@,
        ) by {
            assert(old_self.owned(Bucket::Rejected, j2, old_self.rejected_owner@));
        }
    }

    /// After a new input `i`, placed in no bucket before, was pushed into a
    /// fresh slot `j` at the end of bucket `b`, the builder is well formed
    /// again.
    proof fn lemma_placed_fresh(&self, old_self: ImportBuilder, i: int, b: Bucket, j: int)
        requires
            old_self.wf(),
            i == old_self.inputs@.len(),
            self.inputs@ == old_self.inputs@.push(self.inputs@[i]),
            self.slots@ == old_self.slots@.push((b, j)),
            !old_self.is_placed(self.inputs@[i]),
            self.accepted_names@.len() == self.accepted@.len(),
            b == Bucket::Pending ==> {
                &&& j == old_self.pending@.len()
                &&& self.pending_names() == old_self.pending_names().push(self.inputs@[i])
                &&& self.pending_owner@ == old_self.pending_owner@.push(i)
                &&& self.accepted_names@ == old_self.accepted_names@
                &&& self.accepted_owner@ == old_self.accepted_owner@
                &&& self.accepted@ == old_self.accepted@
                &&& self.rejected@ == old_self.rejected@
                &&& self.rejected_owner@ == old_self.rejected_owner@
            },
            b == Bucket::Rejected ==> {
                &&& j == old_self.rejected@.len()
                &&& self.rejected_names() == old_self.rejected_names().push(self.inputs@[i])
                &&& self.rejected_owner@ == old_self.rejected_owner@.push(i)
                &&& self.accepted_names@ == old_self.accepted_names@
                &&& self.accepted_owner@ == old_self.accepted_owner@
                &&& self.accepted@ == old_self.accepted@
                &&& self.pending@ == old_self.pending@
                &&& self.pending_owner@ == old_self.pending_owner@
            },
            b == Bucket::Accepted ==> {
                &&& j == old_self.accepted@.len()
                &&& self.accepted_for() == old_self.accepted_for().push(self.inputs@[i])
                &&& self.accepted_owner@ == old_self.accepted_owner@.push(i)
                &&& self.accepted@.len() == old_self.accepted@.len() + 1
                &&& self.pending@ == old_self.pending@
                &&& self.pending_owner@ == old_self.pending_owner@
                &&& self.rejected@ == old_self.rejected@
                &&& self.rejected_owner@ == old_self.rejected_owner@
            },
            self.awaiting is None,
        ensures
            self.wf(),
    {
        let x = self.inputs@[i];
        assert(self.slots@[i] == (b, j));
        assert(self.pending_names().len() == self.pending@.len());
        assert(old_self.pending_names().len() == old_self.pending@.len());
        assert(self.rejected_names().len() == self.rejected@.len());
        assert(old_self.rejected_names().len() == old_self.rejected@.len());
        assert(self.accepted_for().len() == self.accepted_names@.len());
        assert(old_self.accepted_for().len() == old_self.accepted_names@.len());
        if b == Bucket::Pending {
            assert(self.pending_names()[j] == x);
            assert(self.accepted_for() == old_self.accepted_for());
            assert(self.rejected_names() == old_self.rejected_names());
        } else if b == Bucket::Rejected {
            assert(self.rejected_names()[j] == x);
            assert(self.accepted_for() == old_self.accepted_for());
            assert(self.pending_names() == old_self.pending_names());
        } else {
            assert(self.accepted_for()[j] == x);
            assert(self.pending_names() == old_self.pending_names());
            assert(self.rejected_names() == old_self.rejected_names());
        }
        assert(self.in_slot(i));
        assert forall|k: int| 0 <= k < self.inputs@.len() implies #[trigger] self.in_slot(k) by {
            if k < i {
                assert(old_self.in_slot(k));
                assert(self.slots@[k] == old_self.slots@[k]);
                assert(self.inputs@[k] == old_self.inputs@[k]);
            }
        }
        assert forall|j2: int| 0 <= j2 < self.pending@.len() implies #[trigger] self.owned(
            Bucket::Pending,
            j2,
            self.pending_owner@,
        ) by {
            if !(b == Bucket::Pending && j2 == j) {
                assert(old_self.owned(Bucket::Pending, j2, old_self.pending_owner@));
                assert(self.pending_owner@[j2] == old_self.pending_owner@[j2]);
                assert(self.slots@[self.pending_owner@[j2]] == old_self.slots@[old_self.pending_owner@[j2]]);
            }
        }
        assert forall|j2: int| 0 <= j2 < self.accepted@.len() implies #[trigger] self.owned(
            Bucket::Accepted,
            j2,
            self.accepted_owner@,
        ) by {
            if !(b == Bucket::Accepted && j2 == j) {
                assert(old_self.owned(Bucket::Accepted, j2, old_self.accepted_owner@));
                assert(self.accepted_owner@[j2] == old_self.accepted_owner@[j2]);
                assert(self.slots@[self.accepted_owner@[j2]] == old_self.slots@[old_self.accepted_owner@[j2]]);
            }
        }
        assert forall|j2: int| 0 <= j2 < self.rejected@.len() implies #[trigger] self.owned(
            Bucket::Rejected,
            j2,
            self.rejected_owner@,
        ) by {
            if !(b == Bucket::Rejected && j2 == j) {
                assert(old_self.owned(Bucket::Rejected, j2, old_self.rejected_owner@));
                assert(self.rejected_owner@[j2] == old_self.rejected_owner@[j2]);
                assert(self.slots@[self.rejected_owner@[j2]] == old_self.slots@[old_self.rejected_owner@[j2]]);
            }
        }
        lemma_push_fresh(old_self.pending_names(), self.pending_names(), x);
        lemma_push_fresh(old_self.accepted_for(), self.accepted_for(), x);
        lemma_push_fresh(old_self.rejected_names(), self.rejected_names(), x);
        lemma_disjoint_after(old_self.pending_names(), self.pending_names(), old_self.accepted_for(), self.accepted_for(), x);
        lemma_disjoint_after(old_self.pending_names(), self.pending_names(), old_self.rejected_names(), self.rejected_names(), x);
        lemma_disjoint_after(old_self.accepted_for(), self.accepted_for(), old_self.rejected_names(), self.rejected_names(), x);
    }
}

/// `new` is `old`, or `old` with `x` appended; where `x` was not in `old`,
/// `new` keeps `old`'s distinctness.
proof fn lemma_push_fresh(old: Seq<Seq<char>>, new: Seq<Seq<char>>, x: Seq<char>)
    requires
        old.no_duplicates(),
        !old.contains(x),
        new == old || new == old.push(x),
    ensures
        new.no_duplicates(),
{
    if new == old.push(x) {
        assert forall|a: int, c: int| 0 <= a < new.len() && 0 <= c < new.len() && a != c implies new[a] != new[c] by {
            if a == old.len() {
                assert(new[c] == old[c]);
            } else if c == old.len() {
                assert(new[a] == old[a]);
            } else {
                assert(new[a] == old[a] && new[c] == old[c]);
            }
        }
    }
}

/// Two disjoint sequences stay disjoint when at most one of them gets `x`
/// appended and `x` was in neither.
proof fn lemma_disjoint_after(
    old_a: Seq<Seq<char>>,
    new_a: Seq<Seq<char>>,
    old_b: Seq<Seq<char>>,
    new_b: Seq<Seq<char>>,
    x: Seq<char>,
)
    requires
        old_a.disjoint(old_b),
        !old_a.contains(x),
        !old_b.contains(x),
        new_a == old_a || new_a == old_a.push(x),
        new_b == old_b || new_b == old_b.push(x),
        new_a == old_a || new_b == old_b,
    ensures
        new_a.disjoint(new_b),
{
    assert forall|p: int, q: int| 0 <= p < new_a.len() && 0 <= q < new_b.len() implies new_a[p] != new_b[q] by {
        if p < old_a.len() && q < old_b.len() {
            assert(new_a[p] == old_a[p] && new_b[q] == old_b[q]);
        } else if p < old_a.len() {
            assert(new_b[q] == x);
            assert(new_a[p] == old_a[p]);
        } else {
            assert(new_a[p] == x);
            assert(new_b[q] == old_b[q]);
        }
    }
}

} // verus!
