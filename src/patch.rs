//! Declarative patches over the buckets of an import.
use crate::ids::Uuid;
use vstd::prelude::*;

verus! {

/// A value that a bucket can hold: it can be compared and copied by value.
pub trait BucketValue: View + Sized {
    fn same_value(&self, other: &Self) -> (r: bool)
        ensures
            r == (self@ == other@),
    ;

    fn copy_value(&self) -> (r: Self)
        ensures
            r@ == self@,
    ;
}

impl BucketValue for String {
    fn same_value(&self, other: &Self) -> (r: bool) {
        self.eq(other)
    }

    fn copy_value(&self) -> (r: Self) {
        self.clone()
    }
}

impl View for Uuid {
    type V = u128;

    open spec fn view(&self) -> u128 {
        self.value
    }
}

impl BucketValue for Uuid {
    fn same_value(&self, other: &Self) -> (r: bool) {
        self.value == other.value
    }

    fn copy_value(&self) -> (r: Self) {
        *self
    }
}

/// A single modification to one bucket.
#[derive(Debug)]
pub enum PatchAction<T> {
    /// Appends the value.
    ADD(T),
    /// Removes the first occurrence of the value, if there is one.
    REMOVE(T),
    /// Replaces the first occurrence of the first value with the second, if
    /// there is one.
    UPDATE(T, T),
}

impl<T: View> View for PatchAction<T> {
    type V = PatchAction<T::V>;

    open spec fn view(&self) -> PatchAction<T::V> {
        match self {
            PatchAction::ADD(v) => PatchAction::ADD(v@),
            PatchAction::REMOVE(v) => PatchAction::REMOVE(v@),
            PatchAction::UPDATE(o, n) => PatchAction::UPDATE(o@, n@),
        }
    }
}

/// `s` with its first occurrence of `old` replaced by `new`; `s` itself when
/// `old` does not occur.
pub open spec fn replace_first<V>(s: Seq<V>, old: V, new: V) -> Seq<V> {
    match s.index_of_first(old) {
        Some(i) => s.update(i, new),
        None => s,
    }
}

/// The bucket after one action.
pub open spec fn apply_action<V>(s: Seq<V>, a: PatchAction<V>) -> Seq<V> {
    match a {
        PatchAction::ADD(v) => s.push(v),
        PatchAction::REMOVE(v) => s.remove_value(v),
        PatchAction::UPDATE(o, n) => replace_first(s, o, n),
    }
}

/// The bucket after a list of actions, applied in order.
pub open spec fn apply_actions<V>(s: Seq<V>, actions: Seq<PatchAction<V>>) -> Seq<V>
    decreases actions.len(),
{
    if actions.len() == 0 {
        s
    } else {
        apply_action(apply_actions(s, actions.drop_last()), actions.last())
    }
}

/// The views of a list of actions.
pub open spec fn actions_view<T: View>(actions: Seq<PatchAction<T>>) -> Seq<PatchAction<T::V>> {
    actions.map_values(|a: PatchAction<T>| a@)
}

/// The views of the values of a bucket.
pub open spec fn bucket_view<T: View>(v: Seq<T>) -> Seq<T::V> {
    v.map_values(|e: T| e@)
}

/// The index of the first element of `v` whose view is `needle`.
pub(crate) fn find_first<T: BucketValue>(v: &Vec<T>, needle: &T) -> (r: Option<usize>)
    ensures
        r is None <==> bucket_view(v@).index_of_first(needle@) is None,
        r is Some ==> bucket_view(v@).index_of_first(needle@) == Some(r->0 as int),
{
    let ghost s = bucket_view(v@);
    let mut i: usize = 0;
    while i < v.len()
        invariant
            0 <= i <= v.len(),
            s == bucket_view(v@),
            forall|j: int| 0 <= j < i ==> s[j] != needle@,
        decreases v.len() - i,
    {
        if v[i].same_value(needle) {
            proof {
                s.index_of_first_ensures(needle@);
                let k = s.index_of_first(needle@).unwrap();
                assert(s[i as int] == needle@);
                if k < i {
                    assert(s[k] != needle@);
                } else if k > i {
                    assert(s[i as int] != needle@);
                }
            }
            return Some(i);
        }
        i = i + 1;
    }
    proof {
        s.index_of_first_ensures(needle@);
        if s.contains(needle@) {
            let k = choose|k: int| 0 <= k < s.len() && s[k] == needle@;
            assert(s[k] != needle@);
        }
    }
    None
}

/// Applies one action to a bucket.
pub fn perform_action<T: BucketValue>(action: &PatchAction<T>, vec: &mut Vec<T>)
    ensures
        bucket_view(final(vec)@) == apply_action(bucket_view(old(vec)@), action@),
{
    let ghost s = bucket_view(vec@);
    match action {
        PatchAction::ADD(e) => {
            vec.push(e.copy_value());
            assert(bucket_view(vec@) =~= s.push(e@));
        },
        PatchAction::REMOVE(e) => {
            let pos = find_first(vec, e);
            proof {
                s.index_of_first_ensures(e@);
            }
            if let Some(i) = pos {
                vec.remove(i);
                assert(bucket_view(vec@) =~= s.remove(i as int));
            }
        },
        PatchAction::UPDATE(o, n) => {
            let pos = find_first(vec, o);
            proof {
                s.index_of_first_ensures(o@);
            }
            if let Some(i) = pos {
                vec.set(i, n.copy_value());
                assert(bucket_view(vec@) =~= s.update(i as int, n@));
            }
        },
    }
}

/// Applies each action of `actions`, in order, to a bucket.
pub fn perform_actions<T: BucketValue>(actions: &Vec<PatchAction<T>>, vec: &mut Vec<T>)
    ensures
        bucket_view(final(vec)@) == apply_actions(bucket_view(old(vec)@), actions_view(actions@)),
{
    let ghost s0 = bucket_view(vec@);
    let ghost acts = actions_view(actions@);
    let mut i: usize = 0;
    while i < actions.len()
        invariant
            0 <= i <= actions.len(),
            acts == actions_view(actions@),
            bucket_view(vec@) == apply_actions(s0, acts.subrange(0, i as int)),
        decreases actions.len() - i,
    {
        perform_action(&actions[i], vec);
        proof {
            let pre = acts.subrange(0, i as int + 1);
            assert(pre.drop_last() =~= acts.subrange(0, i as int));
            assert(pre.last() == actions[i as int]@);
        }
        i = i + 1;
    }
    assert(acts.subrange(0, i as int) =~= acts);
}

} // verus!
