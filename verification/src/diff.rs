//! Which entries of a newly acquired process list were not in the previous
//! one. Novelty is decided by the whole content of an entry, never by its
//! pid alone: a process whose name or owner changed is reported again.

use vstd::prelude::*;
use crate::process_data::{ProcessData, ProcessEntry};

verus! {

/// The entries that a list of processes stands for, in the list's order.
pub open spec fn entries_of(list: Seq<ProcessData>) -> Seq<ProcessEntry> {
    Seq::new(list.len(), |i: int| list[i]@)
}

/// The entries of `new` that have no equal in `old`, in the order in which
/// they stand in `new`. An entry that occurs twice in `new` is kept twice.
pub open spec fn newly_observed(old: Seq<ProcessEntry>, new: Seq<ProcessEntry>) -> Seq<
    ProcessEntry,
> {
    new.filter(|e: ProcessEntry| !old.contains(e))
}

/// A copy of `list`: the same entries in the same order.
pub fn copy_of(list: &Vec<ProcessData>) -> (copy: Vec<ProcessData>)
    ensures
        entries_of(copy@) == entries_of(list@),
{
    let mut copy: Vec<ProcessData> = Vec::new();
    let mut i: usize = 0;
    while i < list.len()
        invariant
            i <= list.len(),
            copy.len() == i,
            forall|j: int| 0 <= j < i ==> copy@[j]@ == list@[j]@,
        decreases list.len() - i,
    {
        copy.push(list[i].clone());
        i += 1;
    }
    assert(entries_of(copy@) =~= entries_of(list@));
    copy
}

/// Whether some element of `list` equals `entry` in all four fields.
pub fn contains(list: &Vec<ProcessData>, entry: &ProcessData) -> (found: bool)
    ensures
        found == entries_of(list@).contains(entry@),
{
    let mut i: usize = 0;
    while i < list.len()
        invariant
            i <= list.len(),
            forall|j: int| 0 <= j < i ==> entries_of(list@)[j] != entry@,
        decreases list.len() - i,
    {
        if list[i] == *entry {
            assert(entries_of(list@)[i as int] == entry@);
            return true;
        }
        i += 1;
    }
    false
}

/// The entries of `new` without an equal in `old`, copied in `new`'s order.
/// Entries of `old` that are missing from `new` are not reported.
pub fn diff(old: &Vec<ProcessData>, new: &Vec<ProcessData>) -> (fresh: Vec<ProcessData>)
    ensures
        entries_of(fresh@) == newly_observed(entries_of(old@), entries_of(new@)),
{
    let ghost unseen = |e: ProcessEntry| !entries_of(old@).contains(e);
    let mut fresh: Vec<ProcessData> = Vec::new();
    let mut i: usize = 0;
    proof {
        assert(entries_of(new@).take(0) =~= Seq::empty());
        assert(entries_of(fresh@) =~= Seq::empty());
        reveal(Seq::filter);
    }
    while i < new.len()
        invariant
            i <= new.len(),
            unseen == |e: ProcessEntry| !entries_of(old@).contains(e),
            entries_of(fresh@) == entries_of(new@).take(i as int).filter(unseen),
        decreases new.len() - i,
    {
        let ghost before = entries_of(fresh@);
        proof {
            let prefix = entries_of(new@).take(i as int);
            assert(entries_of(new@).take(i + 1) =~= prefix.push(new@[i as int]@));
            prefix.lemma_filter_push(new@[i as int]@, unseen);
        }
        if !contains(old, &new[i]) {
            fresh.push(new[i].clone());
            assert(entries_of(fresh@) =~= before.push(new@[i as int]@));
        }
        i += 1;
    }
    assert(entries_of(new@).take(i as int) =~= entries_of(new@));
    fresh
}

/// An entry is reported exactly when it stands in the new list and has no
/// equal in the old one.
pub proof fn lemma_diff_membership(
    old: Seq<ProcessEntry>,
    new: Seq<ProcessEntry>,
    entry: ProcessEntry,
)
    ensures
        newly_observed(old, new).contains(entry) <==> (new.contains(entry) && !old.contains(
            entry,
        )),
{
    let unseen = |e: ProcessEntry| !old.contains(e);
    let fresh = newly_observed(old, new);
    if new.contains(entry) && !old.contains(entry) {
        let i: int = choose|i: int| 0 <= i < new.len() && new[i] == entry;
        new.lemma_filter_contains(unseen, i);
    }
    if fresh.contains(entry) {
        let k: int = choose|k: int| 0 <= k < fresh.len() && fresh[k] == entry;
        new.lemma_filter_pred(unseen, k);
        new.lemma_filter_contains_rev(unseen, entry);
    }
}

/// Against an equal copy of itself a list has nothing new.
pub proof fn lemma_diff_of_same_is_empty(list: Seq<ProcessEntry>)
    ensures
        newly_observed(list, list) == Seq::<ProcessEntry>::empty(),
{
    let unseen = |e: ProcessEntry| !list.contains(e);
    assert forall|i: int| 0 <= i < list.len() implies !unseen(#[trigger] list[i]) by {
        assert(list.contains(list[i]));
    }
    list.lemma_all_neg_filter_empty(unseen);
    assert(newly_observed(list, list) =~= Seq::empty());
}

} // verus!
