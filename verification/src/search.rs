//! The search filter: an optional pid and an optional owner name, each of
//! which, when given, must match. An absent criterion constrains nothing.

use vstd::prelude::*;
use crate::diff::entries_of;
use crate::process_data::{ProcessData, ProcessEntry};

verus! {

/// What a search asks for. Either criterion may be absent.
#[derive(Debug)]
pub struct SearchParams {
    pid: Option<usize>,
    username: Option<String>,
}

/// The mathematical content of a [`SearchParams`].
pub struct Criteria {
    pub pid: Option<usize>,
    pub username: Option<Seq<char>>,
}

impl View for SearchParams {
    type V = Criteria;

    closed spec fn view(&self) -> Criteria {
        Criteria {
            pid: self.pid,
            username: match self.username {
                Some(name) => Some(name@),
                None => None,
            },
        }
    }
}

/// Whether `entry` meets every criterion that is present.
pub open spec fn meets(entry: ProcessEntry, criteria: Criteria) -> bool {
    &&& criteria.pid matches Some(pid) ==> entry.pid == pid
    &&& criteria.username matches Some(name) ==> entry.username == name
}

/// The entries of `snapshot` that meet `criteria`, in the snapshot's order.
pub open spec fn matching(snapshot: Seq<ProcessEntry>, criteria: Criteria) -> Seq<ProcessEntry> {
    snapshot.filter(|e: ProcessEntry| meets(e, criteria))
}

impl SearchParams {
    /// A search for the given pid, the given owner name, both or neither.
    pub fn new(pid: Option<usize>, username: Option<String>) -> (params: Self)
        ensures
            params@.pid == pid,
            params@.username == match username {
                Some(name) => Some(name@),
                None => None::<Seq<char>>,
            },
    {
        SearchParams { pid, username }
    }

    /// The pid that is asked for, if any.
    pub fn pid(&self) -> (pid: Option<usize>)
        ensures
            pid == self@.pid,
    {
        self.pid
    }

    /// The owner name that is asked for, if any.
    pub fn username(&self) -> (name: Option<&String>)
        ensures
            match name {
                Some(text) => self@.username == Some(text@),
                None => self@.username is None,
            },
    {
        self.username.as_ref()
    }

    /// Whether `entry` meets every criterion that is present.
    pub fn accepts(&self, entry: &ProcessData) -> (accepted: bool)
        ensures
            accepted == meets(entry@, self@),
    {
        let pid_ok = match self.pid {
            Some(pid) => entry.pid == pid,
            None => true,
        };
        let name_ok = match &self.username {
            Some(name) => entry.username == *name,
            None => true,
        };
        pid_ok && name_ok
    }
}

/// Copies of the entries of `snapshot` that `params` accepts, in their order.
/// The snapshot itself is left as it is.
pub fn select(snapshot: &Vec<ProcessData>, params: &SearchParams) -> (found: Vec<ProcessData>)
    ensures
        entries_of(found@) == matching(entries_of(snapshot@), params@),
{
    let ghost wanted = |e: ProcessEntry| meets(e, params@);
    let mut found: Vec<ProcessData> = Vec::new();
    let mut i: usize = 0;
    proof {
        assert(entries_of(snapshot@).take(0) =~= Seq::empty());
        assert(entries_of(found@) =~= Seq::empty());
        reveal(Seq::filter);
    }
    while i < snapshot.len()
        invariant
            i <= snapshot.len(),
            wanted == |e: ProcessEntry| meets(e, params@),
            entries_of(found@) == entries_of(snapshot@).take(i as int).filter(wanted),
        decreases snapshot.len() - i,
    {
        let ghost before = entries_of(found@);
        proof {
            let prefix = entries_of(snapshot@).take(i as int);
            assert(entries_of(snapshot@).take(i + 1) =~= prefix.push(snapshot@[i as int]@));
            prefix.lemma_filter_push(snapshot@[i as int]@, wanted);
        }
        if params.accepts(&snapshot[i]) {
            found.push(snapshot[i].clone());
            assert(entries_of(found@) =~= before.push(snapshot@[i as int]@));
        }
        i += 1;
    }
    assert(entries_of(snapshot@).take(i as int) =~= entries_of(snapshot@));
    found
}

/// An entry is found exactly when it stands in the snapshot and meets the
/// criteria: with only a pid, the entries with that pid; with only a name,
/// the entries of that owner.
pub proof fn lemma_search_membership(
    snapshot: Seq<ProcessEntry>,
    criteria: Criteria,
    entry: ProcessEntry,
)
    ensures
        matching(snapshot, criteria).contains(entry) <==> (snapshot.contains(entry) && meets(
            entry,
            criteria,
        )),
{
    let wanted = |e: ProcessEntry| meets(e, criteria);
    let found = matching(snapshot, criteria);
    if snapshot.contains(entry) && meets(entry, criteria) {
        let i: int = choose|i: int| 0 <= i < snapshot.len() && snapshot[i] == entry;
        snapshot.lemma_filter_contains(wanted, i);
    }
    if found.contains(entry) {
        let k: int = choose|k: int| 0 <= k < found.len() && found[k] == entry;
        snapshot.lemma_filter_pred(wanted, k);
        snapshot.lemma_filter_contains_rev(wanted, entry);
    }
}

/// A search without criteria returns the snapshot unchanged: the same
/// entries in the same order.
pub proof fn lemma_search_unconstrained(snapshot: Seq<ProcessEntry>)
    ensures
        matching(snapshot, Criteria { pid: None, username: None }) == snapshot,
    decreases snapshot.len(),
{
    let none = Criteria { pid: None, username: None };
    let wanted = |e: ProcessEntry| meets(e, none);
    reveal(Seq::filter);
    if snapshot.len() > 0 {
        lemma_search_unconstrained(snapshot.drop_last());
        assert(wanted(snapshot.last()));
        assert(snapshot.drop_last().push(snapshot.last()) =~= snapshot);
    }
}

/// A search by pid and by name finds what a search by name finds among the
/// results of a search by pid.
pub proof fn lemma_search_conjunctive(
    snapshot: Seq<ProcessEntry>,
    pid: usize,
    username: Seq<char>,
)
    ensures
        matching(snapshot, Criteria { pid: Some(pid), username: Some(username) }) == matching(
            matching(snapshot, Criteria { pid: Some(pid), username: None }),
            Criteria { pid: None, username: Some(username) },
        ),
    decreases snapshot.len(),
{
    let by_pid = Criteria { pid: Some(pid), username: None };
    let by_name = Criteria { pid: None, username: Some(username) };
    let name_wanted = |e: ProcessEntry| meets(e, by_name);
    reveal(Seq::filter);
    if snapshot.len() > 0 {
        let rest = snapshot.drop_last();
        let last = snapshot.last();
        lemma_search_conjunctive(rest, pid, username);
        if meets(last, by_pid) {
            matching(rest, by_pid).lemma_filter_push(last, name_wanted);
        }
    }
}

} // verus!
