//! The four operations of the service, on the state and on plain values:
//! refresh, list, search and subscribe.

use vstd::prelude::*;
use crate::app_state::AppState;
use crate::broadcast::{Broadcaster, Subscriber};
use crate::diff::{diff, entries_of, newly_observed};
use crate::process_data::{ProcessData, ProcessEntry};
use crate::search::{matching, select, SearchParams};
use crate::source::{get_process_list, observations_of, snapshot_from, RawProcess};

verus! {

/// What a refresh did.
#[derive(Debug)]
pub struct Refreshed {
    /// The entries that were new and were handed to the change feed, in
    /// the order in which they were published.
    pub published: Vec<ProcessData>,
    /// For each of them, in the same order, how many subscribers the feed
    /// had when it was published.
    pub reached: Vec<usize>,
    /// How many of them reached no subscriber at all.
    pub unheard: usize,
}

/// How many of `counts` are zero: the publications that nobody heard.
pub open spec fn unheard_in(counts: Seq<usize>) -> nat {
    counts.filter(|count: usize| count == 0).len()
}

/// Counts the publications that reached no subscriber, given how many
/// subscribers each one reached.
pub fn unheard_among(counts: &Vec<usize>) -> (unheard: usize)
    ensures
        unheard == unheard_in(counts@),
        unheard <= counts.len(),
{
    let ghost silent = |count: usize| count == 0;
    let mut unheard: usize = 0;
    let mut i: usize = 0;
    proof {
        assert(counts@.take(0) =~= Seq::empty());
        reveal(Seq::filter);
    }
    while i < counts.len()
        invariant
            i <= counts.len(),
            silent == |count: usize| count == 0,
            unheard == counts@.take(i as int).filter(silent).len(),
            unheard <= i,
        decreases counts.len() - i,
    {
        proof {
            let prefix = counts@.take(i as int);
            assert(counts@.take(i + 1) =~= prefix.push(counts@[i as int]));
            prefix.lemma_filter_push(counts@[i as int], silent);
        }
        if counts[i] == 0 {
            unheard += 1;
        }
        i += 1;
    }
    assert(counts@.take(i as int) =~= counts@);
    unheard
}

/// Publishes every entry of `entries` on `feed`, each once and in order,
/// and returns for each of them, in the same order, how many subscribers
/// the feed reported. No subscriber can hold this up or make it fail.
pub fn publish_all(feed: &mut Broadcaster, entries: &Vec<ProcessData>) -> (counts: Vec<usize>)
    ensures
        final(feed).published() == old(feed).published() + entries_of(entries@),
        final(feed).capacity() == old(feed).capacity(),
        counts.len() == entries.len(),
{
    let mut counts: Vec<usize> = Vec::new();
    let mut i: usize = 0;
    proof {
        assert(entries_of(entries@).take(0) =~= Seq::empty());
        assert(old(feed).published() + Seq::<ProcessEntry>::empty() =~= old(feed).published());
    }
    while i < entries.len()
        invariant
            i <= entries.len(),
            counts.len() == i,
            feed.published() == old(feed).published() + entries_of(entries@).take(i as int),
            feed.capacity() == old(feed).capacity(),
        decreases entries.len() - i,
    {
        let ghost before = feed.published();
        let count: usize = feed.publish(entries[i].clone());
        counts.push(count);
        proof {
            assert(entries_of(entries@).take(i + 1) =~= entries_of(entries@).take(i as int).push(
                entries@[i as int]@,
            ));
            assert(feed.published() =~= old(feed).published() + entries_of(entries@).take(
                i + 1,
            ));
        }
        i += 1;
    }
    assert(entries_of(entries@).take(i as int) =~= entries_of(entries@));
    counts
}

/// One refresh: resolves what was observed into a new snapshot, publishes
/// each entry of it that the current snapshot has no equal of, once and in
/// the new snapshot's order, and then installs the new snapshot in place of
/// the current one. Both happen on every call, whatever the feed answers; the
/// feed's answers are reported, one for each published entry.
pub fn acquire_process_list(app_state: &mut AppState, observed: &Vec<RawProcess>) -> (refreshed:
    Refreshed)
    ensures
        final(app_state).snapshot() == snapshot_from(observations_of(observed@)),
        entries_of(refreshed.published@) == newly_observed(
            old(app_state).snapshot(),
            snapshot_from(observations_of(observed@)),
        ),
        refreshed.reached.len() == refreshed.published.len(),
        refreshed.unheard == unheard_in(refreshed.reached@),
        refreshed.unheard <= refreshed.published.len(),
        final(app_state).broadcaster().published() == old(app_state).broadcaster().published()
            + entries_of(refreshed.published@),
        final(app_state).broadcaster().capacity() == old(app_state).broadcaster().capacity(),
{
    let new_process_list = get_process_list(observed);
    let published = diff(app_state.process_list(), &new_process_list);
    let reached = app_state.publish_all(&published);
    let unheard: usize = unheard_among(&reached);
    app_state.set_process_list(new_process_list);
    Refreshed { published, reached, unheard }
}

/// The current snapshot, whole.
pub fn processes(app_state: &AppState) -> (list: Vec<ProcessData>)
    ensures
        entries_of(list@) == app_state.snapshot(),
{
    app_state.get_process_list()
}

/// The entries of the current snapshot that meet every criterion that
/// `params` holds, in the snapshot's order. The snapshot is not changed.
pub fn search(app_state: &AppState, params: SearchParams) -> (found: Vec<ProcessData>)
    ensures
        entries_of(found@) == matching(app_state.snapshot(), params@),
{
    select(app_state.process_list(), &params)
}

/// A new subscription to the state's change feed, which starts here: it
/// receives what later refreshes publish and nothing of what was published
/// before, and is bounded as the feed is.
pub fn data(app_state: &AppState) -> (subscriber: Subscriber)
    ensures
        subscriber.capacity() == app_state.broadcaster().capacity(),
{
    app_state.feed().subscribe()
}

} // verus!
