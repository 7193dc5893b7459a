//! The shared state of the service: the snapshot that was accepted last,
//! and the change feed on which new entries are published.

use vstd::prelude::*;
use crate::broadcast::{doubled_up_to, kept_for, Broadcaster, Subscriber, MAX_CAPACITY};
use crate::diff::{copy_of, entries_of};
use crate::process_data::{ProcessData, ProcessEntry};
use crate::route_process::publish_all;

verus! {

/// How many entries the change feed of [`AppState::new`] is asked to keep
/// for a subscriber that does not keep up. It keeps [`FEED_KEPT`].
pub const FEED_CAPACITY: usize = 100;

/// How many entries the change feed of [`AppState::new`] keeps: the least
/// power of two that is no smaller than [`FEED_CAPACITY`].
pub const FEED_KEPT: usize = 128;

/// The current snapshot and the change feed. The snapshot is only ever
/// read whole and replaced whole.
#[derive(Debug)]
pub struct AppState {
    process_list: Vec<ProcessData>,
    tx_sse: Broadcaster,
    rx_sse: Subscriber,
}

impl AppState {
    /// The entries of the current snapshot.
    pub closed spec fn snapshot(&self) -> Seq<ProcessEntry> {
        entries_of(self.process_list@)
    }

    /// The change feed of this state.
    pub closed spec fn broadcaster(&self) -> Broadcaster {
        self.tx_sse
    }

    /// A state with an empty snapshot and a feed that is asked to keep
    /// [`FEED_CAPACITY`] entries.
    pub fn new() -> (state: Self)
        ensures
            state.snapshot() == Seq::<ProcessEntry>::empty(),
            state.broadcaster().capacity() == kept_for(FEED_CAPACITY as nat),
            state.broadcaster().capacity() == FEED_KEPT,
            state.broadcaster().published() == Seq::<ProcessEntry>::empty(),
    {
        let (tx_sse, rx_sse) = Broadcaster::new(FEED_CAPACITY);
        assert(kept_for(FEED_CAPACITY as nat) == FEED_KEPT) by {
            reveal_with_fuel(doubled_up_to, 9);
        }
        let state = AppState { process_list: Vec::new(), tx_sse, rx_sse };
        assert(state.snapshot() =~= Seq::empty());
        state
    }

    /// A state with an empty snapshot and a feed that is asked to keep
    /// `capacity` entries; `None` where no feed can be asked for that.
    pub fn with_capacity(capacity: usize) -> (state: Option<Self>)
        ensures
            state is Some <==> 0 < capacity <= MAX_CAPACITY,
            state matches Some(fresh) ==> fresh.snapshot() == Seq::<ProcessEntry>::empty()
                && fresh.broadcaster().capacity() == kept_for(capacity as nat)
                && fresh.broadcaster().published() == Seq::<ProcessEntry>::empty(),
    {
        match Broadcaster::with_capacity(capacity) {
            Some((tx_sse, rx_sse)) => {
                let state = AppState { process_list: Vec::new(), tx_sse, rx_sse };
                assert(state.snapshot() =~= Seq::empty());
                Some(state)
            },
            None => None,
        }
    }

    /// A copy of the current snapshot: all of it, in its order.
    pub fn get_process_list(&self) -> (list: Vec<ProcessData>)
        ensures
            entries_of(list@) == self.snapshot(),
    {
        copy_of(&self.process_list)
    }

    /// Installs `process_list` as the current snapshot, in place of all of
    /// the previous one. The feed stays the one it was.
    pub fn set_process_list(&mut self, process_list: Vec<ProcessData>)
        ensures
            final(self).snapshot() == entries_of(process_list@),
            final(self).broadcaster() == old(self).broadcaster(),
    {
        self.process_list = process_list;
    }

    /// The current snapshot itself, for reading.
    pub fn process_list(&self) -> (list: &Vec<ProcessData>)
        ensures
            entries_of(list@) == self.snapshot(),
    {
        &self.process_list
    }

    /// Publishes every entry of `entries` on the state's feed, each once
    /// and in order, and returns how many subscribers each one reached.
    /// The snapshot stays as it is.
    pub fn publish_all(&mut self, entries: &Vec<ProcessData>) -> (counts: Vec<usize>)
        ensures
            final(self).broadcaster().published() == old(self).broadcaster().published()
                + entries_of(entries@),
            final(self).broadcaster().capacity() == old(self).broadcaster().capacity(),
            final(self).snapshot() == old(self).snapshot(),
            counts.len() == entries.len(),
    {
        publish_all(&mut self.tx_sse, entries)
    }

    /// The change feed on which new entries are published.
    pub fn feed(&self) -> (feed: &Broadcaster)
        ensures
            *feed == self.broadcaster(),
    {
        &self.tx_sse
    }
}

} // verus!
