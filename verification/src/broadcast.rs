//! The change feed: a bounded multicast channel of newly observed entries.
//!
//! The channel itself is `tokio::sync::broadcast`. Its two handles share
//! their state behind the scenes, so nothing here claims to know what a
//! handle holds: the functions of this module say what is handed to the
//! channel and how each of its answers is read.

use vstd::prelude::*;
use tokio::sync::broadcast::{Receiver, Sender};
use crate::process_data::{ProcessData, ProcessEntry};

verus! {

/// The sending half of `tokio::sync::broadcast`, opaque to the verifier.
#[verifier::external_type_specification]
#[verifier::external_body]
#[verifier::reject_recursive_types(T)]
pub struct ExSender<T>(Sender<T>);

/// The receiving half of `tokio::sync::broadcast`, opaque to the verifier.
#[verifier::external_type_specification]
#[verifier::external_body]
#[verifier::reject_recursive_types(T)]
pub struct ExReceiver<T>(Receiver<T>);

/// The formatter of `core::fmt`, opaque to the verifier.
#[verifier::external_type_specification]
#[verifier::external_body]
pub struct ExFormatter<'a>(core::fmt::Formatter<'a>);

/// The error of `core::fmt`, opaque to the verifier.
#[verifier::external_type_specification]
#[verifier::external_body]
pub struct ExFmtError(core::fmt::Error);

/// The largest capacity that a channel can be opened with.
pub const MAX_CAPACITY: usize = usize::MAX / 2;

/// What one look at a subscription gave.
#[derive(Debug)]
pub enum Delivery {
    /// The next entry, in the order of publication.
    Entry(ProcessData),
    /// The subscriber fell behind and this many entries, the oldest ones,
    /// were discarded unread. The entries that are still held follow.
    Gap(u64),
    /// Nothing is waiting; more may come.
    Idle,
    /// Nothing is waiting and no publisher is left.
    Closed,
}

/// How many entries the channel behind a sending handle keeps: the length
/// of its ring of slots, which is the bound on what it holds back for a
/// subscriber that does not keep up and the measure by which it finds that
/// a subscriber has fallen behind. It is fixed when the channel is opened.
pub uninterp spec fn sender_capacity(tx: Sender<ProcessData>) -> nat;

/// How many entries the channel behind a receiving handle keeps; see
/// [`sender_capacity`].
pub uninterp spec fn receiver_capacity(rx: Receiver<ProcessData>) -> nat;

/// `power`, doubled until it is no smaller than `capacity`.
pub open spec fn doubled_up_to(power: nat, capacity: nat) -> nat
    decreases (if capacity > power {
            capacity - power
        } else {
            0
        }),
{
    if power == 0 || power >= capacity {
        power
    } else {
        doubled_up_to(2 * power, capacity)
    }
}

/// How many entries a channel keeps that is asked to keep `capacity`: the
/// least power of two that is no smaller.
pub open spec fn kept_for(capacity: nat) -> nat {
    doubled_up_to(1, capacity)
}

/// Whether `n` is 1, 2, 4, 8 and so on.
pub open spec fn is_power_of_two(n: nat) -> bool
    decreases n,
{
    n == 1 || (n >= 2 && n % 2 == 0 && is_power_of_two(n / 2))
}

proof fn lemma_doubled_up_to(power: nat, capacity: nat)
    requires
        1 <= power < 2 * capacity,
        is_power_of_two(power),
    ensures
        capacity <= doubled_up_to(power, capacity) < 2 * capacity,
        power <= doubled_up_to(power, capacity),
        is_power_of_two(doubled_up_to(power, capacity)),
        forall|smaller: nat|
            power <= smaller < doubled_up_to(power, capacity) && is_power_of_two(smaller)
                ==> smaller < capacity,
    decreases (if capacity > power {
            capacity - power
        } else {
            0
        }),
{
    if power < capacity {
        assert((2 * power) / 2 == power);
        lemma_doubled_up_to(2 * power, capacity);
        assert forall|smaller: nat|
            power <= smaller < doubled_up_to(power, capacity) && is_power_of_two(
                smaller,
            ) implies smaller < capacity by {
            if smaller < 2 * power {
                if smaller > power {
                    lemma_no_power_between(power, smaller);
                }
            }
        }
    }
}

/// Between a power of two and its double lies no power of two.
proof fn lemma_no_power_between(power: nat, n: nat)
    requires
        is_power_of_two(power),
        power < n < 2 * power,
    ensures
        !is_power_of_two(n),
    decreases power,
{
    if power >= 2 && n % 2 == 0 {
        lemma_no_power_between(power / 2, n / 2);
    }
}

/// What a channel keeps is a power of two, no smaller than what was asked
/// for and less than twice as large, and no smaller power of two would do.
pub proof fn lemma_kept_for(capacity: nat)
    requires
        capacity >= 1,
    ensures
        capacity <= kept_for(capacity) < 2 * capacity,
        is_power_of_two(kept_for(capacity)),
        forall|smaller: nat|
            smaller < kept_for(capacity) && is_power_of_two(smaller) ==> smaller < capacity,
{
    lemma_doubled_up_to(1, capacity);
    assert forall|smaller: nat|
        smaller < kept_for(capacity) && is_power_of_two(smaller) implies smaller < capacity by {
        assert(smaller >= 1);
    }
}

/// Calls `tokio::sync::broadcast::channel`, which panics on a capacity of
/// zero or above half of `usize::MAX`; both are excluded here. The channel
/// rounds the capacity up to the next power of two and builds its ring of
/// that many slots. Both handles belong to this one channel; nothing else
/// is claimed of them.
#[verifier::external_body]
fn open_channel(capacity: usize) -> (halves: (Sender<ProcessData>, Receiver<ProcessData>))
    requires
        0 < capacity <= MAX_CAPACITY,
    ensures
        sender_capacity(halves.0) == kept_for(capacity as nat),
        receiver_capacity(halves.1) == kept_for(capacity as nat),
{
    tokio::sync::broadcast::channel(capacity)
}

/// Calls `Sender::send`. When no receiver is left the call fails and hands
/// the entry back as it was; otherwise it reports how many receivers are
/// subscribed, which is at least one.
#[verifier::external_body]
fn send_entry(tx: &Sender<ProcessData>, entry: ProcessData) -> (outcome: Result<
    usize,
    ProcessData,
>)
    ensures
        outcome matches Ok(receivers) ==> receivers >= 1,
        outcome matches Err(returned) ==> returned == entry,
{
    match tx.send(entry) {
        Ok(receivers) => Ok(receivers),
        Err(refused) => Err(refused.0),
    }
}

/// Calls `Sender::subscribe`: a new receiver on the sender's own channel,
/// which therefore keeps as many entries for it, and which sees what is
/// sent from now on. The channel refuses, with a panic, to have more
/// than a quarter of `usize::MAX` receivers at once, which is more than can
/// be held in memory.
#[verifier::external_body]
fn subscribe_to(tx: &Sender<ProcessData>) -> (rx: Receiver<ProcessData>)
    ensures
        receiver_capacity(rx) == sender_capacity(*tx),
{
    tx.subscribe()
}

/// Calls `Receiver::try_recv` and names its four answers. A reported gap
/// counts at least one discarded entry. The receiver stays on its channel,
/// whose capacity is what it was.
#[verifier::external_body]
fn try_receive(rx: &mut Receiver<ProcessData>) -> (delivery: Delivery)
    ensures
        delivery matches Delivery::Gap(missed) ==> missed >= 1,
        receiver_capacity(*final(rx)) == receiver_capacity(*old(rx)),
{
    match rx.try_recv() {
        Ok(entry) => Delivery::Entry(entry),
        Err(tokio::sync::broadcast::error::TryRecvError::Lagged(missed)) => Delivery::Gap(missed),
        Err(tokio::sync::broadcast::error::TryRecvError::Empty) => Delivery::Idle,
        Err(tokio::sync::broadcast::error::TryRecvError::Closed) => Delivery::Closed,
    }
}

/// The publishing side of the change feed. It keeps account of what it
/// was given to publish.
pub struct Broadcaster {
    tx: Sender<ProcessData>,
    sent: Ghost<Seq<ProcessEntry>>,
}

impl core::fmt::Debug for Broadcaster {
    /// Writes the feed's channel handle with `write!`; the account of what
    /// was published has no form at run time. Nothing is claimed of the
    /// text.
    #[verifier::external_body]
    fn fmt(&self, f: &mut core::fmt::Formatter<'_>) -> core::fmt::Result {
        write!(f, "Broadcaster {{ tx: {:?} }}", self.tx)
    }
}

/// One listener of the change feed, with its own place in the stream of
/// published entries.
#[derive(Debug)]
pub struct Subscriber {
    rx: Receiver<ProcessData>,
}

/// How many subscribers a publication reached, given the channel's answer:
/// the count it reported, or none where it handed the entry back.
pub fn reached(outcome: &Result<usize, ProcessData>) -> (count: usize)
    ensures
        count == match *outcome {
            Ok(receivers) => receivers,
            Err(_) => 0usize,
        },
{
    match outcome {
        Ok(receivers) => *receivers,
        Err(_) => 0,
    }
}

impl Broadcaster {
    /// How many entries this feed keeps for a subscriber that does not
    /// keep up, before it discards the oldest.
    pub closed spec fn capacity(&self) -> nat {
        sender_capacity(self.tx)
    }

    /// The entries that this feed has handed to its channel since it was
    /// opened, in the order in which it did.
    pub closed spec fn published(&self) -> Seq<ProcessEntry> {
        self.sent@
    }

    /// A feed that is asked to keep `capacity` entries and keeps the least
    /// power of two that is no smaller, together with its first
    /// subscriber. Nothing has been published on it.
    pub fn new(capacity: usize) -> (halves: (Broadcaster, Subscriber))
        requires
            0 < capacity <= MAX_CAPACITY,
        ensures
            halves.0.capacity() == kept_for(capacity as nat),
            halves.1.capacity() == kept_for(capacity as nat),
            halves.0.published() == Seq::<ProcessEntry>::empty(),
    {
        let (tx, rx) = open_channel(capacity);
        (Broadcaster { tx, sent: Ghost(Seq::empty()) }, Subscriber { rx })
    }

    /// As [`Broadcaster::new`], for any capacity: `None` where the channel
    /// cannot be opened with it.
    pub fn with_capacity(capacity: usize) -> (halves: Option<(Broadcaster, Subscriber)>)
        ensures
            halves is Some <==> 0 < capacity <= MAX_CAPACITY,
            halves matches Some(opened) ==> opened.0.capacity() == kept_for(capacity as nat)
                && opened.1.capacity() == kept_for(capacity as nat)
                && opened.0.published() == Seq::<ProcessEntry>::empty(),
    {
        if 0 < capacity && capacity <= MAX_CAPACITY {
            Some(Broadcaster::new(capacity))
        } else {
            None
        }
    }

    /// Hands `entry` to the channel for every current subscriber, notes
    /// it as published, and says how many subscribers there were. It never
    /// waits for a subscriber and never fails: with no subscriber the entry
    /// is dropped and the count is 0.
    pub fn publish(&mut self, entry: ProcessData) -> (count: usize)
        ensures
            final(self).published() == old(self).published().push(entry@),
            final(self).capacity() == old(self).capacity(),
    {
        let ghost handed = entry@;
        let outcome = send_entry(&self.tx, entry);
        self.sent = Ghost(self.sent@.push(handed));
        reached(&outcome)
    }

    /// A new subscriber of this feed, bounded as the feed is, which receives
    /// what is published from now on and nothing that was published before.
    pub fn subscribe(&self) -> (subscriber: Subscriber)
        ensures
            subscriber.capacity() == self.capacity(),
    {
        Subscriber { rx: subscribe_to(&self.tx) }
    }
}

impl Subscriber {
    /// How many entries the feed keeps for this subscriber.
    pub closed spec fn capacity(&self) -> nat {
        receiver_capacity(self.rx)
    }

    /// The channel handle that this subscription holds.
    pub closed spec fn receiver(self) -> Receiver<ProcessData> {
        self.rx
    }

    /// Takes the next thing that waits for this subscriber, without
    /// waiting for one: an entry, the report of a gap, or nothing. The
    /// subscription goes on, on the same feed.
    pub fn poll(&mut self) -> (delivery: Delivery)
        ensures
            delivery matches Delivery::Gap(missed) ==> missed >= 1,
            final(self).capacity() == old(self).capacity(),
    {
        try_receive(&mut self.rx)
    }

    /// Gives up the subscription's channel handle, for a transport that
    /// waits on it.
    pub fn into_receiver(self) -> (rx: Receiver<ProcessData>)
        ensures
            rx == self.receiver(),
            receiver_capacity(rx) == self.capacity(),
    {
        self.rx
    }
}

} // verus!
