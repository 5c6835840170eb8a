//! Per-thread broadcast channels: each thread that has been published to or
//! subscribed to has one channel, made with the hub's capacity.

use vstd::prelude::*;

use std::collections::HashMap;
use tokio::sync::broadcast::{Receiver, Sender};

use crate::events::ThreadEvent;

verus! {

broadcast use vstd::std_specs::hash::group_hash_axioms;

#[verifier::external_type_specification]
#[verifier::external_body]
#[verifier::reject_recursive_types(T)]
pub struct ExSender<T>(tokio::sync::broadcast::Sender<T>);

#[verifier::external_type_specification]
#[verifier::external_body]
#[verifier::reject_recursive_types(T)]
pub struct ExReceiver<T>(tokio::sync::broadcast::Receiver<T>);

/// The capacity that the channel behind a sender was made with: the
/// number asked of `broadcast::channel` (tokio rounds its buffer up to a
/// power of two; this is the number asked, not the buffer's size). Every
/// sender of one channel shares it.
pub uninterp spec fn channel_capacity(sender: Sender<ThreadEvent>) -> usize;

/// Which channel a sender belongs to: two senders have the same value
/// exactly when `Sender::same_channel` says they share a channel.
pub uninterp spec fn channel_of(sender: Sender<ThreadEvent>) -> int;

/// Which channel a receiver listens on, in the same numbering as
/// `channel_of`.
pub uninterp spec fn receiver_channel(receiver: Receiver<ThreadEvent>) -> int;

/// A capacity that `tokio::sync::broadcast::channel` accepts: it panics on
/// zero and on more than `usize::MAX / 2`.
pub open spec fn capacity_accepted(capacity: usize) -> bool {
    0 < capacity <= usize::MAX / 2
}

/// Calls `tokio::sync::broadcast::channel(capacity)` and keeps the sender;
/// the receiver made with it is dropped at once. The channel is made with
/// `capacity`, and it is a new channel: its shared state is a new
/// allocation, so it differs from the channel of every sender in `live`,
/// which holds those senders (and so their channels) alive. That the new
/// channel has no receiver is not claimed: receiver counts change with
/// handles held elsewhere and have no name here.
#[verifier::external_body]
fn open_channel(capacity: usize, live: &HashMap<u128, Sender<ThreadEvent>>) -> (sender: Sender<ThreadEvent>)
    requires
        capacity_accepted(capacity),
    ensures
        channel_capacity(sender) == capacity,
        forall|k: u128| #[trigger] live@.contains_key(k) ==> channel_of(sender) != channel_of(live@[k]),
{
    let _ = live;
    tokio::sync::broadcast::channel(capacity).0
}

/// Calls `Sender::clone`, which gives another sender of the same channel.
#[verifier::external_body]
fn clone_sender(sender: &Sender<ThreadEvent>) -> (other: Sender<ThreadEvent>)
    ensures
        channel_of(other) == channel_of(*sender),
        channel_capacity(other) == channel_capacity(*sender),
{
    sender.clone()
}

/// Calls `Sender::subscribe`: a receiver of the same channel, which gets
/// the events sent on it after the call (what it receives is tokio's and is
/// not claimed here).
#[verifier::external_body]
fn subscribe_to(sender: &Sender<ThreadEvent>) -> (receiver: Receiver<ThreadEvent>)
    ensures
        receiver_channel(receiver) == channel_of(*sender),
{
    sender.subscribe()
}

/// Calls `Sender::send`, which hands the event to every receiver of the
/// channel and returns how many there were, or fails when there is none.
/// How many receivers there are depends on handles held elsewhere, so which
/// outcome comes back is not claimed; only that a successful send reached
/// at least one receiver (tokio answers `Err` when the count is zero).
#[verifier::external_body]
fn send_to(sender: &Sender<ThreadEvent>, event: ThreadEvent) -> (delivered: Option<usize>)
    ensures
        delivered matches Some(n) ==> n >= 1,
{
    sender.send(event).ok()
}

/// Calls `Sender::receiver_count`. Receivers are dropped elsewhere at any
/// time, so nothing is claimed of the count.
#[verifier::external_body]
fn receivers_of(sender: &Sender<ThreadEvent>) -> (count: usize) {
    sender.receiver_count()
}

/// Whether a thread's channel is dropped, given the receiver count of its
/// channel (`None` when the thread has none): only a channel that exists
/// and has no receiver left is dropped.
pub fn should_remove(receivers: Option<usize>) -> (r: bool)
    ensures
        r == (receivers == Some(0usize)),
{
    match receivers {
        Some(n) => n == 0,
        None => false,
    }
}

/// No two threads share a channel.
pub open spec fn channels_distinct(m: Map<u128, Sender<ThreadEvent>>) -> bool {
    forall|a: u128, b: u128|
        #![trigger m[a], m[b]]
        m.contains_key(a) && m.contains_key(b) && a != b ==> channel_of(m[a]) != channel_of(m[b])
}

/// Every channel was made with `capacity`.
pub open spec fn channels_made_with(m: Map<u128, Sender<ThreadEvent>>, capacity: usize) -> bool {
    forall|id: u128| #[trigger] m.contains_key(id) ==> channel_capacity(m[id]) == capacity
}

/// An event paired with a sender of the channel it goes out on.
pub struct Publication {
    pub sender: Sender<ThreadEvent>,
    pub event: ThreadEvent,
}

impl Publication {
    /// Sends the event on the sender's channel, to the receivers it has
    /// now; returns how many there were, `None` when there was none (the
    /// event is then dropped). A count that comes back is never zero;
    /// whether anyone was listening depends on receivers held elsewhere.
    pub fn send(self) -> (delivered: Option<usize>)
        ensures
            delivered matches Some(n) ==> n >= 1,
    {
        send_to(&self.sender, self.event)
    }
}

/// The channels of the threads, keyed by thread id.
pub struct ThreadEventHub {
    capacity: usize,
    channels: HashMap<u128, Sender<ThreadEvent>>,
}

impl View for ThreadEventHub {
    type V = Map<u128, Sender<ThreadEvent>>;

    closed spec fn view(&self) -> Map<u128, Sender<ThreadEvent>> {
        self.channels@
    }
}

/// What getting a thread's channel does to the hub: a thread that has a
/// channel keeps it and nothing changes; otherwise only that thread gains a
/// channel, a new one, unlike every channel there was, made with the hub's
/// capacity.
pub open spec fn gains_channel(
    before: Map<u128, Sender<ThreadEvent>>,
    after: Map<u128, Sender<ThreadEvent>>,
    thread_id: u128,
    capacity: usize,
) -> bool {
    &&& after.contains_key(thread_id)
    &&& before.contains_key(thread_id) ==> after == before
    &&& !before.contains_key(thread_id) ==> {
        &&& after == before.insert(thread_id, after[thread_id])
        &&& channel_capacity(after[thread_id]) == capacity
        &&& forall|k: u128| #[trigger] before.contains_key(k) ==> channel_of(after[thread_id]) != channel_of(before[k])
    }
}

impl ThreadEventHub {
    /// Every channel has the hub's capacity, and no two threads share one.
    #[verifier::type_invariant]
    spec fn well_formed(self) -> bool {
        &&& channels_made_with(self.channels@, self.capacity)
        &&& channels_distinct(self.channels@)
    }

    /// The capacity that new channels are made with.
    pub closed spec fn capacity_of(self) -> usize {
        self.capacity
    }

    /// A hub with no channel, whose channels will be made with `capacity`.
    pub fn new(capacity: usize) -> (hub: Self)
        ensures
            hub@ == Map::<u128, Sender<ThreadEvent>>::empty(),
            hub.capacity_of() == capacity,
    {
        ThreadEventHub { capacity, channels: HashMap::new() }
    }

    /// The capacity that new channels are made with; every channel of the
    /// hub was made with it, and no two threads share a channel.
    pub fn capacity(&self) -> (c: usize)
        ensures
            c == self.capacity_of(),
            channels_made_with(self@, c),
            channels_distinct(self@),
    {
        proof {
            use_type_invariant(self);
        }
        self.capacity
    }

    /// A sender of the thread's channel, if the thread has one; the hub is
    /// left as it is.
    pub fn sender_for(&self, thread_id: u128) -> (s: Option<Sender<ThreadEvent>>)
        ensures
            s is Some <==> self@.contains_key(thread_id),
            s matches Some(sender) ==> {
                &&& channel_of(sender) == channel_of(self@[thread_id])
                &&& channel_capacity(sender) == self.capacity_of()
            },
    {
        proof {
            use_type_invariant(self);
        }
        match self.channels.get(&thread_id) {
            Some(sender) => Some(clone_sender(sender)),
            None => None,
        }
    }

    /// A sender of the thread's channel; a thread without one first gets a
    /// new channel made with the hub's capacity. No other thread's channel
    /// changes, so a second call for the same thread gives a sender of the
    /// same channel.
    pub fn get_or_create_sender(&mut self, thread_id: u128) -> (s: Sender<ThreadEvent>)
        requires
            old(self)@.contains_key(thread_id) || capacity_accepted(old(self).capacity_of()),
        ensures
            final(self).capacity_of() == old(self).capacity_of(),
            gains_channel(old(self)@, final(self)@, thread_id, old(self).capacity_of()),
            channels_distinct(final(self)@),
            channel_of(s) == channel_of(final(self)@[thread_id]),
            channel_capacity(s) == old(self).capacity_of(),
    {
        proof {
            use_type_invariant(&*self);
        }
        match self.channels.get(&thread_id) {
            Some(sender) => {
                return clone_sender(sender);
            },
            None => {},
        }
        let sender = open_channel(self.capacity, &self.channels);
        let copy = clone_sender(&sender);
        let mut channels: HashMap<u128, Sender<ThreadEvent>> = HashMap::new();
        std::mem::swap(&mut channels, &mut self.channels);
        let ghost before = channels@;
        channels.insert(thread_id, sender);
        assert(channels_made_with(channels@, self.capacity)) by {
            assert forall|id: u128| #[trigger] channels@.contains_key(id) implies channel_capacity(channels@[id])
                == self.capacity by {
                if id != thread_id {
                    assert(before.contains_key(id));
                }
            }
        }
        assert(channels_distinct(channels@)) by {
            assert forall|a: u128, b: u128|
                channels@.contains_key(a) && channels@.contains_key(b) && a != b implies channel_of(
                #[trigger] channels@[a],
            ) != channel_of(#[trigger] channels@[b]) by {
                if a == thread_id {
                    assert(before.contains_key(b));
                } else if b == thread_id {
                    assert(before.contains_key(a));
                } else {
                    assert(before.contains_key(a) && before.contains_key(b));
                }
            }
        }
        self.channels = channels;
        copy
    }

    /// A receiver of the thread's channel, which gets the events sent on it
    /// from now on; a thread without a channel first gets a new one.
    pub fn subscribe(&mut self, thread_id: u128) -> (r: Receiver<ThreadEvent>)
        requires
            old(self)@.contains_key(thread_id) || capacity_accepted(old(self).capacity_of()),
        ensures
            final(self).capacity_of() == old(self).capacity_of(),
            gains_channel(old(self)@, final(self)@, thread_id, old(self).capacity_of()),
            channels_distinct(final(self)@),
            receiver_channel(r) == channel_of(final(self)@[thread_id]),
    {
        let sender = self.get_or_create_sender(thread_id);
        subscribe_to(&sender)
    }

    /// The event paired with a sender of the thread's channel, ready to be
    /// sent (the send itself, `Publication::send`, needs no hold on the
    /// hub); a thread without a channel first gets a new one.
    pub fn publish(&mut self, thread_id: u128, event: ThreadEvent) -> (p: Publication)
        requires
            old(self)@.contains_key(thread_id) || capacity_accepted(old(self).capacity_of()),
        ensures
            final(self).capacity_of() == old(self).capacity_of(),
            gains_channel(old(self)@, final(self)@, thread_id, old(self).capacity_of()),
            channels_distinct(final(self)@),
            channel_of(p.sender) == channel_of(final(self)@[thread_id]),
            p.event == event,
    {
        let sender = self.get_or_create_sender(thread_id);
        Publication { sender, event }
    }

    /// Drops the thread's channel if nobody receives from it any more, and
    /// returns the receiver count it read from that channel (`None` when the
    /// thread has no channel). The channel is dropped exactly when that
    /// count is zero; no other thread's channel changes. That the count is
    /// the one the thread's channel had at the call is not claimed:
    /// receiver counts change with handles held elsewhere and have no name
    /// here.
    pub fn remove_if_unused(&mut self, thread_id: u128) -> (receivers: Option<usize>)
        ensures
            final(self).capacity_of() == old(self).capacity_of(),
            receivers is Some <==> old(self)@.contains_key(thread_id),
            final(self)@ == if receivers == Some(0usize) {
                old(self)@.remove(thread_id)
            } else {
                old(self)@
            },
            channels_distinct(final(self)@),
    {
        proof {
            use_type_invariant(&*self);
        }
        let receivers = match self.channels.get(&thread_id) {
            Some(sender) => Some(receivers_of(sender)),
            None => None,
        };
        if should_remove(receivers) {
            let mut channels: HashMap<u128, Sender<ThreadEvent>> = HashMap::new();
            std::mem::swap(&mut channels, &mut self.channels);
            let ghost before = channels@;
            channels.remove(&thread_id);
            assert(channels_made_with(channels@, self.capacity)) by {
                assert forall|id: u128| #[trigger] channels@.contains_key(id) implies channel_capacity(
                    channels@[id],
                ) == self.capacity by {
                    assert(before.contains_key(id));
                }
            }
            assert(channels_distinct(channels@)) by {
                assert forall|a: u128, b: u128|
                    channels@.contains_key(a) && channels@.contains_key(b) && a != b implies channel_of(
                    #[trigger] channels@[a],
                ) != channel_of(#[trigger] channels@[b]) by {
                    assert(before.contains_key(a) && before.contains_key(b));
                }
            }
            self.channels = channels;
        }
        receivers
    }
}

/// Events go to their own thread only: in a hub where no two threads share
/// a channel, a receiver of one thread's channel never listens on the
/// channel that another thread's events are sent on.
pub proof fn events_stay_in_their_thread(
    m: Map<u128, Sender<ThreadEvent>>,
    subscribed: u128,
    published: u128,
    receiver: Receiver<ThreadEvent>,
    publication: Publication,
)
    requires
        channels_distinct(m),
        m.contains_key(subscribed),
        m.contains_key(published),
        subscribed != published,
        receiver_channel(receiver) == channel_of(m[subscribed]),
        channel_of(publication.sender) == channel_of(m[published]),
    ensures
        receiver_channel(receiver) != channel_of(publication.sender),
{
}

/// Publishing and subscribing to one thread meet on one channel: a receiver
/// and a publication that both name the thread's current channel are on the
/// same channel.
pub proof fn subscribers_hear_their_thread(
    m: Map<u128, Sender<ThreadEvent>>,
    thread_id: u128,
    receiver: Receiver<ThreadEvent>,
    publication: Publication,
)
    requires
        m.contains_key(thread_id),
        receiver_channel(receiver) == channel_of(m[thread_id]),
        channel_of(publication.sender) == channel_of(m[thread_id]),
    ensures
        receiver_channel(receiver) == channel_of(publication.sender),
{
}

/// Getting a thread's channel never disturbs another thread: every other
/// thread keeps exactly the channel it had, a thread that had a channel
/// keeps it, and a new channel differs from every channel there was.
pub proof fn getting_a_channel_keeps_the_others(
    before: Map<u128, Sender<ThreadEvent>>,
    after: Map<u128, Sender<ThreadEvent>>,
    thread_id: u128,
    capacity: usize,
    other: u128,
)
    requires
        gains_channel(before, after, thread_id, capacity),
        before.contains_key(other),
        other != thread_id,
    ensures
        after.contains_key(other),
        after[other] == before[other],
        after.contains_key(thread_id),
        before.contains_key(thread_id) ==> after[thread_id] == before[thread_id],
        !before.contains_key(thread_id) ==> channel_of(after[thread_id]) != channel_of(before[other]),
        !before.contains_key(thread_id) ==> channel_capacity(after[thread_id]) == capacity,
{
}

} // verus!
