//! The reading channel: one slot that holds the latest value of a
//! measurement, and for every subscriber a mark that says whether it has
//! taken that value yet. A publish overwrites; nothing is queued.

use vstd::prelude::*;

verus! {

/// What a channel holds: the value published last, and for each subscriber
/// whether it has not yet taken it.
pub struct ChannelState<T> {
    pub latest: Option<T>,
    pub unseen: Seq<bool>,
}

/// An operation on a channel.
pub enum ChannelOp<T> {
    /// The writer publishes a value.
    Publish(T),
    /// The subscriber with this index asks for the next value.
    Poll(int),
}

impl<T> ChannelState<T> {
    /// A channel for `subscribers` readers, before the first publish.
    pub open spec fn fresh(subscribers: nat) -> ChannelState<T> {
        ChannelState { latest: None, unseen: Seq::new(subscribers, |i: int| false) }
    }

    /// A subscriber is marked only while there is a value to take.
    pub open spec fn wf(self) -> bool {
        forall|i: int| 0 <= i < self.unseen.len() && self.unseen[i] ==> self.latest is Some
    }

    /// The channel after a publish: the value replaces what the slot held and
    /// is unseen by every subscriber.
    pub open spec fn publish(self, value: T) -> ChannelState<T> {
        ChannelState { latest: Some(value), unseen: Seq::new(self.unseen.len(), |i: int| true) }
    }

    /// What a subscriber's wait resolves with, if it resolves now: the value
    /// in the slot, where the subscriber has not taken it yet.
    pub open spec fn pending(self, subscriber: int) -> Option<T> {
        if 0 <= subscriber < self.unseen.len() && self.unseen[subscriber] {
            self.latest
        } else {
            None
        }
    }

    /// The channel after a subscriber asked for the next value: whatever was
    /// there is now seen by it, and nothing else changes.
    pub open spec fn poll(self, subscriber: int) -> ChannelState<T> {
        if 0 <= subscriber < self.unseen.len() {
            ChannelState { unseen: self.unseen.update(subscriber, false), ..self }
        } else {
            self
        }
    }

    /// The channel after one operation.
    pub open spec fn apply(self, op: ChannelOp<T>) -> ChannelState<T> {
        match op {
            ChannelOp::Publish(value) => self.publish(value),
            ChannelOp::Poll(subscriber) => self.poll(subscriber),
        }
    }

    /// The channel after a sequence of operations.
    pub open spec fn run(self, ops: Seq<ChannelOp<T>>) -> ChannelState<T>
        decreases ops.len(),
    {
        if ops.len() == 0 {
            self
        } else {
            self.run(ops.drop_last()).apply(ops.last())
        }
    }

    /// The channel after a sequence of publishes.
    pub open spec fn publish_all(self, values: Seq<T>) -> ChannelState<T>
        decreases values.len(),
    {
        if values.len() == 0 {
            self
        } else {
            self.publish_all(values.drop_last()).publish(values.last())
        }
    }
}

/// What a subscriber is owed after a sequence of operations, told from the
/// sequence alone: the value of the last publish, unless the subscriber has
/// asked since; `before` where the sequence holds neither.
pub open spec fn owed<T>(before: Option<T>, ops: Seq<ChannelOp<T>>, subscriber: int) -> Option<T>
    decreases ops.len(),
{
    if ops.len() == 0 {
        before
    } else {
        match ops.last() {
            ChannelOp::Publish(value) => Some(value),
            ChannelOp::Poll(who) => if who == subscriber {
                None
            } else {
                owed(before, ops.drop_last(), subscriber)
            },
        }
    }
}

/// A single-slot broadcast cell for the latest value of one measurement.
pub struct ReadingChannel<T> {
    slot: Option<T>,
    unseen: Vec<bool>,
}

impl<T> View for ReadingChannel<T> {
    type V = ChannelState<T>;

    closed spec fn view(&self) -> ChannelState<T> {
        ChannelState { latest: self.slot, unseen: self.unseen@ }
    }
}

impl<T: Copy> ReadingChannel<T> {
    /// A channel with the given number of subscribers and no value.
    pub fn new(subscribers: usize) -> (channel: Self)
        ensures
            channel@ == ChannelState::<T>::fresh(subscribers as nat),
    {
        let mut unseen: Vec<bool> = Vec::new();
        let mut i: usize = 0;
        while i < subscribers
            invariant
                i <= subscribers,
                unseen@.len() == i,
                forall|k: int| 0 <= k < i ==> !unseen@[k],
            decreases subscribers - i,
        {
            unseen.push(false);
            i += 1;
        }
        let channel = ReadingChannel { slot: None, unseen };
        assert(channel@.unseen =~= ChannelState::<T>::fresh(subscribers as nat).unseen);
        channel
    }

    /// The number of subscribers, fixed when the channel was made.
    pub fn subscribers(&self) -> (n: usize)
        ensures
            n == self@.unseen.len(),
    {
        self.unseen.len()
    }

    /// Stores `value` and marks it unseen for every subscriber. Never fails
    /// and never waits; the value that the slot held is gone.
    pub fn publish(&mut self, value: T)
        ensures
            final(self)@ == old(self)@.publish(value),
    {
        let n = self.unseen.len();
        let mut unseen: Vec<bool> = Vec::new();
        let mut i: usize = 0;
        while i < n
            invariant
                i <= n,
                unseen@.len() == i,
                forall|k: int| 0 <= k < i ==> unseen@[k],
            decreases n - i,
        {
            unseen.push(true);
            i += 1;
        }
        let channel = ReadingChannel { slot: Some(value), unseen };
        assert(channel@.unseen =~= old(self)@.publish(value).unseen);
        *self = channel;
    }

    /// The part of a wait that does not suspend: hands out the value in the
    /// slot if this subscriber has not taken it yet, and marks it taken. A
    /// caller that gets `None` suspends until the next publish and asks
    /// again.
    pub fn poll_next(&mut self, subscriber: usize) -> (value: Option<T>)
        ensures
            value == old(self)@.pending(subscriber as int),
            final(self)@ == old(self)@.poll(subscriber as int),
    {
        if subscriber < self.unseen.len() {
            let fresh = self.unseen[subscriber];
            self.unseen.set(subscriber, false);
            if fresh {
                self.slot
            } else {
                None
            }
        } else {
            None
        }
    }
}

/// A well-formed channel stays so under every operation.
pub proof fn lemma_wf_kept<T>(state: ChannelState<T>, ops: Seq<ChannelOp<T>>)
    requires
        state.wf(),
    ensures
        state.run(ops).wf(),
        state.run(ops).unseen.len() == state.unseen.len(),
    decreases ops.len(),
{
    if ops.len() > 0 {
        lemma_wf_kept(state, ops.drop_last());
    }
}

/// Latest value wins: after any sequence of publishes and polls, a
/// subscriber's wait resolves exactly when a value was published since that
/// subscriber last asked, and then with the value published last, never with
/// an earlier one.
pub proof fn lemma_latest_value_wins<T>(
    state: ChannelState<T>,
    ops: Seq<ChannelOp<T>>,
    subscriber: int,
)
    requires
        0 <= subscriber < state.unseen.len(),
    ensures
        state.run(ops).pending(subscriber) == owed(state.pending(subscriber), ops, subscriber),
    decreases ops.len(),
{
    if ops.len() > 0 {
        lemma_latest_value_wins(state, ops.drop_last(), subscriber);
        lemma_run_len(state, ops.drop_last());
    }
}

/// No operation changes the number of subscribers.
pub proof fn lemma_run_len<T>(state: ChannelState<T>, ops: Seq<ChannelOp<T>>)
    ensures
        state.run(ops).unseen.len() == state.unseen.len(),
    decreases ops.len(),
{
    if ops.len() > 0 {
        lemma_run_len(state, ops.drop_last());
    }
}

/// Single slot: however many values are published, with or without
/// subscribers, the channel ends up exactly as if only the last one had been
/// published. Nothing accumulates.
pub proof fn lemma_publishes_conflate<T>(state: ChannelState<T>, values: Seq<T>)
    requires
        values.len() > 0,
    ensures
        state.publish_all(values) == state.publish(values.last()),
        state.unseen.len() == 0 ==> state.publish_all(values) == (ChannelState {
            latest: Some(values.last()),
            unseen: Seq::<bool>::empty(),
        }),
    decreases values.len(),
{
    let before = state.publish_all(values.drop_last());
    if values.len() > 1 {
        lemma_publishes_conflate(state, values.drop_last());
    }
    assert(before.unseen.len() == state.unseen.len());
    assert(before.publish(values.last()).unseen =~= state.publish(values.last()).unseen);
    if state.unseen.len() == 0 {
        assert(state.publish(values.last()).unseen =~= Seq::<bool>::empty());
    }
}

} // verus!
