//! The outbound channel: a bounded queue from the relay to one connection.
//!
//! The producer never blocks. When the queue is full, the oldest message that
//! was not taken out yet is dropped to make room for the newest one.

use crate::message::{BroadcastMessage, MessageView};
use std::collections::VecDeque;
use vstd::prelude::*;

verus! {

/// The capacity of a channel that is opened without naming one.
pub const DEFAULT_CHANNEL_CAPACITY: usize = 100;

/// The mathematical value of an [`OutboundChannel`]: its capacity and the
/// queued messages, oldest first.
pub struct ChannelView {
    pub capacity: nat,
    pub queue: Seq<MessageView>,
}

/// The last `n` items of `items`, or all of them where there are fewer.
pub open spec fn newest<T>(items: Seq<T>, n: nat) -> Seq<T> {
    if items.len() <= n {
        items
    } else {
        items.skip(items.len() - n)
    }
}

impl ChannelView {
    /// The empty channel of the given capacity.
    pub open spec fn empty(capacity: nat) -> ChannelView {
        ChannelView { capacity, queue: Seq::empty() }
    }

    /// No more messages are queued than the capacity allows.
    pub open spec fn wf(self) -> bool {
        self.queue.len() <= self.capacity
    }

    /// The channel after `message` was enqueued: the message goes to the back,
    /// and the front is dropped where the capacity would be exceeded.
    pub open spec fn push(self, message: MessageView) -> ChannelView {
        ChannelView { capacity: self.capacity, queue: newest(self.queue.push(message), self.capacity) }
    }

    /// The channel after each of `messages` was enqueued in turn.
    pub open spec fn push_all(self, messages: Seq<MessageView>) -> ChannelView
        decreases messages.len(),
    {
        if messages.len() == 0 {
            self
        } else {
            self.push(messages.first()).push_all(messages.drop_first())
        }
    }

    /// The channel after its oldest message was taken out.
    pub open spec fn pop(self) -> ChannelView {
        if self.queue.len() == 0 {
            self
        } else {
            ChannelView { capacity: self.capacity, queue: self.queue.drop_first() }
        }
    }

    /// The oldest message, if any is queued.
    pub open spec fn front(self) -> Option<MessageView> {
        if self.queue.len() == 0 {
            None
        } else {
            Some(self.queue.first())
        }
    }
}

/// Enqueuing keeps a channel within its capacity.
pub proof fn lemma_push_keeps_wf(channel: ChannelView, message: MessageView)
    requires
        channel.wf(),
    ensures
        channel.push(message).wf(),
        channel.push(message).capacity == channel.capacity,
{
}

/// A channel that holds anything at all holds the message enqueued last at
/// its back, and what was queued before it, as far as it fits, in front.
pub proof fn lemma_push_is_newest(channel: ChannelView, message: MessageView)
    requires
        channel.wf(),
        channel.capacity > 0,
    ensures
        channel.push(message).queue.len() > 0,
        channel.push(message).queue.last() == message,
        channel.push(message).queue.drop_last() == newest(channel.queue, (channel.capacity - 1) as nat),
{
    let kept = channel.push(message).queue;
    assert(kept.drop_last() =~= newest(channel.queue, (channel.capacity - 1) as nat));
}

/// While there is room, nothing is dropped and what was enqueued first comes
/// out first.
pub proof fn lemma_first_in_first_out(channel: ChannelView, first: MessageView, second: MessageView)
    requires
        channel.queue.len() + 2 <= channel.capacity,
    ensures
        channel.push(first).push(second).queue == channel.queue.push(first).push(second),
        channel.queue.len() == 0 ==> channel.push(first).push(second).front() == Some(first),
        channel.queue.len() == 0 ==> channel.push(first).push(second).pop().front() == Some(second),
{
    let two = channel.push(first).push(second);
    assert(two.queue =~= channel.queue.push(first).push(second));
    if channel.queue.len() == 0 {
        assert(two.pop().queue =~= seq![second]);
    }
}

/// Enqueuing any run of messages, with nothing taken out in between, leaves
/// exactly the newest `capacity` of everything that was ever queued, in the
/// order of arrival: the oldest are the ones dropped.
pub proof fn lemma_push_all_keeps_newest(channel: ChannelView, messages: Seq<MessageView>)
    requires
        channel.wf(),
    ensures
        channel.push_all(messages).capacity == channel.capacity,
        channel.push_all(messages).queue == newest(channel.queue + messages, channel.capacity),
        channel.push_all(messages).wf(),
    decreases messages.len(),
{
    if messages.len() == 0 {
        assert(channel.queue + messages =~= channel.queue);
    } else {
        let head = messages.first();
        let tail = messages.drop_first();
        let next = channel.push(head);
        lemma_push_all_keeps_newest(next, tail);
        let all = channel.queue + messages;
        assert(channel.queue.push(head) + tail =~= all);
        assert(newest(next.queue + tail, channel.capacity) =~= newest(all, channel.capacity));
    }
}

/// One message more than the capacity, enqueued into an empty channel, leaves
/// the channel full with all but the first of them.
pub proof fn lemma_overflow_by_one_drops_oldest(capacity: nat, messages: Seq<MessageView>)
    requires
        messages.len() == capacity + 1,
    ensures
        ChannelView::empty(capacity).push_all(messages).queue == messages.drop_first(),
        ChannelView::empty(capacity).push_all(messages).queue.len() == capacity,
{
    let start = ChannelView::empty(capacity);
    lemma_push_all_keeps_newest(start, messages);
    assert(start.queue + messages =~= messages);
    assert(messages.skip(1) =~= messages.drop_first());
}

/// A bounded first-in, first-out queue of messages for one connection.
#[derive(Debug)]
pub struct OutboundChannel {
    queue: VecDeque<BroadcastMessage>,
    capacity: usize,
}

impl View for OutboundChannel {
    type V = ChannelView;

    closed spec fn view(&self) -> ChannelView {
        ChannelView {
            capacity: self.capacity as nat,
            queue: self.queue@.map_values(|m: BroadcastMessage| m@),
        }
    }
}

impl OutboundChannel {
    /// The queue never holds more than `capacity` messages.
    pub open spec fn wf(&self) -> bool {
        self@.wf()
    }

    /// An empty channel that holds up to `capacity` messages.
    pub fn new(capacity: usize) -> (channel: Self)
        ensures
            channel@ == ChannelView::empty(capacity as nat),
            channel.wf(),
    {
        let channel = OutboundChannel { queue: VecDeque::new(), capacity };
        assert(channel@.queue =~= Seq::empty());
        channel
    }

    /// The most messages the channel holds at a time.
    pub fn capacity(&self) -> (capacity: usize)
        ensures
            capacity == self@.capacity,
    {
        self.capacity
    }

    /// How many messages are queued.
    pub fn len(&self) -> (len: usize)
        ensures
            len == self@.queue.len(),
    {
        self.queue.len()
    }

    pub fn is_empty(&self) -> (empty: bool)
        ensures
            empty == (self@.queue.len() == 0),
    {
        self.queue.len() == 0
    }

    /// Enqueues `message`; drops the oldest queued message first where the
    /// channel is full. Never refuses and never waits.
    pub fn push(&mut self, message: BroadcastMessage)
        requires
            old(self).wf(),
        ensures
            final(self)@ == old(self)@.push(message@),
            final(self).wf(),
    {
        let ghost before = self@;
        if self.capacity == 0 {
            assert(before.push(message@).queue =~= before.queue);
            return ;
        }
        if self.queue.len() == self.capacity {
            let _ = self.queue.pop_front();
        }
        self.queue.push_back(message);
        assert(self@.queue =~= before.push(message@).queue);
    }

    /// Takes the oldest message out, or returns `None` where nothing is queued.
    pub fn pop(&mut self) -> (message: Option<BroadcastMessage>)
        requires
            old(self).wf(),
        ensures
            final(self)@ == old(self)@.pop(),
            final(self).wf(),
            match message {
                Some(m) => old(self)@.front() == Some(m@),
                None => old(self)@.front() is None,
            },
    {
        let ghost before = self@;
        let message = self.queue.pop_front();
        assert(self@.queue =~= before.pop().queue);
        message
    }
}

} // verus!
