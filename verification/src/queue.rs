//! Outbound chat messages waiting for delivery, one queue per backend.

use vstd::prelude::*;
use std::collections::VecDeque;

verus! {

/// The texts of a run of messages, in order.
pub open spec fn texts(messages: Seq<String>) -> Seq<Seq<char>> {
    Seq::new(messages.len(), |i: int| messages[i]@)
}

/// Messages for one backend, oldest first.
pub struct OutboundQueue {
    pub pending: VecDeque<String>,
}

impl View for OutboundQueue {
    type V = Seq<Seq<char>>;

    open spec fn view(&self) -> Seq<Seq<char>> {
        texts(self.pending@)
    }
}

impl OutboundQueue {
    /// A queue with nothing waiting.
    pub fn new() -> (queue: Self)
        ensures
            queue@ == Seq::<Seq<char>>::empty(),
    {
        let queue = OutboundQueue { pending: VecDeque::new() };
        assert(queue@ =~= Seq::<Seq<char>>::empty());
        queue
    }

    /// How many messages wait.
    pub fn len(&self) -> (n: usize)
        ensures
            n == self@.len(),
    {
        self.pending.len()
    }

    /// Appends a message behind all that wait.
    pub fn enqueue(&mut self, message: String)
        ensures
            final(self)@ == old(self)@.push(message@),
    {
        self.pending.push_back(message);
        assert(self@ =~= old(self)@.push(message@));
    }

    /// Takes the oldest message out, if any waits.
    pub fn next_message(&mut self) -> (r: Option<String>)
        ensures
            match r {
                Some(message) => old(self)@.len() > 0 && message@ == old(self)@[0] && final(self)@
                    == old(self)@.drop_first(),
                None => old(self)@.len() == 0 && final(self)@ == old(self)@,
            },
    {
        let r = self.pending.pop_front();
        assert(r.is_some() ==> self@ =~= old(self)@.drop_first());
        r
    }

    /// Takes every waiting message out, oldest first.
    pub fn drain(&mut self) -> (batch: Vec<String>)
        ensures
            texts(batch@) == old(self)@,
            batch@.len() == old(self)@.len(),
            final(self)@.len() == 0,
    {
        let mut batch: Vec<String> = Vec::new();
        assert(texts(batch@) + self@ =~= old(self)@);
        loop
            invariant
                texts(batch@) + self@ == old(self)@,
            ensures
                self@.len() == 0,
            decreases self@.len(),
        {
            let ghost before = self@;
            let ghost taken = texts(batch@);
            match self.next_message() {
                Some(message) => {
                    batch.push(message);
                    assert(texts(batch@) =~= taken.push(before[0]));
                    assert(texts(batch@) + self@ =~= taken + before);
                },
                None => {
                    break ;
                },
            }
        }
        assert(texts(batch@) =~= old(self)@);
        batch
    }
}

/// Where an outbound message is to be delivered.
#[derive(Debug, Clone, Copy, PartialEq, Eq)]
pub enum Destination {
    /// The push-style backend only.
    Twitch,
    /// The pagination backend only.
    Youtube,
    /// Each of the two backends.
    Both,
}

/// Whether a message for `destination` goes to the push-style backend.
pub open spec fn for_twitch(destination: Destination) -> bool {
    destination != Destination::Youtube
}

/// Whether a message for `destination` goes to the pagination backend.
pub open spec fn for_youtube(destination: Destination) -> bool {
    destination != Destination::Twitch
}

/// The queues of the two backends.
pub struct OutboundQueues {
    pub twitch: OutboundQueue,
    pub youtube: OutboundQueue,
}

impl OutboundQueues {
    /// Both queues empty.
    pub fn new() -> (queues: Self)
        ensures
            queues.twitch@ == Seq::<Seq<char>>::empty(),
            queues.youtube@ == Seq::<Seq<char>>::empty(),
    {
        OutboundQueues { twitch: OutboundQueue::new(), youtube: OutboundQueue::new() }
    }

    /// Queues `message` for its destination: one copy goes to the back of
    /// the queue of each backend that the destination names, and the
    /// queue of a backend that it does not name stays as it is.
    pub fn send_chat_message(&mut self, message: String, destination: Destination)
        ensures
            final(self).twitch@ == if for_twitch(destination) {
                old(self).twitch@.push(message@)
            } else {
                old(self).twitch@
            },
            final(self).youtube@ == if for_youtube(destination) {
                old(self).youtube@.push(message@)
            } else {
                old(self).youtube@
            },
    {
        match destination {
            Destination::Twitch => self.twitch.enqueue(message),
            Destination::Youtube => self.youtube.enqueue(message),
            Destination::Both => {
                self.twitch.enqueue(message.clone());
                self.youtube.enqueue(message);
            },
        }
    }
}

/// A queue after a run of messages has been enqueued one by one.
pub open spec fn after_enqueues(queue: Seq<Seq<char>>, messages: Seq<Seq<char>>) -> Seq<Seq<char>>
    decreases messages.len(),
{
    if messages.len() == 0 {
        queue
    } else {
        after_enqueues(queue, messages.drop_last()).push(messages.last())
    }
}

/// First in, first out: whatever is enqueued leaves behind what waited
/// before and in the order of its arrival, so a queue that was empty
/// hands back exactly the run it was given.
pub proof fn lemma_queue_is_fifo(queue: Seq<Seq<char>>, messages: Seq<Seq<char>>)
    ensures
        after_enqueues(queue, messages) == queue + messages,
        after_enqueues(Seq::empty(), messages) == messages,
    decreases messages.len(),
{
    if messages.len() == 0 {
        assert(queue + messages =~= queue);
    } else {
        lemma_queue_is_fifo(queue, messages.drop_last());
        lemma_queue_is_fifo(Seq::empty(), messages.drop_last());
        assert(queue + messages =~= (queue + messages.drop_last()).push(messages.last()));
        assert(messages =~= messages.drop_last().push(messages.last()));
    }
}

} // verus!
