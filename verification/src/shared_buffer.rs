//! A bounded first-in first-out queue of messages.
//!
//! The queue never grows beyond its capacity: a push onto a full queue
//! hands the message back, so that the sender can wait and try again
//! instead of losing it.

use std::collections::VecDeque;
use vstd::prelude::*;
use crate::config::QUEUE_DEPTH;

verus! {

/// One message held by a [`SharedBuffer`].
#[derive(Clone, Debug, PartialEq, Eq)]
pub enum SharedBufferMessage {
    /// A new file starts under this name.
    NewFile(String),
    /// A block of samples for the open file.
    Data(Vec<i16>),
    /// The open file is complete.
    EndOfFile,
    /// Nothing follows.
    EndThread,
}

/// The mathematical content of a [`SharedBufferMessage`].
pub enum SharedMessageView {
    NewFile(Seq<char>),
    Data(Seq<i16>),
    EndOfFile,
    EndThread,
}

impl View for SharedBufferMessage {
    type V = SharedMessageView;

    open spec fn view(&self) -> SharedMessageView {
        match self {
            SharedBufferMessage::NewFile(path) => SharedMessageView::NewFile(path@),
            SharedBufferMessage::Data(samples) => SharedMessageView::Data(samples@),
            SharedBufferMessage::EndOfFile => SharedMessageView::EndOfFile,
            SharedBufferMessage::EndThread => SharedMessageView::EndThread,
        }
    }
}

impl DeepView for SharedBufferMessage {
    type V = SharedMessageView;

    open spec fn deep_view(&self) -> SharedMessageView {
        self@
    }
}

/// The queue after a push of `message`: appended at the back while there
/// is room, unchanged when the queue is full.
pub open spec fn spec_push<M>(queue: Seq<M>, capacity: nat, message: M) -> Seq<M> {
    if queue.len() < capacity {
        queue.push(message)
    } else {
        queue
    }
}

/// Whether a push onto `queue` is accepted.
pub open spec fn spec_accepts<M>(queue: Seq<M>, capacity: nat) -> bool {
    queue.len() < capacity
}

/// What a pull hands out: the message at the front, if there is one.
pub open spec fn spec_front<M>(queue: Seq<M>) -> Option<M> {
    if queue.len() > 0 {
        Some(queue.first())
    } else {
        None
    }
}

/// The queue after a pull: without its front.
pub open spec fn spec_pull<M>(queue: Seq<M>) -> Seq<M> {
    if queue.len() > 0 {
        queue.drop_first()
    } else {
        queue
    }
}

/// A bounded queue of [`SharedBufferMessage`]s, oldest first.
pub struct SharedBuffer {
    queue: VecDeque<SharedBufferMessage>,
    capacity: usize,
}

impl View for SharedBuffer {
    type V = Seq<SharedMessageView>;

    closed spec fn view(&self) -> Seq<SharedMessageView> {
        self.queue.deep_view()
    }
}

impl SharedBuffer {
    /// The bound every queue keeps: it never holds more messages than its
    /// capacity. The constructors establish it and every method keeps it.
    pub closed spec fn well_formed(&self) -> bool {
        self.queue@.len() <= self.capacity
    }

    /// The most messages the queue holds.
    pub closed spec fn spec_capacity(&self) -> nat {
        self.capacity as nat
    }

    /// An empty queue of the default depth.
    pub fn new() -> (buffer: SharedBuffer)
        ensures
            buffer.well_formed(),
            buffer@ == Seq::<SharedMessageView>::empty(),
            buffer.spec_capacity() == QUEUE_DEPTH,
    {
        SharedBuffer::with_capacity(QUEUE_DEPTH)
    }

    /// An empty queue that holds at most `capacity` messages.
    pub fn with_capacity(capacity: usize) -> (buffer: SharedBuffer)
        ensures
            buffer.well_formed(),
            buffer@ == Seq::<SharedMessageView>::empty(),
            buffer.spec_capacity() == capacity,
    {
        let buffer = SharedBuffer { queue: VecDeque::new(), capacity };
        assert(buffer@ =~= Seq::<SharedMessageView>::empty());
        buffer
    }

    /// The most messages the queue holds.
    pub fn capacity(&self) -> (n: usize)
        ensures
            n == self.spec_capacity(),
    {
        self.capacity
    }

    /// The messages waiting in the queue.
    pub fn len(&self) -> (n: usize)
        requires
            self.well_formed(),
        ensures
            n == self@.len(),
            n <= self.spec_capacity(),
    {
        self.queue.len()
    }

    /// Whether no message is waiting.
    pub fn is_empty(&self) -> (b: bool)
        ensures
            b == (self@.len() == 0),
    {
        self.queue.len() == 0
    }

    /// Whether the next push would be turned away.
    pub fn is_full(&self) -> (b: bool)
        ensures
            b == !spec_accepts(self@, self.spec_capacity()),
    {
        self.queue.len() >= self.capacity
    }

    /// Appends `message` at the back. A full queue is left as it is and
    /// the message comes back in `Err`.
    pub fn push(&mut self, message: SharedBufferMessage) -> (r: Result<(), SharedBufferMessage>)
        requires
            old(self).well_formed(),
        ensures
            final(self).well_formed(),
            final(self).spec_capacity() == old(self).spec_capacity(),
            final(self)@ == spec_push(old(self)@, old(self).spec_capacity(), message@),
            r.is_ok() == spec_accepts(old(self)@, old(self).spec_capacity()),
            r matches Err(returned) ==> returned == message,
    {
        if self.queue.len() < self.capacity {
            self.queue.push_back(message);
            assert(self@ =~= old(self)@.push(message@));
            Ok(())
        } else {
            Err(message)
        }
    }

    /// Takes the oldest message out of the queue, or returns `None` when
    /// the queue is empty.
    pub fn pull(&mut self) -> (r: Option<SharedBufferMessage>)
        requires
            old(self).well_formed(),
        ensures
            final(self).well_formed(),
            final(self).spec_capacity() == old(self).spec_capacity(),
            final(self)@ == spec_pull(old(self)@),
            r.deep_view() == spec_front(old(self)@),
    {
        let r = self.queue.pop_front();
        assert(self@ =~= spec_pull(old(self)@));
        r
    }
}

/// One use of a queue.
pub enum QueueOp<M> {
    /// The producer offers a message.
    Push(M),
    /// The consumer asks for one.
    Pull,
}

/// What a run of pushes and pulls amounts to.
pub struct QueueTrace<M> {
    /// The messages still waiting.
    pub queue: Seq<M>,
    /// The messages whose push was accepted, in the order of the pushes.
    pub accepted: Seq<M>,
    /// The messages handed out, in the order of the pulls.
    pub delivered: Seq<M>,
}

/// Runs `ops` in order on a queue that starts as `queue`.
pub open spec fn spec_run<M>(queue: Seq<M>, capacity: nat, ops: Seq<QueueOp<M>>) -> QueueTrace<M>
    decreases ops.len(),
{
    if ops.len() == 0 {
        QueueTrace { queue, accepted: Seq::empty(), delivered: Seq::empty() }
    } else {
        let before = spec_run(queue, capacity, ops.drop_last());
        match ops.last() {
            QueueOp::Push(message) => QueueTrace {
                queue: spec_push(before.queue, capacity, message),
                accepted: if spec_accepts(before.queue, capacity) {
                    before.accepted.push(message)
                } else {
                    before.accepted
                },
                delivered: before.delivered,
            },
            QueueOp::Pull => QueueTrace {
                queue: spec_pull(before.queue),
                accepted: before.accepted,
                delivered: match spec_front(before.queue) {
                    Some(message) => before.delivered.push(message),
                    None => before.delivered,
                },
            },
        }
    }
}

/// First in, first out: however pushes and pulls alternate, the messages
/// handed out followed by those still waiting are the messages the queue
/// started with followed by those it accepted. So the consumer sees every
/// message in the order in which the producer enqueued it, none twice and
/// none dropped, and a queue within its capacity stays within it.
pub proof fn lemma_fifo<M>(queue: Seq<M>, capacity: nat, ops: Seq<QueueOp<M>>)
    ensures
        ({
            let trace = spec_run(queue, capacity, ops);
            &&& trace.delivered + trace.queue == queue + trace.accepted
            &&& trace.delivered.is_prefix_of(queue + trace.accepted)
            &&& queue.len() <= capacity ==> trace.queue.len() <= capacity
        }),
    decreases ops.len(),
{
    let trace = spec_run(queue, capacity, ops);
    if ops.len() == 0 {
        assert(trace.delivered + trace.queue =~= queue + trace.accepted);
    } else {
        lemma_fifo(queue, capacity, ops.drop_last());
        let before = spec_run(queue, capacity, ops.drop_last());
        assert(before.delivered + before.queue == queue + before.accepted);
        match ops.last() {
            QueueOp::Push(message) => {
                if spec_accepts(before.queue, capacity) {
                    assert(trace.delivered + trace.queue =~= (before.delivered + before.queue).push(
                        message,
                    ));
                    assert(queue + trace.accepted =~= (queue + before.accepted).push(message));
                }
            },
            QueueOp::Pull => {
                if before.queue.len() > 0 {
                    assert(trace.delivered + trace.queue =~= before.delivered + before.queue);
                }
            },
        }
    }
    assert(trace.delivered =~= (trace.delivered + trace.queue).subrange(
        0,
        trace.delivered.len() as int,
    ));
}

} // verus!
