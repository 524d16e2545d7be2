//! The queue between the firmware, which sends messages, and the connection,
//! which takes them and writes them on the wire.

use crate::message::{OutgoingMessage, OutgoingView};
use std::collections::VecDeque;
use vstd::prelude::*;
use vstd::string::*;

verus! {

/// The client's end of the connection: the messages that wait to be sent.
pub struct WsClient {
    /// The waiting messages, first to be sent first; `None` once nobody takes them.
    outbound: Option<VecDeque<OutgoingMessage>>,
}

/// Why a message was not queued.
#[derive(Debug, Clone, Copy, PartialEq, Eq, Structural)]
pub enum SendError {
    /// The connection's thread is gone, so nobody would take the message.
    Disconnected,
}

impl SendError {
    /// The text of the error.
    pub fn message(&self) -> (text: String)
        ensures
            text@ == "ws send failed: sending on a closed channel"@,
    {
        match self {
            SendError::Disconnected => "ws send failed: sending on a closed channel".to_owned(),
        }
    }
}

/// The messages of a queue, with their texts as sequences of characters.
pub open spec fn message_views(messages: Seq<OutgoingMessage>) -> Seq<OutgoingView> {
    messages.map_values(|message: OutgoingMessage| message@)
}

impl View for WsClient {
    type V = Option<Seq<OutgoingView>>;

    /// The waiting messages, or `None` once nobody takes them.
    closed spec fn view(&self) -> Option<Seq<OutgoingView>> {
        match self.outbound {
            Some(messages) => Some(message_views(messages@)),
            None => None,
        }
    }
}

impl WsClient {
    /// A client with an empty queue.
    pub fn new() -> (client: WsClient)
        ensures
            client@ == Some(Seq::<OutgoingView>::empty()),
    {
        let client = WsClient { outbound: Some(VecDeque::new()) };
        assert(client@->0 =~= Seq::<OutgoingView>::empty());
        client
    }

    /// Queues a message behind those that wait. Does not block.
    pub fn send(&mut self, msg: OutgoingMessage) -> (result: Result<(), SendError>)
        ensures
            old(self)@ is Some ==> {
                &&& result is Ok
                &&& final(self)@ == Some(old(self)@->0.push(msg@))
                &&& final(self)@ == Some(
                    queue_after_one(old(self)@->0, QueueOperation::Send(msg@)),
                )
            },
            old(self)@ is None ==> {
                &&& result == Err::<(), SendError>(SendError::Disconnected)
                &&& final(self)@ is None
            },
    {
        match &mut self.outbound {
            Some(messages) => {
                messages.push_back(msg);
                assert(message_views(messages@) =~= message_views(old(self).outbound->0@).push(msg@));
                Ok(())
            },
            None => Err(SendError::Disconnected),
        }
    }

    /// Takes the message that waits longest, if one waits. Does not block.
    pub fn try_recv(&mut self) -> (message: Option<OutgoingMessage>)
        ensures
            old(self)@ is Some && old(self)@->0.len() > 0 ==> {
                &&& message is Some
                &&& message->0@ == old(self)@->0.first()
                &&& final(self)@ == Some(old(self)@->0.drop_first())
                &&& final(self)@ == Some(
                    queue_after_one(old(self)@->0, QueueOperation::TryRecv),
                )
                &&& taken_by_one(old(self)@->0, QueueOperation::TryRecv) == seq![message->0@]
            },
            !(old(self)@ is Some && old(self)@->0.len() > 0) ==> {
                &&& message is None
                &&& final(self)@ == old(self)@
            },
    {
        match &mut self.outbound {
            Some(messages) => {
                let message = messages.pop_front();
                assert(message is Some ==> message_views(messages@) =~= message_views(
                    old(self).outbound->0@,
                ).drop_first());
                message
            },
            None => None,
        }
    }

    /// Ends the queue: what waits is dropped, and nothing is queued any more.
    pub fn hang_up(&mut self)
        ensures
            final(self)@ is None,
    {
        self.outbound = None;
    }
}

/// What is done to a queue that somebody takes messages from.
pub enum QueueOperation {
    /// A message is sent.
    Send(OutgoingView),
    /// A message is asked for.
    TryRecv,
}

/// The queue after one operation.
pub open spec fn queue_after_one(
    queue: Seq<OutgoingView>,
    operation: QueueOperation,
) -> Seq<OutgoingView> {
    match operation {
        QueueOperation::Send(message) => queue.push(message),
        QueueOperation::TryRecv => if queue.len() > 0 {
            queue.drop_first()
        } else {
            queue
        },
    }
}

/// What one operation takes from the queue.
pub open spec fn taken_by_one(
    queue: Seq<OutgoingView>,
    operation: QueueOperation,
) -> Seq<OutgoingView> {
    match operation {
        QueueOperation::Send(_) => Seq::empty(),
        QueueOperation::TryRecv => if queue.len() > 0 {
            seq![queue.first()]
        } else {
            Seq::empty()
        },
    }
}

/// The queue after the operations.
pub open spec fn queue_after(
    queue: Seq<OutgoingView>,
    operations: Seq<QueueOperation>,
) -> Seq<OutgoingView>
    decreases operations.len(),
{
    if operations.len() == 0 {
        queue
    } else {
        queue_after_one(queue_after(queue, operations.drop_last()), operations.last())
    }
}

/// The messages that the operations send, in order.
pub open spec fn sent_by(operations: Seq<QueueOperation>) -> Seq<OutgoingView>
    decreases operations.len(),
{
    if operations.len() == 0 {
        Seq::empty()
    } else {
        let before = sent_by(operations.drop_last());
        match operations.last() {
            QueueOperation::Send(message) => before.push(message),
            QueueOperation::TryRecv => before,
        }
    }
}

/// The messages that the operations take from the queue, in order.
pub open spec fn taken_by(
    queue: Seq<OutgoingView>,
    operations: Seq<QueueOperation>,
) -> Seq<OutgoingView>
    decreases operations.len(),
{
    if operations.len() == 0 {
        Seq::empty()
    } else {
        let waiting = queue_after(queue, operations.drop_last());
        taken_by(queue, operations.drop_last()) + taken_by_one(waiting, operations.last())
    }
}

/// First in, first out: whatever is sent and taken in whatever order, what was
/// taken, followed by what still waits, is what waited at first, followed by what
/// was sent. No message is lost, doubled or overtaken.
pub proof fn queue_keeps_order(queue: Seq<OutgoingView>, operations: Seq<QueueOperation>)
    ensures
        taken_by(queue, operations) + queue_after(queue, operations) == queue + sent_by(operations),
    decreases operations.len(),
{
    if operations.len() == 0 {
        assert(taken_by(queue, operations) + queue_after(queue, operations) =~= queue + sent_by(
            operations,
        ));
    } else {
        let earlier = operations.drop_last();
        queue_keeps_order(queue, earlier);
        let taken = taken_by(queue, earlier);
        let waiting = queue_after(queue, earlier);
        match operations.last() {
            QueueOperation::Send(message) => {
                assert(taken_by(queue, operations) =~= taken);
                assert(taken + waiting.push(message) =~= (taken + waiting).push(message));
                assert(queue + sent_by(earlier).push(message) =~= (queue + sent_by(earlier)).push(
                    message,
                ));
            },
            QueueOperation::TryRecv => {
                if waiting.len() > 0 {
                    assert(taken_by(queue, operations) =~= taken.push(waiting.first()));
                    assert(taken.push(waiting.first()) + waiting.drop_first() =~= taken + waiting);
                } else {
                    assert(taken_by(queue, operations) =~= taken);
                }
            },
        }
    }
}

/// Asking an open queue for a message gives one exactly where one waits, and sending
/// gives none.
pub proof fn waiting_message_is_given(queue: Seq<OutgoingView>, message: OutgoingView)
    ensures
        queue.len() > 0 ==> taken_by_one(queue, QueueOperation::TryRecv).len() == 1,
        queue.len() == 0 ==> taken_by_one(queue, QueueOperation::TryRecv).len() == 0,
        taken_by_one(queue, QueueOperation::Send(message)).len() == 0,
        queue_after_one(queue, QueueOperation::Send(message)).len() == queue.len() + 1,
{
}

} // verus!
