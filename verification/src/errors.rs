use vstd::prelude::*;

verus! {

/// Everything a queue operation can report instead of succeeding.
///
/// `EndOfTransmission` and `QueueTerminated` together form the terminal
/// signal of a reader loop: the first read to find the queue closed and
/// drained receives `EndOfTransmission`; every later read receives
/// `QueueTerminated`.
#[derive(Clone, Copy, Debug, PartialEq, Eq, Structural)]
pub enum MsgQueueError {
    /// An internal lock could not be acquired (raised only by a sharing shell
    /// around this core; the core itself never produces it).
    NoLock,
    /// The buffer is empty but the queue is still open; a blocking read
    /// retries on this instead of surfacing it.
    NoMessages,
    /// A send was attempted after the queue closed, or a close was requested
    /// when the queue was no longer open.
    QueueClosed,
    /// A writer id was presented that is not currently registered.
    UnknownWriter,
    /// A deregistration was attempted with no writers registered (raised only
    /// by registries that keep a bare count; this registry keeps ids).
    NegativeWriters,
    /// A read was attempted on a terminated queue.
    QueueTerminated,
    /// The read that found the queue closed and drained; it terminates the queue.
    EndOfTransmission,
}

impl MsgQueueError {
    /// The human-readable description of each error.
    pub open spec fn spec_message(self) -> Seq<char> {
        match self {
            MsgQueueError::NoLock => "Failed to get mutex lock"@,
            MsgQueueError::NoMessages => "No messages to read"@,
            MsgQueueError::QueueClosed => "Cannot send to closed queue"@,
            MsgQueueError::UnknownWriter => "Unrecognised writer"@,
            MsgQueueError::NegativeWriters => "Cannot have fewer than 1 writers to a queue"@,
            MsgQueueError::QueueTerminated => "Cannot read from terminated queue"@,
            MsgQueueError::EndOfTransmission => "Message queue reached end of transmission"@,
        }
    }

    /// Describes the error in a sentence.
    pub fn to_string(&self) -> (r: String)
        ensures
            r@ == self.spec_message(),
    {
        match self {
            MsgQueueError::NoLock => "Failed to get mutex lock".to_owned(),
            MsgQueueError::NoMessages => "No messages to read".to_owned(),
            MsgQueueError::QueueClosed => "Cannot send to closed queue".to_owned(),
            MsgQueueError::UnknownWriter => "Unrecognised writer".to_owned(),
            MsgQueueError::NegativeWriters => "Cannot have fewer than 1 writers to a queue".to_owned(),
            MsgQueueError::QueueTerminated => "Cannot read from terminated queue".to_owned(),
            MsgQueueError::EndOfTransmission => "Message queue reached end of transmission".to_owned(),
        }
    }
}

} // verus!
