use crate::buffer::Queue;
use crate::errors::MsgQueueError;
use crate::state::state_le;
use crate::state::MsgQueueState;
use std::sync::Arc;
use vstd::prelude::*;

verus! {

/// The opaque identifier a producer receives from `register_writer` and must
/// present to `send` and `deregister_writer`.
pub type WriterID = usize;

/// A message queue for one element type `T`: producers register, send while
/// the queue is open, and deregister; consumers read in FIFO order. When the
/// last producer deregisters the queue closes, and the first read to find it
/// closed and drained terminates it.
///
/// Besides the buffer, the lifecycle state, and the registered writer ids,
/// the queue carries a ghost history of every value accepted by `send` (with
/// the id that sent it) and of every value handed out by a read. The
/// well-formedness invariant `wf` ties them together: the values sent are
/// exactly the values delivered followed by the values still buffered. The
/// conservation, FIFO, and exclusive-delivery laws below are consequences.
pub struct AsyncMsgQueue<T> {
    queue: Queue<T>,
    state: MsgQueueState,
    writers: Vec<WriterID>,
    sent: Ghost<Seq<T>>,
    senders: Ghost<Seq<WriterID>>,
    delivered: Ghost<Seq<T>>,
}

impl<T> AsyncMsgQueue<T> {
    /// The lifecycle state the queue is in.
    pub closed spec fn lifecycle(&self) -> MsgQueueState {
        self.state
    }

    /// The values accepted by `send` and not yet read, head first.
    pub closed spec fn buffer(&self) -> Seq<T> {
        self.queue@
    }

    /// The ids of the currently registered writers, in registration order.
    pub closed spec fn writer_ids(&self) -> Seq<WriterID> {
        self.writers@
    }

    /// Every value a `send` has accepted, in acceptance order.
    pub closed spec fn sent_values(&self) -> Seq<T> {
        self.sent@
    }

    /// The writer id behind each accepted send: `sender_ids()[k]` sent
    /// `sent_values()[k]`.
    pub closed spec fn sender_ids(&self) -> Seq<WriterID> {
        self.senders@
    }

    /// Every value a read has handed out, in delivery order.
    pub closed spec fn delivered_values(&self) -> Seq<T> {
        self.delivered@
    }

    /// Well-formedness: each accepted send has a recorded sender, and the
    /// accepted values are exactly the delivered ones followed by the
    /// buffered ones. Constructors establish it; every operation preserves it.
    pub open spec fn wf(&self) -> bool {
        &&& self.sender_ids().len() == self.sent_values().len()
        &&& self.sent_values() == self.delivered_values() + self.buffer()
    }

    /// A fresh queue: open, empty, with no registered writers and no history.
    pub fn new() -> (r: Self)
        ensures
            r.wf(),
            r.lifecycle() == MsgQueueState::Open,
            r.buffer() == Seq::<T>::empty(),
            r.writer_ids() == Seq::<WriterID>::empty(),
            r.sent_values() == Seq::<T>::empty(),
            r.delivered_values() == Seq::<T>::empty(),
    {
        Self {
            queue: Queue::new(),
            state: MsgQueueState::new(),
            writers: Vec::new(),
            sent: Ghost(Seq::empty()),
            senders: Ghost(Seq::empty()),
            delivered: Ghost(Seq::empty()),
        }
    }

    /// A fresh queue behind a reference-counted handle, ready to be shared.
    pub fn new_arc() -> (r: Arc<Self>)
        ensures
            r.wf(),
            r.lifecycle() == MsgQueueState::Open,
            r.buffer() == Seq::<T>::empty(),
            r.writer_ids() == Seq::<WriterID>::empty(),
            r.sent_values() == Seq::<T>::empty(),
            r.delivered_values() == Seq::<T>::empty(),
    {
        Arc::new(Self::new())
    }

    /// Relies on `rand::random`: draws a writer id uniformly from the full
    /// machine-word space. Nothing is assumed about the value drawn.
    #[verifier::external_body]
    fn new_writer_id(&self) -> WriterID {
        rand::random::<u64>() as WriterID
    }

    /// Whether `id` is currently registered.
    fn contains_writer(&self, id: WriterID) -> (r: bool)
        ensures
            r <==> self.writer_ids().contains(id),
    {
        let n = self.writers.len();
        let mut i: usize = 0;
        while i < n
            invariant
                n == self.writers.len(),
                i <= n,
                forall|k: int| 0 <= k < i ==> self.writers@[k] != id,
            decreases n - i,
        {
            if self.writers[i] == id {
                return true;
            }
            i = i + 1;
        }
        false
    }

    /// The position of the first occurrence of `id` among the registered
    /// writers, pinned to `Seq::index_of_first`.
    fn index_of_writer(&self, id: WriterID) -> (r: Option<usize>)
        ensures
            match r {
                Some(i) => self.writer_ids().index_of_first(id) == Some(i as int),
                None => !self.writer_ids().contains(id),
            },
    {
        let n = self.writers.len();
        let mut i: usize = 0;
        while i < n
            invariant
                n == self.writers.len(),
                i <= n,
                forall|k: int| 0 <= k < i ==> self.writers@[k] != id,
            decreases n - i,
        {
            if self.writers[i] == id {
                proof {
                    self.writer_ids().index_of_first_ensures(id);
                }
                return Some(i);
            }
            i = i + 1;
        }
        proof {
            self.writer_ids().index_of_first_ensures(id);
        }
        None
    }

    /// Succeeds exactly when `id` is a registered writer.
    fn check_writer(&self, id: WriterID) -> (r: Result<(), MsgQueueError>)
        ensures
            self.writer_ids().contains(id) ==> r == Ok::<(), MsgQueueError>(()),
            !self.writer_ids().contains(id) ==> r == Err::<(), MsgQueueError>(
                MsgQueueError::UnknownWriter,
            ),
    {
        if self.contains_writer(id) {
            Ok(())
        } else {
            Err(MsgQueueError::UnknownWriter)
        }
    }

    /// Registers a new producer and returns its id. A fresh id is appended to
    /// the registry; in the pathological case that the drawn id is already
    /// registered, the registration is idempotent and the registry is left as
    /// it is. Nothing else about the queue changes.
    pub fn register_writer(&mut self) -> (r: Result<WriterID, MsgQueueError>)
        requires
            old(self).wf(),
        ensures
            final(self).wf(),
            r is Ok,
            final(self).writer_ids() == (if old(self).writer_ids().contains(r->Ok_0) {
                old(self).writer_ids()
            } else {
                old(self).writer_ids().push(r->Ok_0)
            }),
            final(self).writer_ids().contains(r->Ok_0),
            final(self).lifecycle() == old(self).lifecycle(),
            final(self).buffer() == old(self).buffer(),
            final(self).sent_values() == old(self).sent_values(),
            final(self).sender_ids() == old(self).sender_ids(),
            final(self).delivered_values() == old(self).delivered_values(),
            state_le(old(self).lifecycle(), final(self).lifecycle()),
    {
        let id = self.new_writer_id();
        if !self.contains_writer(id) {
            self.writers.push(id);
            proof {
                // The fresh id sits at the end of the registry.
                assert(self.writer_ids().last() == id);
            }
        }
        Ok(id)
    }

    /// Deregisters the writer `id`: its first registry entry is removed; an
    /// unknown id is rejected with `UnknownWriter` and changes nothing. When
    /// the removal empties the registry the queue is closed — unless it had
    /// already left the open state, which is rejected with `QueueClosed`
    /// (the entry is removed even then). The buffer and the histories never
    /// change.
    pub fn deregister_writer(&mut self, id: WriterID) -> (r: Result<(), MsgQueueError>)
        requires
            old(self).wf(),
        ensures
            final(self).wf(),
            state_le(old(self).lifecycle(), final(self).lifecycle()),
            final(self).buffer() == old(self).buffer(),
            final(self).sent_values() == old(self).sent_values(),
            final(self).sender_ids() == old(self).sender_ids(),
            final(self).delivered_values() == old(self).delivered_values(),
            !old(self).writer_ids().contains(id) ==> {
                &&& r == Err::<(), MsgQueueError>(MsgQueueError::UnknownWriter)
                &&& final(self).writer_ids() == old(self).writer_ids()
                &&& final(self).lifecycle() == old(self).lifecycle()
            },
            old(self).writer_ids().contains(id) ==> {
                &&& final(self).writer_ids() == old(self).writer_ids().remove_value(id)
                &&& final(self).writer_ids().len() == old(self).writer_ids().len() - 1
            },
            old(self).writer_ids().contains(id) && old(self).writer_ids().len() > 1 ==> {
                &&& r == Ok::<(), MsgQueueError>(())
                &&& final(self).lifecycle() == old(self).lifecycle()
            },
            old(self).writer_ids().contains(id) && old(self).writer_ids().len() == 1 ==> (
            if old(self).lifecycle() == MsgQueueState::Open {
                r == Ok::<(), MsgQueueError>(()) && final(self).lifecycle()
                    == MsgQueueState::Closed
            } else {
                r == Err::<(), MsgQueueError>(MsgQueueError::QueueClosed) && final(self).lifecycle()
                    == old(self).lifecycle()
            }),
    {
        let index = match self.index_of_writer(id) {
            Some(i) => i,
            None => {
                return Err(MsgQueueError::UnknownWriter);
            },
        };
        proof {
            self.writer_ids().index_of_first_ensures(id);
        }
        self.writers.remove(index);
        if self.writers.len() == 0 {
            match self.close() {
                Ok(()) => Ok(()),
                Err(e) => Err(e),
            }
        } else {
            Ok(())
        }
    }

    /// Whether the queue no longer accepts sends.
    pub fn is_closed(&self) -> (r: Result<bool, MsgQueueError>)
        ensures
            r == Ok::<bool, MsgQueueError>(!self.lifecycle().spec_can_send()),
    {
        match self.can_send() {
            Ok(v) => Ok(!v),
            Err(e) => Err(e),
        }
    }

    /// Whether the queue has terminated, so reads no longer return values.
    pub fn is_terminated(&self) -> (r: Result<bool, MsgQueueError>)
        ensures
            r == Ok::<bool, MsgQueueError>(!self.lifecycle().spec_can_read()),
    {
        match self.can_read() {
            Ok(v) => Ok(!v),
            Err(e) => Err(e),
        }
    }

    /// Whether sends are still accepted: exactly while the queue is open.
    pub fn can_send(&self) -> (r: Result<bool, MsgQueueError>)
        ensures
            r == Ok::<bool, MsgQueueError>(self.lifecycle().spec_can_send()),
    {
        Ok(self.state.can_send())
    }

    /// Whether reads may still return values: until the queue terminates.
    pub fn can_read(&self) -> (r: Result<bool, MsgQueueError>)
        ensures
            r == Ok::<bool, MsgQueueError>(self.lifecycle().spec_can_read()),
    {
        Ok(self.state.can_read())
    }

    /// Moves a closed, drained queue to its terminal state.
    fn terminate(&mut self) -> (r: Result<(), MsgQueueError>)
        requires
            old(self).wf(),
        ensures
            final(self).wf(),
            r == Ok::<(), MsgQueueError>(()),
            final(self).lifecycle() == MsgQueueState::Terminated,
            state_le(old(self).lifecycle(), final(self).lifecycle()),
            final(self).buffer() == old(self).buffer(),
            final(self).writer_ids() == old(self).writer_ids(),
            final(self).sent_values() == old(self).sent_values(),
            final(self).sender_ids() == old(self).sender_ids(),
            final(self).delivered_values() == old(self).delivered_values(),
    {
        self.state.terminate();
        Ok(())
    }

    /// Prevents any writer from sending more messages. Valid only while the
    /// queue is open; otherwise rejected with `QueueClosed`.
    fn close(&mut self) -> (r: Result<(), MsgQueueError>)
        requires
            old(self).wf(),
        ensures
            final(self).wf(),
            state_le(old(self).lifecycle(), final(self).lifecycle()),
            final(self).buffer() == old(self).buffer(),
            final(self).writer_ids() == old(self).writer_ids(),
            final(self).sent_values() == old(self).sent_values(),
            final(self).sender_ids() == old(self).sender_ids(),
            final(self).delivered_values() == old(self).delivered_values(),
            old(self).lifecycle() == MsgQueueState::Open ==> r == Ok::<(), MsgQueueError>(())
                && final(self).lifecycle() == MsgQueueState::Closed,
            old(self).lifecycle() != MsgQueueState::Open ==> r == Err::<(), MsgQueueError>(
                MsgQueueError::QueueClosed,
            ) && final(self).lifecycle() == old(self).lifecycle(),
    {
        if !self.state.can_send() {
            return Err(MsgQueueError::QueueClosed);
        }
        self.state.close();
        Ok(())
    }

    /// Enqueues `t` at the tail of the buffer, provided the queue is still
    /// open and `id` is a registered writer. After the queue has closed every
    /// send is rejected with `QueueClosed` and leaves no trace; while it is
    /// open, an unregistered id is rejected with `UnknownWriter`. An accepted
    /// value is appended to the buffer and recorded, with its sender, in the
    /// send history.
    pub fn send(&mut self, id: WriterID, t: T) -> (r: Result<(), MsgQueueError>)
        requires
            old(self).wf(),
        ensures
            final(self).wf(),
            state_le(old(self).lifecycle(), final(self).lifecycle()),
            final(self).lifecycle() == old(self).lifecycle(),
            final(self).writer_ids() == old(self).writer_ids(),
            final(self).delivered_values() == old(self).delivered_values(),
            !old(self).lifecycle().spec_can_send() ==> {
                &&& r == Err::<(), MsgQueueError>(MsgQueueError::QueueClosed)
                &&& final(self).buffer() == old(self).buffer()
                &&& final(self).sent_values() == old(self).sent_values()
                &&& final(self).sender_ids() == old(self).sender_ids()
            },
            old(self).lifecycle().spec_can_send() && !old(self).writer_ids().contains(id) ==> {
                &&& r == Err::<(), MsgQueueError>(MsgQueueError::UnknownWriter)
                &&& final(self).buffer() == old(self).buffer()
                &&& final(self).sent_values() == old(self).sent_values()
                &&& final(self).sender_ids() == old(self).sender_ids()
            },
            old(self).lifecycle().spec_can_send() && old(self).writer_ids().contains(id) ==> {
                &&& r == Ok::<(), MsgQueueError>(())
                &&& final(self).buffer() == old(self).buffer().push(t)
                &&& final(self).sent_values() == old(self).sent_values().push(t)
                &&& final(self).sender_ids() == old(self).sender_ids().push(id)
            },
    {
        if !self.state.can_send() {
            return Err(MsgQueueError::QueueClosed);
        }
        match self.check_writer(id) {
            Ok(()) => (),
            Err(e) => {
                return Err(e);
            },
        }
        let ghost sent0 = self.sent@;
        let ghost senders0 = self.senders@;
        self.queue.push(t);
        self.sent = Ghost(sent0.push(t));
        self.senders = Ghost(senders0.push(id));
        proof {
            assert(self.sent@ =~= self.delivered@ + self.queue@);
        }
        Ok(())
    }

    /// A single, non-blocking read attempt. On a terminated queue it reports
    /// `QueueTerminated`. Otherwise, if a message is buffered, the head is
    /// removed, recorded in the delivery history, and returned. On an empty
    /// buffer, a closed queue terminates and the attempt reports
    /// `EndOfTransmission` — the terminal signal handed out exactly once —
    /// while an open queue reports `NoMessages`, the signal a blocking reader
    /// retries on.
    pub fn pop(&mut self) -> (r: Result<T, MsgQueueError>)
        requires
            old(self).wf(),
        ensures
            final(self).wf(),
            state_le(old(self).lifecycle(), final(self).lifecycle()),
            final(self).writer_ids() == old(self).writer_ids(),
            final(self).sent_values() == old(self).sent_values(),
            final(self).sender_ids() == old(self).sender_ids(),
            // Once the queue has left the open state a reader never waits:
            // every attempt returns a buffered value or a terminal signal.
            old(self).lifecycle() != MsgQueueState::Open ==> r != Err::<T, MsgQueueError>(
                MsgQueueError::NoMessages,
            ),
            !old(self).lifecycle().spec_can_read() ==> {
                &&& r == Err::<T, MsgQueueError>(MsgQueueError::QueueTerminated)
                &&& final(self).lifecycle() == old(self).lifecycle()
                &&& final(self).buffer() == old(self).buffer()
                &&& final(self).delivered_values() == old(self).delivered_values()
            },
            old(self).lifecycle().spec_can_read() && old(self).buffer().len() > 0 ==> {
                &&& r == Ok::<T, MsgQueueError>(old(self).buffer()[0])
                &&& final(self).lifecycle() == old(self).lifecycle()
                &&& final(self).buffer() == old(self).buffer().drop_first()
                &&& final(self).delivered_values() == old(self).delivered_values().push(
                    old(self).buffer()[0],
                )
            },
            old(self).lifecycle() == MsgQueueState::Closed && old(self).buffer().len() == 0 ==> {
                &&& r == Err::<T, MsgQueueError>(MsgQueueError::EndOfTransmission)
                &&& final(self).lifecycle() == MsgQueueState::Terminated
                &&& final(self).buffer() == old(self).buffer()
                &&& final(self).delivered_values() == old(self).delivered_values()
            },
            old(self).lifecycle() == MsgQueueState::Open && old(self).buffer().len() == 0 ==> {
                &&& r == Err::<T, MsgQueueError>(MsgQueueError::NoMessages)
                &&& final(self).lifecycle() == old(self).lifecycle()
                &&& final(self).buffer() == old(self).buffer()
                &&& final(self).delivered_values() == old(self).delivered_values()
            },
    {
        if !self.state.can_read() {
            return Err(MsgQueueError::QueueTerminated);
        }
        let popped = self.queue.pop();
        match popped {
            Some(v) => {
                let ghost delivered0 = self.delivered@;
                self.delivered = Ghost(delivered0.push(old(self).buffer()[0]));
                proof {
                    assert(self.sent@ =~= self.delivered@ + self.queue@);
                }
                Ok(v)
            },
            None => {
                if !self.state.can_send() {
                    self.state.terminate();
                    Err(MsgQueueError::EndOfTransmission)
                } else {
                    Err(MsgQueueError::NoMessages)
                }
            },
        }
    }

    /// Reads the next message from the queue.
    ///
    /// A read that found the queue open and empty would have to block until a
    /// producer intervened, and with exclusive access to the queue no
    /// producer can; that one situation is therefore excluded here, and a
    /// sharing shell that wants the blocking behaviour retries `pop` on
    /// `NoMessages` instead. In every other situation this returns the head
    /// message, or `EndOfTransmission` for the one read that finds the queue
    /// closed and drained (terminating it), or `QueueTerminated` thereafter.
    pub fn read(&mut self) -> (r: Result<T, MsgQueueError>)
        requires
            old(self).wf(),
            !(old(self).lifecycle() == MsgQueueState::Open && old(self).buffer().len() == 0),
        ensures
            final(self).wf(),
            state_le(old(self).lifecycle(), final(self).lifecycle()),
            final(self).writer_ids() == old(self).writer_ids(),
            final(self).sent_values() == old(self).sent_values(),
            final(self).sender_ids() == old(self).sender_ids(),
            r != Err::<T, MsgQueueError>(MsgQueueError::NoMessages),
            !old(self).lifecycle().spec_can_read() ==> {
                &&& r == Err::<T, MsgQueueError>(MsgQueueError::QueueTerminated)
                &&& final(self).lifecycle() == old(self).lifecycle()
                &&& final(self).buffer() == old(self).buffer()
                &&& final(self).delivered_values() == old(self).delivered_values()
            },
            old(self).lifecycle().spec_can_read() && old(self).buffer().len() > 0 ==> {
                &&& r == Ok::<T, MsgQueueError>(old(self).buffer()[0])
                &&& final(self).lifecycle() == old(self).lifecycle()
                &&& final(self).buffer() == old(self).buffer().drop_first()
                &&& final(self).delivered_values() == old(self).delivered_values().push(
                    old(self).buffer()[0],
                )
            },
            old(self).lifecycle() == MsgQueueState::Closed && old(self).buffer().len() == 0 ==> {
                &&& r == Err::<T, MsgQueueError>(MsgQueueError::EndOfTransmission)
                &&& final(self).lifecycle() == MsgQueueState::Terminated
                &&& final(self).buffer() == old(self).buffer()
                &&& final(self).delivered_values() == old(self).delivered_values()
            },
    {
        self.pop()
    }

    /// The (sender, value) pair of every accepted send, in acceptance order.
    pub open spec fn send_log(&self) -> Seq<(WriterID, T)> {
        self.sender_ids().zip_with(self.sent_values())
    }

    /// The values writer `w` has sent, in `w`'s own send order.
    pub open spec fn sends_of(&self, w: WriterID) -> Seq<T> {
        self.send_log().filter(|p: (WriterID, T)| p.0 == w).map_values(|p: (WriterID, T)| p.1)
    }

    /// The values of writer `w` handed out by reads so far, in delivery order.
    pub open spec fn delivered_of(&self, w: WriterID) -> Seq<T> {
        self.sender_ids().take(self.delivered_values().len() as int).zip_with(
            self.delivered_values(),
        ).filter(|p: (WriterID, T)| p.0 == w).map_values(|p: (WriterID, T)| p.1)
    }
}

/// Law (conservation): in a queue that has been drained — every run that
/// terminates cleanly ends with an empty buffer — the values read are exactly
/// the values successfully sent, and in particular the two multisets agree.
pub proof fn lemma_conservation<T>(q: &AsyncMsgQueue<T>)
    requires
        q.wf(),
        q.buffer().len() == 0,
    ensures
        q.delivered_values() == q.sent_values(),
        q.delivered_values().to_multiset() == q.sent_values().to_multiset(),
{
    assert(q.delivered_values() + q.buffer() =~= q.delivered_values());
}

/// Law (delivery follows send order): at every point in a queue's life, the
/// values delivered so far are exactly the first reads' worth of the values
/// sent: the k-th successful read returned the k-th accepted send.
pub proof fn lemma_delivery_in_send_order<T>(q: &AsyncMsgQueue<T>)
    requires
        q.wf(),
    ensures
        q.delivered_values().len() <= q.sent_values().len(),
        q.delivered_values() == q.sent_values().take(q.delivered_values().len() as int),
        forall|k: int|
            0 <= k < q.delivered_values().len() ==> q.delivered_values()[k]
                == q.sent_values()[k],
{
    assert(q.delivered_values() =~= q.sent_values().take(q.delivered_values().len() as int));
}

/// Law (exclusive delivery): no value is read more often than it was sent —
/// each accepted send is consumed by at most one read, across all consumers.
pub proof fn lemma_exclusive_delivery<T>(q: &AsyncMsgQueue<T>)
    requires
        q.wf(),
    ensures
        forall|v: T|
            q.delivered_values().to_multiset().count(v) <= q.sent_values().to_multiset().count(
                v,
            ),
{
    broadcast use vstd::multiset::group_multiset_axioms;

    vstd::seq_lib::lemma_multiset_commutative(q.delivered_values(), q.buffer());
}

/// Law (per-producer FIFO): for any writer `w`, the values of `w` that have
/// been delivered form a prefix of the values `w` sent, in `w`'s own send
/// order — interleavings with other producers never reorder one producer's
/// messages.
pub proof fn lemma_per_producer_fifo<T>(q: &AsyncMsgQueue<T>, w: WriterID)
    requires
        q.wf(),
    ensures
        q.delivered_of(w).is_prefix_of(q.sends_of(w)),
{
    let n = q.delivered_values().len() as int;
    let pred = |p: (WriterID, T)| p.0 == w;
    let value_of = |p: (WriterID, T)| p.1;
    let all = q.send_log();
    let pre = q.sender_ids().take(n).zip_with(q.delivered_values());
    let suf = q.sender_ids().skip(n).zip_with(q.sent_values().skip(n));
    lemma_delivery_in_send_order(q);
    assert(all =~= pre + suf);
    Seq::<(WriterID, T)>::filter_distributes_over_add(pre, suf, pred);
    assert(all.filter(pred).map_values(value_of) =~= pre.filter(pred).map_values(value_of)
        + suf.filter(pred).map_values(value_of));
    assert(q.sends_of(w).take(q.delivered_of(w).len() as int) =~= q.delivered_of(w));
}

/// Law (per-producer conservation): once the queue has been drained, each
/// writer's delivered values are exactly the values that writer sent, in that
/// writer's own send order.
pub proof fn lemma_per_producer_conservation<T>(q: &AsyncMsgQueue<T>, w: WriterID)
    requires
        q.wf(),
        q.buffer().len() == 0,
    ensures
        q.delivered_of(w) == q.sends_of(w),
{
    lemma_conservation(q);
    assert(q.sender_ids().take(q.delivered_values().len() as int) =~= q.sender_ids());
}

} // verus!
