use vstd::prelude::*;

verus! {

/// The lifecycle of a message queue.
///
/// - `Open` — the queue can accept more messages.
/// - `Closed` — the queue accepts no more messages; buffered ones may still be read.
/// - `Terminated` — the queue has been closed and every buffered message has been read.
#[derive(Clone, Copy, Debug, PartialEq, Eq, Structural)]
pub enum MsgQueueState {
    Open,
    Closed,
    Terminated,
}

/// The lifecycle order: a queue in state `a` may later be found in state `b`.
/// Transitions run Open → Closed → Terminated and never backward.
pub open spec fn state_le(a: MsgQueueState, b: MsgQueueState) -> bool {
    match a {
        MsgQueueState::Open => true,
        MsgQueueState::Closed => b != MsgQueueState::Open,
        MsgQueueState::Terminated => b == MsgQueueState::Terminated,
    }
}

impl MsgQueueState {
    /// Sending is allowed exactly while the queue is open.
    pub open spec fn spec_can_send(self) -> bool {
        self == MsgQueueState::Open
    }

    /// Reading is allowed until the queue is terminated.
    pub open spec fn spec_can_read(self) -> bool {
        self != MsgQueueState::Terminated
    }

    /// A fresh queue starts open.
    pub fn new() -> (r: Self)
        ensures
            r == MsgQueueState::Open,
    {
        MsgQueueState::Open
    }

    pub(crate) fn close(&mut self)
        ensures
            *final(self) == MsgQueueState::Closed,
    {
        *self = MsgQueueState::Closed;
    }

    pub(crate) fn terminate(&mut self)
        ensures
            *final(self) == MsgQueueState::Terminated,
    {
        *self = MsgQueueState::Terminated;
    }

    pub(crate) fn can_send(&self) -> (r: bool)
        ensures
            r <==> self.spec_can_send(),
    {
        *self == MsgQueueState::Open
    }

    pub(crate) fn can_read(&self) -> (r: bool)
        ensures
            r <==> self.spec_can_read(),
    {
        !(*self == MsgQueueState::Terminated)
    }
}

/// Law: the lifecycle order is transitive, so the per-operation guarantee that
/// each step respects `state_le` extends to any run of operations.
pub proof fn lemma_state_le_trans(a: MsgQueueState, b: MsgQueueState, c: MsgQueueState)
    requires
        state_le(a, b),
        state_le(b, c),
    ensures
        state_le(a, c),
{
}

/// Law: along the lifecycle, neither `can_send` nor `can_read` ever becomes
/// true again once false — the observable predicates only weaken.
pub proof fn lemma_monotone_predicates(a: MsgQueueState, b: MsgQueueState)
    requires
        state_le(a, b),
    ensures
        b.spec_can_send() ==> a.spec_can_send(),
        b.spec_can_read() ==> a.spec_can_read(),
{
}

/// Law: `Terminated` is absorbing — once a queue is terminated no later state
/// differs, so at most one read can ever witness the Closed→Terminated step.
pub proof fn lemma_terminated_absorbing(b: MsgQueueState)
    requires
        state_le(MsgQueueState::Terminated, b),
    ensures
        b == MsgQueueState::Terminated,
{
}

} // verus!
