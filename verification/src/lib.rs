//! An in-memory multi-producer, multi-consumer message queue.
//!
//! Producers register, send values, and deregister; consumers read values in
//! FIFO order. When the last producer deregisters the queue closes, and the
//! first read that finds the queue closed and drained terminates it. The
//! lifecycle, the writer accounting, and the delivery discipline are all
//! verified; a thread-sharing shell around this core only needs to guard the
//! queue with a lock and retry reads that find the queue open and empty.

mod buffer;
mod errors;
mod queue;
mod state;

pub use errors::MsgQueueError;
pub use queue::lemma_conservation;
pub use queue::lemma_delivery_in_send_order;
pub use queue::lemma_exclusive_delivery;
pub use queue::lemma_per_producer_conservation;
pub use queue::lemma_per_producer_fifo;
pub use queue::AsyncMsgQueue;
pub use queue::WriterID;
pub use state::lemma_monotone_predicates;
pub use state::lemma_state_le_trans;
pub use state::lemma_terminated_absorbing;
pub use state::state_le;
pub use state::MsgQueueState;
