//! A streamed-completion bridge: the decisions that turn a provider's chunk
//! stream into a bounded sequence of status events for a polling consumer.
//!
//! The data shapes of a decoded chunk live in [`chunk`], the status and error
//! values that cross the channel in [`status`], the per-item decision of the
//! stream poller in [`poller`], the background task's step in [`producer`],
//! and the consumer-side handler with its single-use hand-off of resources in
//! [`handler`]. Whole runs of these steps, and the laws they obey, are in
//! [`runs`].
pub mod chunk;
pub mod status;
pub mod poller;
pub mod producer;
pub mod handler;
pub mod runs;
