//! A bridge between a single-threaded host scheduler and blocking WebSocket
//! connections that each run on a background worker.
//!
//! The library holds the decisions of the bridge: what a worker does with each
//! command and each frame it reads, what the host-side dispatch does with each
//! event it drains, the lifecycle of a connection handle across generations, and
//! the registry of handles that the dispatch services. The threads, queues and
//! sockets that carry out those decisions live with the caller.
use vstd::prelude::*;

pub mod message;
pub mod registry;
pub mod socket;
pub mod worker;

verus! {

} // verus!
