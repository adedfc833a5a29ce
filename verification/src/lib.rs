//! Start-up handoff for a fixed-size pool whose threads are workers that a
//! host runtime spawns.
//!
//! A pool wants `n` threads, but here a thread cannot be spawned directly:
//! a host collaborator creates `n` workers, and each worker has to be handed
//! one ready-made task that turns it into a thread of the pool. This crate
//! holds the handoff: the channels that carry the tasks and the shared value,
//! the builder that allocates them and fills the task channel, and the steps
//! every worker takes on entry.

pub mod shared;
pub mod channel;
pub mod receiver;
pub mod rendezvous;
pub mod pool;
pub mod builder;
pub mod buildable;
pub mod worker;
pub mod laws;
