//! Building the pool itself on the workers of a builder.

use rayon::{ThreadPool, ThreadPoolBuildError, ThreadPoolBuilder};
use vstd::prelude::*;

use crate::builder::{BuildError, BuilderView, WebWorkersBuilder};
use crate::pool::{install_pool, spawn_pool};
use crate::rendezvous::RendezvousChannel;

verus! {

/// What a construction comes to, given what the pool answered and how many
/// of `limit` tasks the channel counted: the pool's own failure is passed
/// on, and a pool that pushed another number of tasks than there are workers
/// is a failure too.
pub open spec fn settled<P>(outcome: Result<P, ThreadPoolBuildError>, pushed: nat, limit: nat)
    -> Result<P, BuildError> {
    match outcome {
        Err(failure) => Err(BuildError::Pool(failure)),
        Ok(pool) => if pushed == limit {
            Ok(pool)
        } else {
            Err(BuildError::WorkerCount { expected: limit as usize, pushed: pushed as usize })
        },
    }
}

/// Decides what a construction comes to once the pool has answered:
/// [`settled`] on the channel's count. A pool that is turned down here is
/// dropped.
pub fn settle<P>(outcome: Result<P, ThreadPoolBuildError>, channel: &RendezvousChannel) -> (built:
    Result<P, BuildError>)
    ensures
        built == settled(outcome, channel.pushed(), channel.limit()),
{
    match outcome {
        Err(failure) => Err(BuildError::Pool(failure)),
        Ok(pool) => {
            let pushed = channel.tasks_pushed();
            let expected = channel.workers();
            if pushed == expected {
                Ok(pool)
            } else {
                Err(BuildError::WorkerCount { expected, pushed })
            }
        },
    }
}

/// How a builder stands after a pool was built on it, and what the caller is
/// told.
///
/// A builder without a channel of tasks is left alone and answers
/// `NotBuilt`. Otherwise only the channel of tasks moves on, by pushes. On
/// success it holds exactly one task per worker; the pool's own failure comes
/// back as `Pool`; a pool that answered well but left another number of tasks
/// comes back as `WorkerCount` with both numbers.
pub open spec fn pool_built<P>(before: BuilderView, after: BuilderView, built: Result<P, BuildError>)
    -> bool {
    match before.rendezvous {
        None => after == before && built matches Err(BuildError::NotBuilt),
        Some(channel) => {
            &&& after.rendezvous matches Some(now)
            &&& now.continues(channel)
            &&& after == (BuilderView { rendezvous: Some(now), ..before })
            &&& match built {
                Ok(_) => now.pushed() == now.limit(),
                Err(BuildError::Pool(_)) => true,
                Err(BuildError::WorkerCount { expected, pushed }) => {
                    &&& expected == now.limit()
                    &&& pushed == now.pushed()
                    &&& pushed != expected
                },
                Err(_) => false,
            }
        },
    }
}

/// A pool configuration that can be built on the workers of a
/// [`WebWorkersBuilder`].
pub trait WebPoolBuildable: Sized {
    /// Builds the pool with the builder's channel of tasks as its spawn
    /// strategy and returns its handle: one task per worker is pushed, for
    /// the workers to take. The call does not wait for the workers; the
    /// channel has room for every task.
    fn build_on_workers(self, builder: &mut WebWorkersBuilder) -> (built: Result<
        ThreadPool,
        BuildError,
    >)
        ensures
            pool_built(old(builder)@, final(builder)@, built),
    ;

    /// As [`build_on_workers`](Self::build_on_workers), but the pool becomes
    /// the one of the whole process and no handle is returned. The call
    /// returns once every worker runs its task, so the workers have to be
    /// spawned first.
    fn build_on_workers_global(self, builder: &mut WebWorkersBuilder) -> (built: Result<
        (),
        BuildError,
    >)
        ensures
            pool_built(old(builder)@, final(builder)@, built),
    ;
}

impl<S> WebPoolBuildable for ThreadPoolBuilder<S> {
    fn build_on_workers(self, builder: &mut WebWorkersBuilder) -> (built: Result<
        ThreadPool,
        BuildError,
    >) {
        proof {
            old(builder).lemma_view();
        }
        let built = match &mut builder.rendezvous {
            None => Err(BuildError::NotBuilt),
            Some(channel) => {
                let workers = channel.workers();
                let outcome = spawn_pool(self, workers, channel);
                settle(outcome, channel)
            },
        };
        proof {
            builder.lemma_view();
        }
        built
    }

    fn build_on_workers_global(self, builder: &mut WebWorkersBuilder) -> (built: Result<
        (),
        BuildError,
    >) {
        proof {
            old(builder).lemma_view();
        }
        let built = match &mut builder.rendezvous {
            None => Err(BuildError::NotBuilt),
            Some(channel) => {
                let workers = channel.workers();
                let outcome = install_pool(self, workers, channel);
                settle(outcome, channel)
            },
        };
        proof {
            builder.lemma_view();
        }
        built
    }
}

} // verus!
