//! The pool that the tasks belong to, as `rayon` builds it.

use rayon::{ThreadPool, ThreadPoolBuildError, ThreadPoolBuilder};
use vstd::prelude::*;

use crate::rendezvous::RendezvousChannel;

verus! {

/// `rayon::ThreadPool`: a pool that is ready for work. Opaque to the verifier.
#[verifier::external_type_specification]
#[verifier::external_body]
pub struct ExThreadPool(ThreadPool);

/// `rayon::ThreadPoolBuildError`: why a pool was not built. Opaque to the
/// verifier.
#[verifier::external_type_specification]
#[verifier::external_body]
pub struct ExThreadPoolBuildError(ThreadPoolBuildError);

/// `rayon::ThreadPoolBuilder`: the configuration of a pool to build. Opaque to
/// the verifier.
#[verifier::external_type_specification]
#[verifier::external_body]
#[verifier::reject_recursive_types(S)]
pub struct ExThreadPoolBuilder<S>(ThreadPoolBuilder<S>);

/// `std::io::Error`: the error that a spawn strategy answers a pool with.
/// Opaque to the verifier.
#[verifier::external_type_specification]
#[verifier::external_body]
pub struct ExIoError(std::io::Error);

/// `std::io::Error::other`: the error that tells a pool that its task was not
/// taken.
#[verifier::external_body]
pub(crate) fn refusal() -> std::io::Error {
    std::io::Error::other("the task channel did not take the task")
}

/// `ThreadPoolBuilder::num_threads`, `spawn_handler` and `build`, in one call
/// because the type between them has no name: the pool is configured for
/// `workers` threads, with `channel` as its spawn strategy, and built. For
/// each of its threads, in order, the pool hands the task to
/// [`RendezvousChannel::spawn`] in place of starting a thread, and it gives
/// up at the first task that is refused. It does not wait for any worker.
/// (Asked for 0 threads the pool picks a number itself; a channel for no
/// worker then refuses the first task.)
///
/// The pool touches `channel` only through those calls, so the channel is its
/// old self after some pushes. How many there were, and so whether the pool
/// may be used, the caller reads from the channel's own count.
#[verifier::external_body]
pub(crate) fn spawn_pool<S>(
    pool: ThreadPoolBuilder<S>,
    workers: usize,
    channel: &mut RendezvousChannel,
) -> (built: Result<ThreadPool, ThreadPoolBuildError>)
    ensures
        final(channel).continues(*old(channel)),
{
    pool.num_threads(workers).spawn_handler(|task| channel.spawn(task)).build()
}

/// `ThreadPoolBuilder::num_threads`, `spawn_handler` and `build_global`: as
/// [`spawn_pool`], but the pool becomes the one of the whole process and no
/// handle comes back. It fails, before any push, when the process already has
/// its pool, and it returns only when every task it pushed is running on a
/// worker.
#[verifier::external_body]
pub(crate) fn install_pool<S>(
    pool: ThreadPoolBuilder<S>,
    workers: usize,
    channel: &mut RendezvousChannel,
) -> (built: Result<(), ThreadPoolBuildError>)
    ensures
        final(channel).continues(*old(channel)),
{
    pool.num_threads(workers).spawn_handler(|task| channel.spawn(task)).build_global()
}

} // verus!
