//! Work on a pool of threads, as sources of the poll loop.
//!
//! A task that runs on the pool is a future of the pool, and asks of the poll
//! loop what [`PollFuture`] asks. A reader or a writer whose blocking calls
//! run there is polled with the owner's buffer, and asks what [`PollWithArg`]
//! asks.

use crate::future::{PollFuture, PollWithArg};
use vstd::prelude::*;

verus! {

/// A function that runs on the pool. `K` is the pool's task, `T` what the
/// function gives.
pub type UnblockFn<H, K, T> = PollFuture<H, K, T>;

/// A reader whose reads run on the pool. `R` is the pool's reader.
pub type UnblockReader<H, R> = PollWithArg<H, R>;

/// A writer whose writes run on the pool. `W` is the pool's writer.
pub type UnblockWriter<H, W> = PollWithArg<H, W>;

} // verus!
