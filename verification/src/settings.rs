//! How fast a run may be, and how large its channels are.

use vstd::prelude::*;

use crate::messages::{concurrency_refused, concurrency_refused_text};

verus! {

/// How many requests per second a run without proxies may make.
pub const NO_PROXY_CONC_LIMIT: usize = 6;

/// How many requests per second a run makes where nothing else is asked for.
pub const DEFAULT_CONCURRENT: usize = 3;

/// How many tasks the task channel holds beyond those of a second.
pub const TASK_SLACK: usize = 2;

/// For how many seconds the requeue and result channels hold entries.
pub const BACKLOG_SECONDS: usize = 10;

/// Whether a run without proxies is too fast for a single address.
pub open spec fn too_fast(concurrent: usize, concurrent_unsafe: bool) -> bool {
    !concurrent_unsafe && concurrent > NO_PROXY_CONC_LIMIT
}

/// Refuses a run without proxies that is too fast, with the line that says so.
pub fn check_concurrency(concurrent: usize, concurrent_unsafe: bool) -> (r: Result<(), String>)
    ensures
        r is Err <==> too_fast(concurrent, concurrent_unsafe),
        r matches Err(text) ==> text@ == concurrency_refused_text(NO_PROXY_CONC_LIMIT as nat),
{
    if !concurrent_unsafe && concurrent > NO_PROXY_CONC_LIMIT {
        Err(concurrency_refused(NO_PROXY_CONC_LIMIT as u64))
    } else {
        Ok(())
    }
}

/// How many tasks may wait for a worker.
pub fn task_capacity(concurrent: usize) -> (r: usize)
    requires
        concurrent + TASK_SLACK <= usize::MAX,
    ensures
        r == concurrent + TASK_SLACK,
        r == concurrent + 2,
{
    concurrent + TASK_SLACK
}

/// How many entries may wait in the requeue channel, and in the result channel.
pub fn backlog_capacity(concurrent: usize) -> (r: usize)
    requires
        concurrent * BACKLOG_SECONDS <= usize::MAX,
    ensures
        r == concurrent * BACKLOG_SECONDS,
        r == concurrent * 10,
{
    concurrent * BACKLOG_SECONDS
}

} // verus!
