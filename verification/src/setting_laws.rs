//! What holds of the settings, the figures and the end of a run.

use vstd::prelude::*;

use crate::counters::{raised, Ending, Figures};
use crate::http::worker_config;
use crate::messages::{
    concurrency_refused_text, open_failed_text, proxy_read_failed_text, results_open_failed_text,
};
use crate::settings::{
    too_fast, BACKLOG_SECONDS, DEFAULT_CONCURRENT, NO_PROXY_CONC_LIMIT, TASK_SLACK,
};
use crate::text::decimal_text;
use crate::worker::Count;

verus! {

/// Without proxies up to six requests per second are allowed, and any number where the check is
/// bypassed.
pub proof fn law_six_requests_without_proxies(concurrent: usize)
    ensures
        too_fast(concurrent, false) <==> 7 <= concurrent,
        !too_fast(concurrent, true),
        NO_PROXY_CONC_LIMIT == 6,
        DEFAULT_CONCURRENT == 3,
{
}

/// A slower run is never refused where a faster one is allowed.
pub proof fn law_slower_runs_are_allowed(slower: usize, faster: usize, concurrent_unsafe: bool)
    requires
        slower <= faster,
        !too_fast(faster, concurrent_unsafe),
    ensures
        !too_fast(slower, concurrent_unsafe),
{
}

/// The refusal names the limit, and how to get around it.
pub proof fn law_refusal_names_the_limit()
    ensures
        concurrency_refused_text(NO_PROXY_CONC_LIMIT as nat)
            == "Concurrency seems to be set too high for a single ip. (max. "@ + decimal_text(6)
            + "), refusing to start.\nIf you're really sure you want this, use --concurrent-unsafe and I'll do it."@,
{
}

/// The task channel has room for two tasks more than a second allows; the others hold ten seconds.
pub proof fn law_channel_room()
    ensures
        TASK_SLACK == 2,
        BACKLOG_SECONDS == 10,
{
}

/// A file that cannot be used is named, with the reason.
pub proof fn law_files_are_named(path: Seq<char>, error: Seq<char>)
    ensures
        open_failed_text(path, error) == "Failed to open file '"@ + path + "': "@ + error,
        proxy_read_failed_text(path, error) == "Failed to read line from proxy file '"@ + path
            + "': "@ + error,
        results_open_failed_text(path, error) == "Failed to open results file '"@ + path + "': "@
            + error,
{
}

/// A worker's client names a browser, takes compressed answers, uses the worker's own proxy, gives
/// up after twenty seconds and follows no redirect.
pub proof fn law_client_settings(proxy: reqwest::Proxy)
    ensures
        worker_config(proxy).user_agent
            == "Mozilla/5.0 (Windows NT 10.0; Win64; x64) AppleWebKit/537.36 (KHTML, like Gecko) Chrome/113.0.0.0 Safari/537.36"@,
        worker_config(proxy).gzip,
        worker_config(proxy).proxy == proxy,
        worker_config(proxy).connect_timeout_secs == 20,
        worker_config(proxy).timeout_secs == 20,
        !worker_config(proxy).follows_redirects,
{
}

/// Counting raises one figure by one and leaves the others alone.
pub proof fn law_counting_raises_one_figure(figures: Figures, count: Count)
    ensures
        ({
            let after = figures.with(count);
            &&& after.worked == figures.worked
            &&& after.found == if count is Found { raised(figures.found) } else { figures.found }
            &&& after.failed == if count is Failed { raised(figures.failed) } else { figures.failed }
            &&& after.workers_failed == if count is WorkerFailed {
                raised(figures.workers_failed)
            } else {
                figures.workers_failed
            }
        }),
        ({
            let after = figures.with_response();
            &&& after.worked == raised(figures.worked)
            &&& after.found == figures.found
            &&& after.failed == figures.failed
            &&& after.workers_failed == figures.workers_failed
        }),
        Figures::zero().worked == 0,
        Figures::zero().found == 0,
        Figures::zero().failed == 0,
        Figures::zero().workers_failed == 0,
{
}

/// One more is one more, until the greatest count is followed by zero.
pub proof fn law_raised_is_one_more(n: usize)
    ensures
        n < usize::MAX ==> raised(n) == n + 1,
        n == usize::MAX ==> raised(n) == 0,
{
}

/// A run blocks where as many workers failed as there were, and then says so; any other run is
/// done.
pub proof fn law_how_runs_end(figures: Figures, workers: usize)
    ensures
        figures.ending_of(workers).block <==> figures.workers_failed == workers,
        figures.workers_failed == workers ==> figures.ending_of(workers).notice
            == "All workers failed :(\nThis isn't a good sign, something is probably wrong, so we're blocking until manually killed"@,
        figures.workers_failed != workers ==> figures.ending_of(workers).notice == "All done."@,
{
}

/// What stands for an ending in a contract is the whole ending.
pub proof fn law_view_of_an_ending_is_whole(ending: Ending<String>)
    ensures
        ending@.notice == ending.notice@,
        ending@.block == ending.block,
{
}

} // verus!
