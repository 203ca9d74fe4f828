//! The lines that the scanner prints, each with its text as a specification.

use vstd::prelude::*;

use crate::text::{decimal, decimal_text};

verus! {

/// The text of [`results_open_failed`].
pub open spec fn results_open_failed_text(path: Seq<char>, error: Seq<char>) -> Seq<char> {
    "Failed to open results file '"@ + path + "': "@ + error
}

/// The results file at `path` could not be opened.
pub fn results_open_failed(path: &str, error: &str) -> (r: String)
    ensures
        r@ == results_open_failed_text(path@, error@),
{
    "Failed to open results file '".to_owned().concat(path).concat("': ").concat(error)
}

/// The text of [`results_write_failed`].
pub open spec fn results_write_failed_text(error: Seq<char>) -> Seq<char> {
    "Failed to write result to results file: "@ + error
}

/// A result could not be written.
pub fn results_write_failed(error: &str) -> (r: String)
    ensures
        r@ == results_write_failed_text(error@),
{
    "Failed to write result to results file: ".to_owned().concat(error)
}

/// The text of [`results_close_failed`].
pub open spec fn results_close_failed_text(error: Seq<char>) -> Seq<char> {
    "Failed to close results file after being done: "@ + error
}

/// The results file could not be flushed or shut down.
pub fn results_close_failed(error: &str) -> (r: String)
    ensures
        r@ == results_close_failed_text(error@),
{
    "Failed to close results file after being done: ".to_owned().concat(error)
}

/// The text of [`malformed_proxy_line`].
pub open spec fn malformed_proxy_line_text(line: Seq<char>) -> Seq<char> {
    "Proxy line \""@ + line + "\" was malformed"@
}

/// A proxy line names no port.
pub fn malformed_proxy_line(line: &str) -> (r: String)
    ensures
        r@ == malformed_proxy_line_text(line@),
{
    "Proxy line \"".to_owned().concat(line).concat("\" was malformed")
}

/// The text of [`bad_proxy_line`].
pub open spec fn bad_proxy_line_text(
    line: Seq<char>,
    url: Seq<char>,
    error: Seq<char>,
) -> Seq<char> {
    "Bad proxy line '"@ + line + "' -> '"@ + url + "': "@ + error
}

/// The address made of a proxy line was not accepted.
pub fn bad_proxy_line(line: &str, url: &str, error: &str) -> (r: String)
    ensures
        r@ == bad_proxy_line_text(line@, url@, error@),
{
    "Bad proxy line '".to_owned()
        .concat(line)
        .concat("' -> '")
        .concat(url)
        .concat("': ")
        .concat(error)
}

/// The text of [`proxy_read_failed`].
pub open spec fn proxy_read_failed_text(path: Seq<char>, error: Seq<char>) -> Seq<char> {
    "Failed to read line from proxy file '"@ + path + "': "@ + error
}

/// Reading the proxy list at `path` failed.
pub fn proxy_read_failed(path: &str, error: &str) -> (r: String)
    ensures
        r@ == proxy_read_failed_text(path@, error@),
{
    "Failed to read line from proxy file '".to_owned().concat(path).concat("': ").concat(error)
}

/// The text of [`open_failed`].
pub open spec fn open_failed_text(path: Seq<char>, error: Seq<char>) -> Seq<char> {
    "Failed to open file '"@ + path + "': "@ + error
}

/// The file at `path` could not be opened.
pub fn open_failed(path: &str, error: &str) -> (r: String)
    ensures
        r@ == open_failed_text(path@, error@),
{
    "Failed to open file '".to_owned().concat(path).concat("': ").concat(error)
}

/// The text of [`concurrency_refused`].
pub open spec fn concurrency_refused_text(limit: nat) -> Seq<char> {
    "Concurrency seems to be set too high for a single ip. (max. "@
        + decimal_text(limit)
        + "), refusing to start.\nIf you're really sure you want this, use --concurrent-unsafe and I'll do it."@
}

/// More than `limit` requests per second were asked for without proxies.
pub fn concurrency_refused(limit: u64) -> (r: String)
    ensures
        r@ == concurrency_refused_text(limit as nat),
{
    "Concurrency seems to be set too high for a single ip. (max. ".to_owned()
        .concat(decimal(limit).as_str())
        .concat("), refusing to start.\nIf you're really sure you want this, use --concurrent-unsafe and I'll do it.")
}

/// The text of [`task_send_failed`].
pub open spec fn task_send_failed_text(error: Seq<char>) -> Seq<char> {
    "Failed to send task "@ + error
}

/// The task channel was closed.
pub fn task_send_failed(error: &str) -> (r: String)
    ensures
        r@ == task_send_failed_text(error@),
{
    "Failed to send task ".to_owned().concat(error)
}

/// The text of [`producer_done`].
pub open spec fn producer_done_text() -> Seq<char> {
    "Producer is done."@
}

/// The producer has no more tasks.
pub fn producer_done() -> (r: String)
    ensures
        r@ == producer_done_text(),
{
    "Producer is done.".to_owned()
}

/// The text of [`input_read_failed`].
pub open spec fn input_read_failed_text(path: Seq<char>, error: Seq<char>) -> Seq<char> {
    "Failed to read line from file '"@ + path + "': "@ + error
}

/// Reading the id list at `path` failed.
pub fn input_read_failed(path: &str, error: &str) -> (r: String)
    ensures
        r@ == input_read_failed_text(path@, error@),
{
    "Failed to read line from file '".to_owned().concat(path).concat("': ").concat(error)
}

/// The text of [`client_failed`].
pub open spec fn client_failed_text(error: Seq<char>) -> Seq<char> {
    "Failed to build http client: "@ + error
}

/// The http client of a worker could not be built.
pub fn client_failed(error: &str) -> (r: String)
    ensures
        r@ == client_failed_text(error@),
{
    "Failed to build http client: ".to_owned().concat(error)
}

/// The text of [`album_parse_failed`].
pub open spec fn album_parse_failed_text(
    url: Seq<char>,
    error: Seq<char>,
    json: Seq<char>,
) -> Seq<char> {
    "Failed to parse response json for "@ + url + ": "@ + error + ". Json: "@ + json
}

/// The album data of a page is not what album data looks like.
pub fn album_parse_failed(url: &str, error: &str, json: &str) -> (r: String)
    ensures
        r@ == album_parse_failed_text(url@, error@, json@),
{
    "Failed to parse response json for ".to_owned()
        .concat(url)
        .concat(": ")
        .concat(error)
        .concat(". Json: ")
        .concat(json)
}

/// The text of [`album_missing`].
pub open spec fn album_missing_text(url: Seq<char>, body: Seq<char>) -> Seq<char> {
    "Failed to find album data in response for "@ + url + ":\n"@ + body
}

/// A page holds no album data.
pub fn album_missing(url: &str, body: &str) -> (r: String)
    ensures
        r@ == album_missing_text(url@, body@),
{
    "Failed to find album data in response for ".to_owned().concat(url).concat(":\n").concat(body)
}

/// The text of [`body_read_failed`].
pub open spec fn body_read_failed_text(url: Seq<char>, error: Seq<char>) -> Seq<char> {
    "Failed to read response body for "@ + url + ": "@ + error
}

/// The body of a successful response could not be read.
pub fn body_read_failed(url: &str, error: &str) -> (r: String)
    ensures
        r@ == body_read_failed_text(url@, error@),
{
    "Failed to read response body for ".to_owned().concat(url).concat(": ").concat(error)
}

/// The text of [`server_error`].
pub open spec fn server_error_text(url: Seq<char>, status: nat, preview: Seq<char>) -> Seq<char> {
    "Failed to request '"@
        + url
        + "', got status "@
        + decimal_text(status)
        + ", retrying in 30s (body: "@
        + preview
        + ")"@
}

/// The server failed; `preview` is the start of its answer.
pub fn server_error(url: &str, status: u64, preview: &str) -> (r: String)
    ensures
        r@ == server_error_text(url@, status as nat, preview@),
{
    "Failed to request '".to_owned()
        .concat(url)
        .concat("', got status ")
        .concat(decimal(status).as_str())
        .concat(", retrying in 30s (body: ")
        .concat(preview)
        .concat(")")
}

/// The text of [`rate_limited`].
pub open spec fn rate_limited_text(worker: nat) -> Seq<char> {
    "Worker #"@ + decimal_text(worker) + " got 429'd"@
}

/// A worker behind a proxy was rate limited.
pub fn rate_limited(worker: u64) -> (r: String)
    ensures
        r@ == rate_limited_text(worker as nat),
{
    "Worker #".to_owned().concat(decimal(worker).as_str()).concat(" got 429'd")
}

/// The text of [`rate_limited_waiting`].
pub open spec fn rate_limited_waiting_text(worker: nat) -> Seq<char> {
    "Worker #"@ + decimal_text(worker) + " got 429'd, sleeping 1min before retrying"@
}

/// A worker without a proxy was rate limited.
pub fn rate_limited_waiting(worker: u64) -> (r: String)
    ensures
        r@ == rate_limited_waiting_text(worker as nat),
{
    "Worker #".to_owned()
        .concat(decimal(worker).as_str())
        .concat(" got 429'd, sleeping 1min before retrying")
}

/// The text of [`over_capacity`].
pub open spec fn over_capacity_text(worker: nat) -> Seq<char> {
    "Worker #"@ + decimal_text(worker) + ": got 403 over-capacity, retrying in 2s"@
}

/// The service is over capacity.
pub fn over_capacity(worker: u64) -> (r: String)
    ensures
        r@ == over_capacity_text(worker as nat),
{
    "Worker #".to_owned()
        .concat(decimal(worker).as_str())
        .concat(": got 403 over-capacity, retrying in 2s")
}

/// The text of [`forbidden_unread`].
pub open spec fn forbidden_unread_text(url: Seq<char>, status: nat) -> Seq<char> {
    "Failed to request '"@
        + url
        + "', got status "@
        + decimal_text(status)
        + " and couldn't read body, retrying in 30s"@
}

/// The body of a 403 response could not be read.
pub fn forbidden_unread(url: &str, status: u64) -> (r: String)
    ensures
        r@ == forbidden_unread_text(url@, status as nat),
{
    "Failed to request '".to_owned()
        .concat(url)
        .concat("', got status ")
        .concat(decimal(status).as_str())
        .concat(" and couldn't read body, retrying in 30s")
}

/// The text of [`unexpected_status`].
pub open spec fn unexpected_status_text(url: Seq<char>, status: nat) -> Seq<char> {
    "Failed to request '"@ + url + "', got status "@ + decimal_text(status) + ", retrying in 30s"@
}

/// A response has a status that no album answers with.
pub fn unexpected_status(url: &str, status: u64) -> (r: String)
    ensures
        r@ == unexpected_status_text(url@, status as nat),
{
    "Failed to request '".to_owned()
        .concat(url)
        .concat("', got status ")
        .concat(decimal(status).as_str())
        .concat(", retrying in 30s")
}

/// The text of [`result_send_failed`].
pub open spec fn result_send_failed_text(error: Seq<char>) -> Seq<char> {
    "Failed to send result "@ + error
}

/// The result channel was closed.
pub fn result_send_failed(error: &str) -> (r: String)
    ensures
        r@ == result_send_failed_text(error@),
{
    "Failed to send result ".to_owned().concat(error)
}

/// The text of [`request_failed`].
pub open spec fn request_failed_text(url: Seq<char>, error: Seq<char>) -> Seq<char> {
    "Failed to request '"@ + url + "', retrying in 1s: "@ + error
}

/// A request brought no response.
pub fn request_failed(url: &str, error: &str) -> (r: String)
    ensures
        r@ == request_failed_text(url@, error@),
{
    "Failed to request '".to_owned().concat(url).concat("', retrying in 1s: ").concat(error)
}

/// The text of [`requeue_failed`].
pub open spec fn requeue_failed_text(error: Seq<char>) -> Seq<char> {
    "Failed to requeue result "@ + error
}

/// The requeue channel was closed.
pub fn requeue_failed(error: &str) -> (r: String)
    ensures
        r@ == requeue_failed_text(error@),
{
    "Failed to requeue result ".to_owned().concat(error)
}

/// The text of [`worker_failed`].
pub open spec fn worker_failed_text(worker: nat) -> Seq<char> {
    "Worker #"@ + decimal_text(worker) + " is done. (has failed)"@
}

/// A worker gave its task back and stopped.
pub fn worker_failed(worker: u64) -> (r: String)
    ensures
        r@ == worker_failed_text(worker as nat),
{
    "Worker #".to_owned().concat(decimal(worker).as_str()).concat(" is done. (has failed)")
}

/// The text of [`worker_done`].
pub open spec fn worker_done_text(worker: nat) -> Seq<char> {
    "Worker #"@ + decimal_text(worker) + " is done."@
}

/// A worker stopped because there are no more tasks.
pub fn worker_done(worker: u64) -> (r: String)
    ensures
        r@ == worker_done_text(worker as nat),
{
    "Worker #".to_owned().concat(decimal(worker).as_str()).concat(" is done.")
}

/// The text of [`results_finished`].
pub open spec fn results_finished_text() -> Seq<char> {
    "Finished writing results"@
}

/// Every result has been written.
pub fn results_finished() -> (r: String)
    ensures
        r@ == results_finished_text(),
{
    "Finished writing results".to_owned()
}

/// The text of [`all_workers_failed`].
pub open spec fn all_workers_failed_text() -> Seq<char> {
    "All workers failed :(\nThis isn't a good sign, something is probably wrong, so we're blocking until manually killed"@
}

/// No worker is left that could take a task.
pub fn all_workers_failed() -> (r: String)
    ensures
        r@ == all_workers_failed_text(),
{
    "All workers failed :(\nThis isn't a good sign, something is probably wrong, so we're blocking until manually killed".to_owned()
}

/// The text of [`all_done`].
pub open spec fn all_done_text() -> Seq<char> {
    "All done."@
}

/// The scan is over.
pub fn all_done() -> (r: String)
    ensures
        r@ == all_done_text(),
{
    "All done.".to_owned()
}

} // verus!
