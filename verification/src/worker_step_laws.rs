//! What a worker does at each step, for every worker and every event.

use vstd::prelude::*;
use vstd::utf8::{encode_utf8, is_char_boundary};

use crate::album::{regex_group, regex_new};
use crate::text::{clipped, decimal_text};
use crate::text_laws::law_contained_text_stands_between;
use crate::worker::{
    answer_text, budget_of, meaning_of, url_text, Action, Count, Effects, Event, Job, Phase,
    Worker,
};

verus! {

/// A worker moves on to something else and stays the same otherwise.
pub open spec fn only_moves(before: Worker<Seq<char>>, after: Worker<Seq<char>>) -> bool {
    &&& after.number == before.number
    &&& after.using_proxies == before.using_proxies
    &&& after.concurrent == before.concurrent
    &&& after.referer == before.referer
}

/// A worker is done with a task: it asks for the next one, and its next request comes from the
/// album's page.
pub open spec fn takes_the_next(
    before: Worker<Seq<char>>,
    after: Worker<Seq<char>>,
    job: Job<Seq<char>>,
) -> bool {
    &&& after.number == before.number
    &&& after.using_proxies == before.using_proxies
    &&& after.concurrent == before.concurrent
    &&& after.referer == job.url
    &&& after.phase is Waiting
}

/// Nothing is printed and nothing is counted.
pub open spec fn silent(effects: Effects<Seq<char>>) -> bool {
    &&& effects.notice is None
    &&& effects.count is None
    &&& !effects.report
    &&& effects.farewell is None
}

/// A line is printed and nothing is counted.
pub open spec fn only_says(effects: Effects<Seq<char>>, text: Seq<char>) -> bool {
    &&& effects.notice == Some(text)
    &&& effects.count is None
    &&& !effects.report
    &&& effects.farewell is None
}

/// A task is counted as failed, and a report comes after every `concurrent` responses.
pub open spec fn counts_failed(
    worker: Worker<Seq<char>>,
    effects: Effects<Seq<char>>,
    worked: usize,
    notice: Option<Seq<char>>,
) -> bool {
    &&& effects.notice == notice
    &&& effects.count == Some(Count::Failed)
    &&& effects.report <==> worked as int % worker.concurrent as int == 0
    &&& effects.farewell is None
}

/// Whether a page says that the service is over capacity.
pub open spec fn says_over_capacity(body: Seq<char>) -> bool {
    exists|before: Seq<char>, after: Seq<char>|
        body == #[trigger] (before + "Imgur is temporarily over capacity"@ + after)
}

/// A new worker has no task, comes from the home page and wants a client.
pub proof fn law_beginning(number: u64, using_proxies: bool, concurrent: usize)
    ensures
        ({
            let worker = Worker::<Seq<char>>::initial(number, using_proxies, concurrent);
            &&& worker.number == number
            &&& worker.using_proxies == using_proxies
            &&& worker.concurrent == concurrent
            &&& worker.referer == "https://imgur.com/"@
            &&& worker.phase is Starting
            &&& worker.pending() is BuildClient
            &&& concurrent > 0 ==> worker.wf()
        }),
{
}

/// What is to be done for a worker at each point.
pub proof fn law_what_is_done_next(worker: Worker<Seq<char>>)
    ensures
        worker.phase is Starting <==> worker.pending() is BuildClient,
        worker.phase is Abandoning ==> worker.pending() == (Action::<Seq<char>>::Pause {
            millis: 500,
        }),
        worker.phase is Waiting <==> worker.pending() is Receive,
        worker.phase matches Phase::Requesting { job } ==> worker.pending() == (Action::Request {
            url: job.url,
            referer: worker.referer,
            cookie: "retina=0; over18=1; m_section=hot; m_sort=time; is_emerald=0; is_authed=0; frontpagebeta=0; postpagebeta=0;"@,
        }),
        worker.phase is Reading <==> worker.pending() is ReadBody,
        worker.phase matches Phase::Parsing { data, .. } ==> worker.pending() == (
        Action::ParseAlbum { data }),
        worker.phase matches Phase::Delivering { data, .. } ==> worker.pending() == (
        Action::Deliver { data }),
        worker.phase matches Phase::Pausing { millis, .. } ==> worker.pending() == (Action::<
            Seq<char>,
        >::Pause { millis }),
        worker.phase matches Phase::Requeueing { job } ==> worker.pending() == (Action::Requeue {
            task: job.task,
        }),
        worker.phase is Stopped <==> worker.pending() is Stop,
{
}

/// With a client a worker takes tasks. Without one it says why, waits half a second and ends.
pub proof fn law_a_worker_needs_a_client(worker: Worker<Seq<char>>, error: Seq<char>)
    requires
        worker.phase is Starting,
    ensures
        ({
            let (after, effects) = worker.next(Event::ClientBuilt { outcome: Ok(()) });
            &&& only_moves(worker, after)
            &&& after.pending() is Receive
            &&& silent(effects)
        }),
        ({
            let (after, effects) = worker.next(Event::ClientBuilt { outcome: Err(error) });
            let (last, nothing) = after.next(Event::Paused);
            &&& only_moves(worker, after)
            &&& after.pending() == (Action::<Seq<char>>::Pause { millis: 500 })
            &&& only_says(effects, "Failed to build http client: "@ + error)
            &&& only_moves(worker, last)
            &&& last.pending() is Stop
            &&& silent(nothing)
        }),
{
}

/// A task that comes is asked for at once, and one of its tries is used up: ten behind a proxy, and
/// as many as a 32-bit number counts without one.
pub proof fn law_a_task_is_asked_for(worker: Worker<Seq<char>>, task: Seq<char>)
    requires
        worker.phase is Waiting,
    ensures
        ({
            let (after, effects) = worker.next(Event::TaskReceived { task: Some(task) });
            &&& only_moves(worker, after)
            &&& after.phase matches Phase::Requesting { job }
            &&& job.task == task
            &&& job.url == "https://imgur.com/a/"@ + task
            &&& job.remaining == if worker.using_proxies { 9u64 } else { 0xFFFF_FFFFu64 }
            &&& after.pending() == (Action::Request {
                url: "https://imgur.com/a/"@ + task,
                referer: worker.referer,
                cookie: "retina=0; over18=1; m_section=hot; m_sort=time; is_emerald=0; is_authed=0; frontpagebeta=0; postpagebeta=0;"@,
            })
            &&& silent(effects)
        }),
{
}

/// When there are no more tasks, a worker says so and ends.
pub proof fn law_no_more_tasks(worker: Worker<Seq<char>>)
    requires
        worker.phase is Waiting,
    ensures
        ({
            let (after, effects) = worker.next(Event::TaskReceived { task: None });
            &&& only_moves(worker, after)
            &&& after.pending() is Stop
            &&& only_says(effects, "Worker #"@ + decimal_text(worker.number as nat) + " is done."@)
        }),
{
}

/// A request without an answer is made again after a second.
pub proof fn law_failed_request(worker: Worker<Seq<char>>, job: Job<Seq<char>>, error: Seq<char>)
    requires
        worker.phase == (Phase::Requesting { job }),
    ensures
        ({
            let (after, effects) = worker.next(Event::RequestFailed { error });
            &&& only_moves(worker, after)
            &&& after.phase == (Phase::Pausing { job, millis: 1000 })
            &&& only_says(
                effects,
                "Failed to request '"@ + job.url + "', retrying in 1s: "@ + error,
            )
        }),
{
}

/// The body of an answer is read where it matters: a page, a failed server's answer, and a refusal.
pub proof fn law_bodies_that_are_read(
    worker: Worker<Seq<char>>,
    job: Job<Seq<char>>,
    status: u16,
    worked: usize,
)
    requires
        worker.phase == (Phase::Requesting { job }),
        200 <= status <= 299 || 500 <= status <= 599 || status == 403,
    ensures
        ({
            let (after, effects) = worker.next(Event::Answered { status, worked });
            &&& only_moves(worker, after)
            &&& after.phase == (Phase::Reading { job, status, worked })
            &&& silent(effects)
        }),
{
}

/// Behind a proxy a rate limited worker gives its task back at once; without one it waits a minute
/// and keeps the task.
pub proof fn law_too_many_requests(worker: Worker<Seq<char>>, job: Job<Seq<char>>, worked: usize)
    requires
        worker.phase == (Phase::Requesting { job }),
    ensures
        ({
            let (after, effects) = worker.next(Event::Answered { status: 429, worked });
            let name = "Worker #"@ + decimal_text(worker.number as nat);
            &&& only_moves(worker, after)
            &&& worker.using_proxies ==> after.phase == (Phase::Requeueing { job }) && only_says(
                effects,
                name + " got 429'd"@,
            )
            &&& !worker.using_proxies ==> after.phase == (Phase::Pausing { job, millis: 60000 })
                && only_says(effects, name + " got 429'd, sleeping 1min before retrying"@)
        }),
{
}

/// An album that does not exist settles its task as failed.
pub proof fn law_no_such_album(worker: Worker<Seq<char>>, job: Job<Seq<char>>, worked: usize)
    requires
        worker.phase == (Phase::Requesting { job }),
    ensures
        ({
            let (after, effects) = worker.next(Event::Answered { status: 404, worked });
            &&& takes_the_next(worker, after, job)
            &&& counts_failed(worker, effects, worked, None)
        }),
{
}

/// After any other answer the request is made again in half a minute.
pub proof fn law_other_answers(
    worker: Worker<Seq<char>>,
    job: Job<Seq<char>>,
    status: u16,
    worked: usize,
)
    requires
        worker.phase == (Phase::Requesting { job }),
        !(200 <= status <= 299),
        !(500 <= status <= 599),
        status != 403,
        status != 404,
        status != 429,
    ensures
        ({
            let (after, effects) = worker.next(Event::Answered { status, worked });
            &&& only_moves(worker, after)
            &&& after.phase == (Phase::Pausing { job, millis: 30000 })
            &&& only_says(
                effects,
                "Failed to request '"@ + job.url + "', got status "@ + decimal_text(status as nat)
                    + ", retrying in 30s"@,
            )
        }),
{
}

/// A failed server never settles a task: whatever its answer says, and with proxies or without, the
/// same task is tried again after half a minute. The line that is printed shows the first hundred
/// bytes of the answer, or the reason why there is none.
pub proof fn law_failed_server(
    worker: Worker<Seq<char>>,
    job: Job<Seq<char>>,
    status: u16,
    worked: usize,
    body: Result<Seq<char>, Seq<char>>,
    data: Option<Seq<char>>,
)
    requires
        worker.phase == (Phase::Reading { job, status, worked }),
        500 <= status <= 599,
    ensures
        ({
            let (after, effects) = worker.next(Event::BodyRead { body, data });
            let answer = match body {
                Ok(text) => text,
                Err(error) => "ERR "@ + error,
            };
            &&& only_moves(worker, after)
            &&& after.phase == (Phase::Pausing { job, millis: 30000 })
            &&& after.pending() == (Action::<Seq<char>>::Pause { millis: 30000 })
            &&& only_says(
                effects,
                "Failed to request '"@ + job.url + "', got status "@ + decimal_text(status as nat)
                    + ", retrying in 30s (body: "@ + clipped(answer, 100) + ")"@,
            )
        }),
{
}

/// A page that says that the service is over capacity costs no try: the request is made again after
/// a second.
pub proof fn law_over_capacity(
    worker: Worker<Seq<char>>,
    job: Job<Seq<char>>,
    worked: usize,
    body: Seq<char>,
    data: Option<Seq<char>>,
)
    requires
        worker.phase == (Phase::Reading { job, status: 403, worked }),
        job.remaining < u64::MAX,
        says_over_capacity(body),
    ensures
        ({
            let (after, effects) = worker.next(Event::BodyRead { body: Ok(body), data });
            &&& only_moves(worker, after)
            &&& after.phase matches Phase::Pausing { job: kept, millis }
            &&& kept.task == job.task
            &&& kept.url == job.url
            &&& kept.remaining == job.remaining + 1
            &&& millis == 1000
            &&& only_says(
                effects,
                "Worker #"@ + decimal_text(worker.number as nat)
                    + ": got 403 over-capacity, retrying in 2s"@,
            )
        }),
{
    law_contained_text_stands_between(body, "Imgur is temporarily over capacity"@);
}

/// Any other page behind a 403 settles the task as failed.
pub proof fn law_forbidden(
    worker: Worker<Seq<char>>,
    job: Job<Seq<char>>,
    worked: usize,
    body: Seq<char>,
    data: Option<Seq<char>>,
)
    requires
        worker.phase == (Phase::Reading { job, status: 403, worked }),
        !says_over_capacity(body),
    ensures
        ({
            let (after, effects) = worker.next(Event::BodyRead { body: Ok(body), data });
            &&& takes_the_next(worker, after, job)
            &&& counts_failed(worker, effects, worked, None)
        }),
{
    law_contained_text_stands_between(body, "Imgur is temporarily over capacity"@);
}

/// A 403 whose page cannot be read is tried again after half a minute.
pub proof fn law_forbidden_and_unread(
    worker: Worker<Seq<char>>,
    job: Job<Seq<char>>,
    worked: usize,
    error: Seq<char>,
    data: Option<Seq<char>>,
)
    requires
        worker.phase == (Phase::Reading { job, status: 403, worked }),
    ensures
        ({
            let (after, effects) = worker.next(Event::BodyRead { body: Err(error), data });
            &&& only_moves(worker, after)
            &&& after.phase == (Phase::Pausing { job, millis: 30000 })
            &&& only_says(
                effects,
                "Failed to request '"@ + job.url + "', got status "@ + decimal_text(403)
                    + " and couldn't read body, retrying in 30s"@,
            )
        }),
{
}

/// Album data in a page is looked into. A page without it, and one that cannot be read, settle the
/// task as failed.
pub proof fn law_page(
    worker: Worker<Seq<char>>,
    job: Job<Seq<char>>,
    status: u16,
    worked: usize,
    body: Seq<char>,
    data: Seq<char>,
    error: Seq<char>,
    other: Option<Seq<char>>,
)
    requires
        worker.phase == (Phase::Reading { job, status, worked }),
        200 <= status <= 299,
    ensures
        ({
            let (after, effects) = worker.next(
                Event::BodyRead { body: Ok(body), data: Some(data) },
            );
            &&& only_moves(worker, after)
            &&& after.phase == (Phase::Parsing { job, data, worked })
            &&& silent(effects)
        }),
        ({
            let (after, effects) = worker.next(Event::BodyRead { body: Ok(body), data: None });
            &&& takes_the_next(worker, after, job)
            &&& counts_failed(
                worker,
                effects,
                worked,
                Some("Failed to find album data in response for "@ + job.url + ":\n"@ + body),
            )
        }),
        ({
            let (after, effects) = worker.next(Event::BodyRead { body: Err(error), data: other });
            &&& takes_the_next(worker, after, job)
            &&& counts_failed(
                worker,
                effects,
                worked,
                Some("Failed to read response body for "@ + job.url + ": "@ + error),
            )
        }),
{
}

/// An album that counts is counted as found and handed on as it was read; any other settles the
/// task as failed.
pub proof fn law_album(
    worker: Worker<Seq<char>>,
    job: Job<Seq<char>>,
    data: Seq<char>,
    worked: usize,
    error: Seq<char>,
)
    requires
        worker.phase == (Phase::Parsing { job, data, worked }),
    ensures
        ({
            let (after, effects) = worker.next(Event::AlbumParsed { counts: Ok(true) });
            &&& only_moves(worker, after)
            &&& after.phase == (Phase::Delivering { job, data, worked })
            &&& after.pending() == (Action::Deliver { data })
            &&& effects.notice is None
            &&& effects.count == Some(Count::Found)
            &&& !effects.report
            &&& effects.farewell is None
        }),
        ({
            let (after, effects) = worker.next(Event::AlbumParsed { counts: Ok(false) });
            &&& takes_the_next(worker, after, job)
            &&& counts_failed(worker, effects, worked, None)
        }),
        ({
            let (after, effects) = worker.next(Event::AlbumParsed { counts: Err(error) });
            &&& takes_the_next(worker, after, job)
            &&& counts_failed(
                worker,
                effects,
                worked,
                Some(
                    "Failed to parse response json for "@ + job.url + ": "@ + error + ". Json: "@
                        + data,
                ),
            )
        }),
{
}

/// A result that was handed on settles its task; one that could not be ends the worker.
pub proof fn law_delivery(
    worker: Worker<Seq<char>>,
    job: Job<Seq<char>>,
    data: Seq<char>,
    worked: usize,
    error: Seq<char>,
)
    requires
        worker.phase == (Phase::Delivering { job, data, worked }),
    ensures
        ({
            let (after, effects) = worker.next(Event::Delivered { outcome: Ok(()) });
            &&& takes_the_next(worker, after, job)
            &&& effects.notice is None
            &&& effects.count is None
            &&& effects.report <==> worked as int % worker.concurrent as int == 0
            &&& effects.farewell is None
        }),
        ({
            let (after, effects) = worker.next(Event::Delivered { outcome: Err(error) });
            &&& only_moves(worker, after)
            &&& after.pending() is Stop
            &&& only_says(effects, "Failed to send result "@ + error)
        }),
{
}

/// After a pause the same task is tried again while tries are left, and given back otherwise.
pub proof fn law_after_a_pause(worker: Worker<Seq<char>>, job: Job<Seq<char>>, millis: u64)
    requires
        worker.phase == (Phase::Pausing { job, millis }),
    ensures
        ({
            let (after, effects) = worker.next(Event::Paused);
            &&& only_moves(worker, after)
            &&& silent(effects)
            &&& job.remaining >= 1 ==> {
                &&& after.phase matches Phase::Requesting { job: tried }
                &&& tried.task == job.task
                &&& tried.url == job.url
                &&& tried.remaining == job.remaining - 1
            }
            &&& job.remaining == 0 ==> after.phase == (Phase::Requeueing { job })
        }),
{
}

/// A worker that has given its task back is counted as failed, and one that could not is not; both
/// end.
pub proof fn law_giving_back(worker: Worker<Seq<char>>, job: Job<Seq<char>>, error: Seq<char>)
    requires
        worker.phase == (Phase::Requeueing { job }),
    ensures
        worker.pending() == (Action::Requeue { task: job.task }),
        ({
            let (after, effects) = worker.next(Event::Requeued { outcome: Ok(()) });
            &&& only_moves(worker, after)
            &&& after.pending() is Stop
            &&& effects.notice is None
            &&& effects.count == Some(Count::WorkerFailed)
            &&& !effects.report
            &&& effects.farewell == Some(
                "Worker #"@ + decimal_text(worker.number as nat) + " is done. (has failed)"@,
            )
        }),
        ({
            let (after, effects) = worker.next(Event::Requeued { outcome: Err(error) });
            &&& only_moves(worker, after)
            &&& after.pending() is Stop
            &&& only_says(effects, "Failed to requeue result "@ + error)
        }),
{
}

/// Whether an event answers what is to be done.
pub open spec fn answers(action: Action<Seq<char>>, event: Event<Seq<char>>) -> bool {
    match action {
        Action::BuildClient => event is ClientBuilt,
        Action::Receive => event is TaskReceived,
        Action::Request { .. } => event is RequestFailed || event is Answered,
        Action::ReadBody => event is BodyRead,
        Action::ParseAlbum { .. } => event is AlbumParsed,
        Action::Deliver { .. } => event is Delivered,
        Action::Pause { .. } => event is Paused,
        Action::Requeue { .. } => event is Requeued,
        Action::Stop => false,
    }
}

/// An event that does not answer what is to be done changes nothing.
pub proof fn law_stray_events(worker: Worker<Seq<char>>, event: Event<Seq<char>>)
    requires
        !answers(worker.pending(), event),
    ensures
        worker.next(event).0 == worker,
        silent(worker.next(event).1),
{
}

/// A task is counted as failed after a 404, after a 403 whose page was read and does not say that
/// the service is over capacity, and after a page without an album worth keeping. Nothing else
/// counts it as failed.
pub proof fn law_when_tasks_fail(worker: Worker<Seq<char>>, event: Event<Seq<char>>)
    ensures
        worker.next(event).1.count == Some(Count::Failed) <==> {
            ||| worker.phase is Requesting && event is Answered && event->status == 404
            ||| worker.phase is Reading && worker.phase->Reading_status == 403 && event is BodyRead
                && event->body is Ok && !says_over_capacity(event->body->Ok_0)
            ||| worker.phase is Reading && 200 <= worker.phase->Reading_status <= 299
                && event is BodyRead && (event->body is Err || event->BodyRead_data is None)
            ||| worker.phase is Parsing && event is AlbumParsed && event->counts != Ok::<
                bool,
                Seq<char>,
            >(true)
        },
        worker.next(event).1.count == Some(Count::Found) <==> worker.phase is Parsing
            && event is AlbumParsed && event->counts == Ok::<bool, Seq<char>>(true),
        worker.next(event).1.count == Some(Count::WorkerFailed) <==> worker.phase is Requeueing
            && event is Requeued && event->Requeued_outcome is Ok,
{
    if event is BodyRead && event->body is Ok {
        law_contained_text_stands_between(
            event->body->Ok_0,
            "Imgur is temporarily over capacity"@,
        );
    }
}

/// What a status code means.
pub proof fn law_meanings(status: u16)
    ensures
        meaning_of(status) is Page <==> 200 <= status <= 299,
        meaning_of(status) is ServerError <==> 500 <= status <= 599,
        meaning_of(status) is RateLimited <==> status == 429,
        meaning_of(status) is Forbidden <==> status == 403,
        meaning_of(status) is NotFound <==> status == 404,
        meaning_of(status) is Unexpected <==> status <= 199 || 300 <= status <= 402 || 405
            <= status <= 428 || 430 <= status <= 499 || 600 <= status,
{
}

/// The address of an album, the number of tries, and what is shown of a failed server's answer.
pub proof fn law_texts_and_tries(task: Seq<char>, text: Seq<char>)
    ensures
        url_text(task) == "https://imgur.com/a/"@ + task,
        budget_of(true) == 10,
        budget_of(false) == 4294967296,
        answer_text(Ok(text)) == text,
        answer_text(Err(text)) == "ERR "@ + text,
{
}

/// A worker is well formed where reports have an interval and no task has more tries left than it
/// may be tried.
pub proof fn law_well_formed(worker: Worker<Seq<char>>)
    ensures
        worker.wf() <==> {
            &&& worker.concurrent >= 1
            &&& worker.phase matches Phase::Requesting { job } ==> job.remaining < budget_of(
                worker.using_proxies,
            )
            &&& worker.phase matches Phase::Reading { job, .. } ==> job.remaining < budget_of(
                worker.using_proxies,
            )
            &&& worker.phase matches Phase::Parsing { job, .. } ==> job.remaining < budget_of(
                worker.using_proxies,
            )
            &&& worker.phase matches Phase::Delivering { job, .. } ==> job.remaining < budget_of(
                worker.using_proxies,
            )
            &&& worker.phase matches Phase::Pausing { job, .. } ==> job.remaining <= budget_of(
                worker.using_proxies,
            )
            &&& worker.phase matches Phase::Requeueing { job } ==> job.remaining <= budget_of(
                worker.using_proxies,
            )
        },
{
}

/// Every event can be taken but for a failed server's answer whose hundredth byte stands inside a
/// character.
pub proof fn law_what_can_be_taken(worker: Worker<Seq<char>>, event: Event<Seq<char>>)
    ensures
        !worker.takes(event) <==> {
            &&& worker.phase is Reading
            &&& 500 <= worker.phase->Reading_status <= 599
            &&& event is BodyRead
            &&& ({
                let bytes = encode_utf8(
                    match event->body {
                        Ok(text) => text,
                        Err(error) => "ERR "@ + error,
                    },
                );
                bytes.len() > 100 && !is_char_boundary(bytes, 100)
            })
        },
{
}

/// Album data is looked for in the whole of every page that was read, and nowhere else.
pub proof fn law_where_album_data_is_looked_for(
    worker: Worker<Seq<char>>,
    body: Seq<char>,
    error: Seq<char>,
)
    ensures
        worker.phase is Reading && 200 <= worker.phase->Reading_status <= 299 ==> worker.data_in(
            Ok(body),
        ) == regex_group(
            regex_new("(?msi)<script.*image\\s*:\\s?(\\{.*?\\}),\r?\n.*?</script>"@)->Ok_0,
            body,
            1,
        ),
        !(worker.phase is Reading && 200 <= worker.phase->Reading_status <= 299)
            ==> worker.data_in(Ok(body)) is None,
        worker.data_in(Err(error)) is None,
{
}

} // verus!
