//! What holds of a worker over any number of events.

use vstd::prelude::*;

use crate::text::contains_text;
use crate::worker::{
    budget_of, meaning_of, url_text, Action, Count, Event, Phase, Worker, HOME,
    OVER_CAPACITY, RATE_PAUSE, SHORT_PAUSE,
};

verus! {

/// A kind of step: a worker and the event that it takes.
pub type Kind = spec_fn(Worker<Seq<char>>, Event<Seq<char>>) -> bool;

/// The worker after a sequence of events.
pub open spec fn run(worker: Worker<Seq<char>>, events: Seq<Event<Seq<char>>>) -> Worker<Seq<char>>
    decreases events.len(),
{
    if events.len() == 0 {
        worker
    } else {
        run(worker, events.drop_last()).next(events.last()).0
    }
}

/// How many steps of a kind there are in a run.
pub open spec fn steps(
    worker: Worker<Seq<char>>,
    events: Seq<Event<Seq<char>>>,
    kind: Kind,
) -> nat
    decreases events.len(),
{
    if events.len() == 0 {
        0
    } else {
        let before = steps(worker, events.drop_last(), kind);
        if kind(run(worker, events.drop_last()), events.last()) {
            before + 1
        } else {
            before
        }
    }
}

/// The worker takes a task.
pub open spec fn takes_task() -> Kind {
    |w: Worker<Seq<char>>, e: Event<Seq<char>>|
        w.phase is Waiting && e is TaskReceived && e->task is Some
}

/// The worker starts a try of its task.
pub open spec fn tries_task() -> Kind {
    |w: Worker<Seq<char>>, e: Event<Seq<char>>|
        !(w.phase is Requesting) && w.next(e).0.phase is Requesting
}

/// The worker learns that the service is over capacity.
pub open spec fn is_excused() -> Kind {
    |w: Worker<Seq<char>>, e: Event<Seq<char>>|
        {
            &&& w.phase is Reading
            &&& meaning_of(w.phase->Reading_status) is Forbidden
            &&& e is BodyRead
            &&& e->body is Ok
            &&& contains_text(e->body->Ok_0, OVER_CAPACITY@)
        }
}

/// The worker is done with a task and goes on.
pub open spec fn settles_task() -> Kind {
    |w: Worker<Seq<char>>, e: Event<Seq<char>>|
        w.phase.job() is Some && w.next(e).0.phase is Waiting
}

/// The worker has given its task back.
pub open spec fn returns_task() -> Kind {
    |w: Worker<Seq<char>>, e: Event<Seq<char>>|
        w.phase is Requeueing && e is Requeued && e->Requeued_outcome is Ok
}

/// The worker stops with a task, because the channel that it should go into is closed.
pub open spec fn loses_task() -> Kind {
    |w: Worker<Seq<char>>, e: Event<Seq<char>>|
        {
            ||| w.phase is Requeueing && e is Requeued && e->Requeued_outcome is Err
            ||| w.phase is Delivering && e is Delivered && e->Delivered_outcome is Err
        }
}

/// A response comes.
pub open spec fn is_answered() -> Kind {
    |w: Worker<Seq<char>>, e: Event<Seq<char>>| w.phase is Requesting && e is Answered
}

/// The worker counts a task as found or as failed.
pub open spec fn counts_task() -> Kind {
    |w: Worker<Seq<char>>, e: Event<Seq<char>>|
        w.next(e).1.count == Some(Count::Found) || w.next(e).1.count == Some(Count::Failed)
}

/// The worker counts a task as found.
pub open spec fn counts_found() -> Kind {
    |w: Worker<Seq<char>>, e: Event<Seq<char>>| w.next(e).1.count == Some(Count::Found)
}

/// A result has been handed on, or cannot be.
pub open spec fn ends_delivery() -> Kind {
    |w: Worker<Seq<char>>, e: Event<Seq<char>>| w.phase is Delivering && e is Delivered
}

/// One for what holds, zero for what does not.
pub open spec fn one_if(b: bool) -> nat {
    if b {
        1
    } else {
        0
    }
}

/// How often the task in hand may still be tried.
pub open spec fn left(worker: Worker<Seq<char>>) -> nat {
    match worker.phase.job() {
        Some(job) => job.remaining as nat,
        None => 0,
    }
}

/// A well-formed worker stays well formed, whatever happens.
pub proof fn law_wf_is_kept(worker: Worker<Seq<char>>, events: Seq<Event<Seq<char>>>)
    requires
        worker.wf(),
    ensures
        run(worker, events).wf(),
        run(worker, events).using_proxies == worker.using_proxies,
        run(worker, events).number == worker.number,
        run(worker, events).concurrent == worker.concurrent,
    decreases events.len(),
{
    if events.len() > 0 {
        law_wf_is_kept(worker, events.drop_last());
    }
}

/// A worker tries each task at most as often as it may, not counting the tries that met a service
/// over capacity.
pub proof fn law_tries_are_bounded(worker: Worker<Seq<char>>, events: Seq<Event<Seq<char>>>)
    requires
        worker.wf(),
    ensures
        steps(worker, events, tries_task()) + left(run(worker, events)) <= left(worker) + budget_of(
            worker.using_proxies,
        ) * steps(worker, events, takes_task()) + steps(worker, events, is_excused()),
    decreases events.len(),
{
    if events.len() > 0 {
        let earlier = events.drop_last();
        law_tries_are_bounded(worker, earlier);
        law_wf_is_kept(worker, earlier);
        let taken = steps(worker, earlier, takes_task());
        let budget = budget_of(worker.using_proxies);
        assert(budget * (taken + 1) == budget * taken + budget) by (nonlinear_arith);
    }
}

/// No task gets lost on the way: each one that a worker took is settled, given back or still in
/// its hands, unless a closed channel stopped the worker.
pub proof fn law_every_task_is_accounted_for(
    worker: Worker<Seq<char>>,
    events: Seq<Event<Seq<char>>>,
)
    ensures
        one_if(worker.phase.job() is Some) + steps(worker, events, takes_task()) == steps(
            worker,
            events,
            settles_task(),
        ) + steps(worker, events, returns_task()) + steps(worker, events, loses_task()) + one_if(
            run(worker, events).phase.job() is Some,
        ),
    decreases events.len(),
{
    if events.len() > 0 {
        law_every_task_is_accounted_for(worker, events.drop_last());
    }
}

/// The task in a worker's hands stays the same, and so does its address, until the worker is done
/// with it.
pub proof fn law_task_in_hand_stays(worker: Worker<Seq<char>>, event: Event<Seq<char>>)
    ensures
        worker.phase.job() matches Some(job) ==> (worker.next(event).0.phase.job() matches Some(
            next,
        ) ==> next.task == job.task && next.url == job.url),
        worker.phase.job() is None && worker.next(event).0.phase.job() is Some ==> {
            &&& event is TaskReceived
            &&& event->task == Some(worker.next(event).0.phase.job()->0.task)
            &&& worker.next(event).0.phase.job()->0.url == url_text(event->task->0)
        },
{
}

/// A page whose album data belongs to an album worth keeping ends in that data being handed on,
/// and the album being counted as found; then the worker takes the next task.
pub proof fn law_existing_album_is_delivered(
    worker: Worker<Seq<char>>,
    status: u16,
    worked: usize,
    body: Seq<char>,
    data: Seq<char>,
)
    requires
        worker.phase is Requesting,
        meaning_of(status) is Page,
    ensures
        ({
            let read = worker.next(Event::Answered { status, worked }).0;
            let parsed = read.next(Event::BodyRead { body: Ok(body), data: Some(data) }).0;
            let (found, effects) = parsed.next(Event::AlbumParsed { counts: Ok(true) });
            let settled = found.next(Event::Delivered { outcome: Ok(()) }).0;
            &&& read.pending() is ReadBody
            &&& parsed.pending() == (Action::ParseAlbum { data })
            &&& found.pending() == (Action::Deliver { data })
            &&& effects.count == Some(Count::Found)
            &&& settled.pending() is Receive
        }),
{
}

/// There is never more than one count for a response: a worker that starts without an open
/// response counts at most as many tasks as responses came.
pub proof fn law_counts_follow_responses(worker: Worker<Seq<char>>, events: Seq<Event<Seq<char>>>)
    ensures
        steps(worker, events, counts_task()) + one_if(
            run(worker, events).phase is Reading || run(worker, events).phase is Parsing,
        ) <= steps(worker, events, is_answered()) + one_if(
            worker.phase is Reading || worker.phase is Parsing,
        ),
    decreases events.len(),
{
    if events.len() > 0 {
        law_counts_follow_responses(worker, events.drop_last());
    }
}

/// A task that is settled was counted once, and a task that is counted is settled, unless its
/// result could not be handed on.
pub proof fn law_settled_tasks_are_counted(
    worker: Worker<Seq<char>>,
    events: Seq<Event<Seq<char>>>,
)
    requires
        !(worker.phase is Delivering),
    ensures
        steps(worker, events, counts_task()) <= steps(worker, events, settles_task()) + steps(
            worker,
            events,
            loses_task(),
        ) + one_if(run(worker, events).phase is Delivering),
        steps(worker, events, settles_task()) + one_if(run(worker, events).phase is Delivering)
            <= steps(worker, events, counts_task()),
    decreases events.len(),
{
    if events.len() > 0 {
        law_settled_tasks_are_counted(worker, events.drop_last());
    }
}

/// Each album that is counted as found is handed on once.
pub proof fn law_found_albums_are_delivered(
    worker: Worker<Seq<char>>,
    events: Seq<Event<Seq<char>>>,
)
    ensures
        one_if(worker.phase is Delivering) + steps(worker, events, counts_found()) == steps(
            worker,
            events,
            ends_delivery(),
        ) + one_if(run(worker, events).phase is Delivering),
    decreases events.len(),
{
    if events.len() > 0 {
        law_found_albums_are_delivered(worker, events.drop_last());
    }
}

/// A request comes from the home page or from the album that the worker looked at before.
pub proof fn law_referer(worker: Worker<Seq<char>>, event: Event<Seq<char>>)
    ensures
        settles_task()(worker, event) ==> worker.next(event).0.referer
            == worker.phase.job()->0.url,
        !settles_task()(worker, event) ==> worker.next(event).0.referer == worker.referer,
        forall|number: u64, using_proxies: bool, concurrent: usize| #[trigger]
            Worker::<Seq<char>>::initial(number, using_proxies, concurrent).referer == HOME@,
{
}

/// A worker never asks for anything but the page of the task in its hands.
pub proof fn law_requests_are_for_the_task(
    number: u64,
    using_proxies: bool,
    concurrent: usize,
    events: Seq<Event<Seq<char>>>,
)
    ensures
        ({
            let after = run(
                Worker::<Seq<char>>::initial(number, using_proxies, concurrent),
                events,
            );
            &&& after.phase.job() matches Some(job) ==> job.url == url_text(job.task)
            &&& after.pending() matches Action::Request { url, .. } ==> url == url_text(
                after.phase.job()->0.task,
            )
        }),
    decreases events.len(),
{
    if events.len() > 0 {
        law_requests_are_for_the_task(number, using_proxies, concurrent, events.drop_last());
    }
}

/// The number of the response that a worker is at.
pub open spec fn response_number(worker: Worker<Seq<char>>, event: Event<Seq<char>>) -> usize {
    match (worker.phase, event) {
        (Phase::Requesting { .. }, Event::Answered { worked, .. }) => worked,
        (Phase::Reading { worked, .. }, _) => worked,
        (Phase::Parsing { worked, .. }, _) => worked,
        (Phase::Delivering { worked, .. }, _) => worked,
        _ => 0,
    }
}

/// A report comes when a task is settled by a response whose number is a multiple of the requests
/// per second, and at no other time.
pub proof fn law_when_reports_come(worker: Worker<Seq<char>>, event: Event<Seq<char>>)
    ensures
        worker.next(event).1.report <==> settles_task()(worker, event) && response_number(
            worker,
            event,
        ) as int % worker.concurrent as int == 0,
{
}

/// Whoever is rate limited behind a proxy gives the task back at once; without a proxy the worker
/// waits and keeps it.
pub proof fn law_rate_limiting(worker: Worker<Seq<char>>, worked: usize)
    requires
        worker.phase is Requesting,
    ensures
        ({
            let after = worker.next(Event::Answered { status: 429, worked }).0;
            let job = worker.phase.job()->0;
            &&& after.phase.job() == Some(job)
            &&& worker.using_proxies ==> after.pending() == (Action::Requeue { task: job.task })
            &&& !worker.using_proxies ==> after.pending() == (Action::<Seq<char>>::Pause {
                millis: RATE_PAUSE,
            })
        }),
{
}

/// A service over capacity costs the task no try: after the pause the task may be tried as often
/// as before the try that met it.
pub proof fn law_over_capacity_is_free(
    worker: Worker<Seq<char>>,
    event: Event<Seq<char>>,
)
    requires
        worker.wf(),
        is_excused()(worker, event),
    ensures
        worker.next(event).0.pending() == (Action::<Seq<char>>::Pause {
            millis: SHORT_PAUSE,
        }),
        left(worker.next(event).0) == left(worker) + 1,
        worker.next(event).0.next(Event::Paused).0.phase is Requesting,
        left(worker.next(event).0.next(Event::Paused).0) == left(worker),
{
}

/// A worker gives a task back only when it may not try it again, or when it is rate limited
/// behind a proxy. A worker without proxy keeps its task while it may try.
pub proof fn law_when_tasks_are_given_back(worker: Worker<Seq<char>>, event: Event<Seq<char>>)
    requires
        worker.wf(),
        !(worker.phase is Requeueing),
        worker.next(event).0.phase is Requeueing,
    ensures
        left(worker) == 0 || worker.using_proxies && event is Answered && meaning_of(
            event->status,
        ) is RateLimited,
        !worker.using_proxies ==> left(worker) == 0,
{
}

/// A task comes, and then one request after the other fails and is paused for.
pub open spec fn failing(task: Seq<char>, errors: Seq<Seq<char>>) -> Seq<Event<Seq<char>>>
    decreases errors.len(),
{
    if errors.len() == 0 {
        seq![Event::TaskReceived { task: Some(task) }]
    } else {
        failing(task, errors.drop_last()).push(
            Event::RequestFailed { error: errors.last() },
        ).push(Event::Paused)
    }
}

/// A worker whose requests bring no answer uses up a try with each of them, and gives its task
/// back after the last one: behind a proxy after ten.
pub proof fn law_failing_worker_releases_its_task(
    worker: Worker<Seq<char>>,
    task: Seq<char>,
    errors: Seq<Seq<char>>,
)
    requires
        worker.phase is Waiting,
        errors.len() <= budget_of(worker.using_proxies),
    ensures
        ({
            let after = run(worker, failing(task, errors));
            &&& after.using_proxies == worker.using_proxies
            &&& after.phase.job() matches Some(job) && job.task == task
            &&& errors.len() < budget_of(worker.using_proxies) ==> {
                &&& after.phase is Requesting
                &&& left(after) == budget_of(worker.using_proxies) - 1 - errors.len()
            }
            &&& errors.len() == budget_of(worker.using_proxies) ==> after.pending() == (
            Action::Requeue { task })
        }),
    decreases errors.len(),
{
    let events = failing(task, errors);
    if errors.len() == 0 {
        assert(events.drop_last() == Seq::<Event<Seq<char>>>::empty());
        assert(run(worker, events.drop_last()) == worker);
    } else {
        let earlier = failing(task, errors.drop_last());
        law_failing_worker_releases_its_task(worker, task, errors.drop_last());
        let failed = Event::RequestFailed { error: errors.last() };
        assert(events.drop_last() == earlier.push(failed));
        assert(earlier.push(failed).drop_last() == earlier);
        assert(run(worker, earlier.push(failed)) == run(worker, earlier).next(failed).0);
        assert(run(worker, events) == run(worker, earlier).next(failed).0.next(Event::Paused).0);
    }
}

/// A worker that has stopped stays so.
pub proof fn law_stopped_is_final(worker: Worker<Seq<char>>, events: Seq<Event<Seq<char>>>)
    requires
        worker.phase is Stopped,
    ensures
        run(worker, events) == worker,
        run(worker, events).pending() is Stop,
    decreases events.len(),
{
    if events.len() > 0 {
        law_stopped_is_final(worker, events.drop_last());
    }
}

/// A result that is handed on is the album data whose album counts, and nothing else is handed on.
pub proof fn law_only_counting_albums_are_delivered(
    worker: Worker<Seq<char>>,
    event: Event<Seq<char>>,
)
    requires
        !(worker.phase is Delivering),
        worker.next(event).0.phase is Delivering,
    ensures
        worker.phase is Parsing,
        event is AlbumParsed,
        event->counts == Ok::<bool, Seq<char>>(true),
        worker.next(event).0.pending() == (Action::Deliver { data: worker.phase->Parsing_data }),
{
}

} // verus!
