//! What stands for a running value in a contract is the whole value: its views keep every part.

use vstd::prelude::*;

use crate::collector;
use crate::producer;
use crate::proxies::LineOutcome;
use crate::results::Progress;
use crate::text::{done_of, outcome_of, text_of};
use crate::worker;

verus! {

/// A worker's view has the worker's own fields.
pub proof fn law_view_of_a_worker(w: worker::Worker<String>, job: worker::Job<String>)
    ensures
        w@.number == w.number,
        w@.using_proxies == w.using_proxies,
        w@.concurrent == w.concurrent,
        w@.referer == w.referer@,
        w@.phase == w.phase@,
        job@.task == job.task@,
        job@.url == job.url@,
        job@.remaining == job.remaining,
{
}

/// The view of what a worker is at names the same phase, with the same contents.
pub proof fn law_view_of_a_phase(phase: worker::Phase<String>)
    ensures
        phase is Starting <==> phase@ is Starting,
        phase is Abandoning <==> phase@ is Abandoning,
        phase is Waiting <==> phase@ is Waiting,
        phase is Requesting <==> phase@ is Requesting,
        phase matches worker::Phase::Requesting { job } ==> phase@->Requesting_job == job@,
        phase is Reading <==> phase@ is Reading,
        phase matches worker::Phase::Reading { job, status, worked } ==> {
            &&& phase@->Reading_job == job@
            &&& phase@->Reading_status == status
            &&& phase@->Reading_worked == worked
        },
        phase is Parsing <==> phase@ is Parsing,
        phase matches worker::Phase::Parsing { job, data, worked } ==> {
            &&& phase@->Parsing_job == job@
            &&& phase@->Parsing_data == data@
            &&& phase@->Parsing_worked == worked
        },
        phase is Delivering <==> phase@ is Delivering,
        phase matches worker::Phase::Delivering { job, data, worked } ==> {
            &&& phase@->Delivering_job == job@
            &&& phase@->Delivering_data == data@
            &&& phase@->Delivering_worked == worked
        },
        phase is Pausing <==> phase@ is Pausing,
        phase matches worker::Phase::Pausing { job, millis } ==> {
            &&& phase@->Pausing_job == job@
            &&& phase@->millis == millis
        },
        phase is Requeueing <==> phase@ is Requeueing,
        phase matches worker::Phase::Requeueing { job } ==> phase@->Requeueing_job == job@,
        phase is Stopped <==> phase@ is Stopped,
{
}

/// The view of what is to be done for a worker names the same action, with the same contents.
pub proof fn law_view_of_an_action(action: worker::Action<String>)
    ensures
        action is BuildClient <==> action@ is BuildClient,
        action is Receive <==> action@ is Receive,
        action is Request <==> action@ is Request,
        action matches worker::Action::Request { url, referer, cookie } ==> {
            &&& action@->url == url@
            &&& action@->referer == referer@
            &&& action@->cookie == cookie@
        },
        action is ReadBody <==> action@ is ReadBody,
        action is ParseAlbum <==> action@ is ParseAlbum,
        action matches worker::Action::ParseAlbum { data } ==> action@->ParseAlbum_data == data@,
        action is Deliver <==> action@ is Deliver,
        action matches worker::Action::Deliver { data } ==> action@->Deliver_data == data@,
        action is Pause <==> action@ is Pause,
        action matches worker::Action::Pause { millis } ==> action@->millis == millis,
        action is Requeue <==> action@ is Requeue,
        action matches worker::Action::Requeue { task } ==> action@->task == task@,
        action is Stop <==> action@ is Stop,
{
}

/// The view of what came of a worker's action names the same event, with the same contents.
pub proof fn law_view_of_an_event(event: worker::Event<String>)
    ensures
        event is ClientBuilt <==> event@ is ClientBuilt,
        event matches worker::Event::ClientBuilt { outcome } ==> event@->ClientBuilt_outcome
            == done_of(outcome),
        event is TaskReceived <==> event@ is TaskReceived,
        event matches worker::Event::TaskReceived { task } ==> event@->task == text_of(task),
        event is RequestFailed <==> event@ is RequestFailed,
        event matches worker::Event::RequestFailed { error } ==> event@->error == error@,
        event is Answered <==> event@ is Answered,
        event matches worker::Event::Answered { status, worked } ==> event@->status == status
            && event@->worked == worked,
        event is BodyRead <==> event@ is BodyRead,
        event matches worker::Event::BodyRead { body, data } ==> event@->body == outcome_of(body)
            && event@->BodyRead_data == text_of(data),
        event is AlbumParsed <==> event@ is AlbumParsed,
        event matches worker::Event::AlbumParsed { counts: Ok(counts) } ==> event@->counts == Ok::<
            bool,
            Seq<char>,
        >(counts),
        event matches worker::Event::AlbumParsed { counts: Err(error) } ==> event@->counts == Err::<
            bool,
            Seq<char>,
        >(error@),
        event is Delivered <==> event@ is Delivered,
        event matches worker::Event::Delivered { outcome } ==> event@->Delivered_outcome == done_of(
            outcome,
        ),
        event is Paused <==> event@ is Paused,
        event is Requeued <==> event@ is Requeued,
        event matches worker::Event::Requeued { outcome } ==> event@->Requeued_outcome == done_of(
            outcome,
        ),
{
}

/// The view of what a step does besides keeps every part of it.
pub proof fn law_view_of_effects(
    of_worker: worker::Effects<String>,
    of_producer: producer::Effects<String>,
    of_line: LineOutcome<String>,
)
    ensures
        of_worker@.notice == text_of(of_worker.notice),
        of_worker@.count == of_worker.count,
        of_worker@.report == of_worker.report,
        of_worker@.farewell == text_of(of_worker.farewell),
        of_producer@.notice == text_of(of_producer.notice),
        of_producer@.close == of_producer.close,
        of_producer@.farewell == text_of(of_producer.farewell),
        of_line@.warning == text_of(of_line.warning),
        of_line@.error == text_of(of_line.error),
{
}

/// The producer's view has the producer's own fields, and names the same phase.
pub proof fn law_view_of_the_producer(p: producer::Producer<String>)
    ensures
        p@.input_file == p.input_file@,
        p@.concurrent == p.concurrent,
        p@.dispatched == p.dispatched,
        p.phase is Opening <==> p@.phase is Opening,
        p.phase is Draining <==> p@.phase is Draining,
        p.phase is Resending <==> p@.phase is Resending,
        p.phase matches producer::Phase::Resending { task } ==> p@.phase->Resending_task == task@,
        p.phase is Reading <==> p@.phase is Reading,
        p.phase is Sending <==> p@.phase is Sending,
        p.phase matches producer::Phase::Sending { task } ==> p@.phase->Sending_task == task@,
        p.phase is Pausing <==> p@.phase is Pausing,
        p.phase is Finished <==> p@.phase is Finished,
{
}

/// The views of what is to be done for the producer and of what came of it keep every part.
pub proof fn law_view_of_the_producers_work(
    action: producer::Action<String>,
    event: producer::Event<String>,
)
    ensures
        action is OpenInput <==> action@ is OpenInput,
        action matches producer::Action::OpenInput { path } ==> action@->path == path@,
        action is TakeReturned <==> action@ is TakeReturned,
        action is Send <==> action@ is Send,
        action matches producer::Action::Send { task } ==> action@->task == task@,
        action is ReadLine <==> action@ is ReadLine,
        action is Pause <==> action@ is Pause,
        action matches producer::Action::Pause { millis } ==> action@->millis == millis,
        action is Finish <==> action@ is Finish,
        event is Opened <==> event@ is Opened,
        event matches producer::Event::Opened { outcome } ==> event@->Opened_outcome == done_of(
            outcome,
        ),
        event is Returned <==> event@ is Returned,
        event matches producer::Event::Returned { task } ==> event@->task == text_of(task),
        event is Sent <==> event@ is Sent,
        event matches producer::Event::Sent { outcome } ==> event@->Sent_outcome == done_of(
            outcome,
        ),
        event is LineRead <==> event@ is LineRead,
        event matches producer::Event::LineRead { line: Ok(line) } ==> event@->line == Ok::<
            Option<Seq<char>>,
            Seq<char>,
        >(text_of(line)),
        event matches producer::Event::LineRead { line: Err(error) } ==> event@->line == Err::<
            Option<Seq<char>>,
            Seq<char>,
        >(error@),
        event is Paused <==> event@ is Paused,
{
}

/// The views of the collector, of what is to be done for it and of what came of it keep every part.
pub proof fn law_view_of_the_collector(
    c: collector::Collector<String>,
    event: collector::Event<String>,
    progress: Progress<String>,
)
    ensures
        c@.file == c.file,
        c@.closing == c.closing,
        c.action is Receive <==> c@.action is Receive,
        c.action is Write <==> c@.action is Write,
        c.action matches collector::Action::Write { text } ==> c@.action->text == text@,
        c.action is Flush <==> c@.action is Flush,
        c.action is Shutdown <==> c@.action is Shutdown,
        c.action is Stop <==> c@.action is Stop,
        event is Received <==> event@ is Received,
        event matches collector::Event::Received { found } ==> event@->found == text_of(found),
        event is Done <==> event@ is Done,
        event matches collector::Event::Done { outcome } ==> event@->outcome == done_of(outcome),
        progress is Write <==> progress@ is Write,
        progress matches Progress::Write { text } ==> progress@->text == text@,
        progress is Flush <==> progress@ is Flush,
        progress is Shutdown <==> progress@ is Shutdown,
        progress is Done <==> progress@ is Done,
        progress matches Progress::Done { ok, notice } ==> progress@->ok == ok && progress@->notice
            == text_of(notice),
{
}

} // verus!
