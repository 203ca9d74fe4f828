//! What the producer does at each step, and how long it waits.

use vstd::prelude::*;

use crate::producer::{Action, Effects, Event, Phase, Producer};
use crate::producer_laws::{
    handed_out, law_pauses_match_tasks, law_speed_is_kept, lemma_settings_stay, pause_count,
    returned_count, run, takes_all,
};

verus! {

/// The producer moves on to something else and stays the same otherwise.
pub open spec fn only_moves(before: Producer<Seq<char>>, after: Producer<Seq<char>>) -> bool {
    &&& after.input_file == before.input_file
    &&& after.concurrent == before.concurrent
    &&& after.dispatched == before.dispatched
}

/// Nothing is printed and nothing is closed.
pub open spec fn silent(effects: Effects<Seq<char>>) -> bool {
    &&& effects.notice is None
    &&& !effects.close
    &&& effects.farewell is None
}

/// A line is printed, and then the task channel is closed.
pub open spec fn says_and_closes(effects: Effects<Seq<char>>, text: Seq<char>) -> bool {
    &&& effects.notice == Some(text)
    &&& effects.close
    &&& effects.farewell is None
}

/// A new producer has handed nothing out and opens its input file.
pub proof fn law_beginning(input_file: Seq<char>, concurrent: usize)
    ensures
        ({
            let producer = Producer::<Seq<char>>::initial(input_file, concurrent);
            &&& producer.input_file == input_file
            &&& producer.concurrent == concurrent
            &&& producer.dispatched == 0
            &&& producer.phase is Opening
            &&& producer.pending() == (Action::OpenInput { path: input_file })
            &&& producer.wf() <==> concurrent >= 1
        }),
{
}

/// What is to be done for the producer at each point. A pause is always a whole second, however
/// many tasks a second allows.
pub proof fn law_what_is_done_next(producer: Producer<Seq<char>>)
    ensures
        producer.phase is Opening ==> producer.pending() == (Action::OpenInput {
            path: producer.input_file,
        }),
        producer.phase is Draining <==> producer.pending() is TakeReturned,
        producer.phase matches Phase::Resending { task } ==> producer.pending() == (Action::Send {
            task,
        }),
        producer.phase is Reading <==> producer.pending() is ReadLine,
        producer.phase matches Phase::Sending { task } ==> producer.pending() == (Action::Send {
            task,
        }),
        producer.phase is Pausing ==> producer.pending() == (Action::<Seq<char>>::Pause {
            millis: 1000,
        }),
        producer.pending() is Pause ==> producer.phase is Pausing,
        producer.phase is Finished <==> producer.pending() is Finish,
        producer.wf() <==> producer.concurrent >= 1,
{
}

/// An open input file is worked through, after the tasks that came back. Without one the producer
/// says why, closes the task channel and ends.
pub proof fn law_opening(producer: Producer<Seq<char>>, error: Seq<char>)
    requires
        producer.phase is Opening,
    ensures
        ({
            let (after, effects) = producer.next(Event::Opened { outcome: Ok(()) });
            &&& only_moves(producer, after)
            &&& after.pending() is TakeReturned
            &&& silent(effects)
        }),
        ({
            let (after, effects) = producer.next(Event::Opened { outcome: Err(error) });
            &&& only_moves(producer, after)
            &&& after.pending() is Finish
            &&& effects.notice == Some(
                "Failed to open file '"@ + producer.input_file + "': "@ + error,
            )
            &&& effects.close
            &&& effects.farewell == Some("Producer is done."@)
        }),
{
}

/// A task that came back is handed out; when there is none, the next line is read.
pub proof fn law_tasks_that_came_back(producer: Producer<Seq<char>>, task: Seq<char>)
    requires
        producer.phase is Draining,
    ensures
        ({
            let (after, effects) = producer.next(Event::Returned { task: Some(task) });
            &&& only_moves(producer, after)
            &&& after.phase == (Phase::Resending { task })
            &&& after.pending() == (Action::Send { task })
            &&& silent(effects)
        }),
        ({
            let (after, effects) = producer.next(Event::Returned { task: None });
            &&& only_moves(producer, after)
            &&& after.pending() is ReadLine
            &&& silent(effects)
        }),
{
}

/// Every line is a task, just as it was read. At the end of the file the producer closes the task
/// channel and ends. After a line that cannot be read it closes the channel and goes on.
pub proof fn law_lines(producer: Producer<Seq<char>>, line: Seq<char>, error: Seq<char>)
    requires
        producer.phase is Reading,
    ensures
        ({
            let (after, effects) = producer.next(Event::LineRead { line: Ok(Some(line)) });
            &&& only_moves(producer, after)
            &&& after.phase == (Phase::Sending { task: line })
            &&& after.pending() == (Action::Send { task: line })
            &&& silent(effects)
        }),
        ({
            let (after, effects) = producer.next(Event::LineRead { line: Ok(None) });
            &&& only_moves(producer, after)
            &&& after.pending() is Finish
            &&& says_and_closes(effects, "Producer is done."@)
        }),
        ({
            let (after, effects) = producer.next(Event::LineRead { line: Err(error) });
            &&& only_moves(producer, after)
            &&& after.pending() is TakeReturned
            &&& says_and_closes(
                effects,
                "Failed to read line from file '"@ + producer.input_file + "': "@ + error,
            )
        }),
{
}

/// Each task that is handed out is counted. After one of the input file the producer waits where as
/// many are counted as a second allows, and a second's worth of them is struck off; after one that
/// came back it looks for the next.
pub proof fn law_tasks_that_went_out(producer: Producer<Seq<char>>)
    requires
        producer.phase is Resending || producer.phase is Sending,
        producer.dispatched < usize::MAX,
    ensures
        ({
            let (after, effects) = producer.next(Event::Sent { outcome: Ok(()) });
            let counted = producer.dispatched + 1;
            &&& after.input_file == producer.input_file
            &&& after.concurrent == producer.concurrent
            &&& silent(effects)
            &&& producer.phase is Resending || counted < producer.concurrent ==> {
                &&& after.pending() is TakeReturned
                &&& after.dispatched == counted
            }
            &&& producer.phase is Sending && counted >= producer.concurrent ==> {
                &&& after.phase is Pausing
                &&& after.dispatched == counted - producer.concurrent
            }
        }),
{
}

/// A task that cannot be handed out ends the producer, which closes the task channel.
pub proof fn law_tasks_that_stay(producer: Producer<Seq<char>>, error: Seq<char>)
    requires
        producer.phase is Resending || producer.phase is Sending,
    ensures
        ({
            let (after, effects) = producer.next(Event::Sent { outcome: Err(error) });
            &&& only_moves(producer, after)
            &&& after.pending() is Finish
            &&& says_and_closes(effects, "Failed to send task "@ + error)
        }),
{
}

/// After a second the producer waits for another one while a second's worth of tasks is counted.
pub proof fn law_after_a_pause(producer: Producer<Seq<char>>)
    requires
        producer.phase is Pausing,
    ensures
        ({
            let (after, effects) = producer.next(Event::Paused);
            &&& after.input_file == producer.input_file
            &&& after.concurrent == producer.concurrent
            &&& silent(effects)
            &&& producer.dispatched < producer.concurrent ==> {
                &&& after.pending() is TakeReturned
                &&& after.dispatched == producer.dispatched
            }
            &&& producer.dispatched >= producer.concurrent ==> {
                &&& after.phase is Pausing
                &&& after.dispatched == producer.dispatched - producer.concurrent
            }
        }),
{
}

/// Whether an event answers what is to be done.
pub open spec fn answers(action: Action<Seq<char>>, event: Event<Seq<char>>) -> bool {
    match action {
        Action::OpenInput { .. } => event is Opened,
        Action::TakeReturned => event is Returned,
        Action::Send { .. } => event is Sent,
        Action::ReadLine => event is LineRead,
        Action::Pause { .. } => event is Paused,
        Action::Finish => false,
    }
}

/// An event that does not answer what is to be done changes nothing.
pub proof fn law_stray_events(producer: Producer<Seq<char>>, event: Event<Seq<char>>)
    requires
        !answers(producer.pending(), event),
    ensures
        producer.next(event).0 == producer,
        silent(producer.next(event).1),
{
}

/// Every event can be taken, but for one more task where no more can be counted.
pub proof fn law_what_can_be_taken(producer: Producer<Seq<char>>, event: Event<Seq<char>>)
    ensures
        !producer.takes(event) <==> {
            &&& producer.phase is Resending || producer.phase is Sending
            &&& event is Sent
            &&& event->Sent_outcome is Ok
            &&& producer.dispatched == usize::MAX
        },
{
}

/// The producer ends where its file cannot be opened, where a task cannot be handed out and at the
/// end of its file, and nowhere else.
pub proof fn law_when_the_producer_ends(producer: Producer<Seq<char>>, event: Event<Seq<char>>)
    requires
        !(producer.phase is Finished),
    ensures
        producer.next(event).0.phase is Finished <==> {
            ||| producer.phase is Opening && event is Opened && event->Opened_outcome is Err
            ||| (producer.phase is Resending || producer.phase is Sending) && event is Sent
                && event->Sent_outcome is Err
            ||| producer.phase is Reading && event is LineRead && event->line is Ok
                && event->line->Ok_0 is None
        },
{
}

/// How many milliseconds the producer has waited.
pub open spec fn waited(producer: Producer<Seq<char>>, events: Seq<Event<Seq<char>>>) -> nat
    decreases events.len(),
{
    if events.len() == 0 {
        0
    } else {
        let before = waited(producer, events.drop_last());
        match (run(producer, events.drop_last()).pending(), events.last()) {
            (Action::Pause { millis }, Event::Paused) => before + millis as nat,
            _ => before,
        }
    }
}

/// Whether the producer is waiting, as a number.
pub open spec fn waiting(producer: Producer<Seq<char>>) -> nat {
    if producer.pending() is Pause {
        1
    } else {
        0
    }
}

/// Each pause is a second: the time that the producer has waited is a thousand milliseconds for
/// every pause that is over.
pub proof fn law_each_pause_is_a_second(
    producer: Producer<Seq<char>>,
    events: Seq<Event<Seq<char>>>,
)
    ensures
        waited(producer, events) + 1000 * waiting(run(producer, events)) == 1000 * (pause_count(
            producer,
            events,
        ) + waiting(producer)),
    decreases events.len(),
{
    if events.len() > 0 {
        law_each_pause_is_a_second(producer, events.drop_last());
    }
}

/// The speed that was asked for is kept in time: from its beginning the producer hands out fewer
/// tasks than `concurrent` for every second that it has waited or that has begun, with as many more
/// as came back. It never waits longer than the tasks that it handed out ask for.
pub proof fn law_tasks_per_second(
    input_file: Seq<char>,
    concurrent: usize,
    events: Seq<Event<Seq<char>>>,
)
    requires
        concurrent > 0,
        takes_all(Producer::<Seq<char>>::initial(input_file, concurrent), events),
    ensures
        ({
            let start = Producer::<Seq<char>>::initial(input_file, concurrent);
            let sent = handed_out(start, events).len();
            let begun = waiting(run(start, events));
            &&& 1000 * sent < concurrent * (waited(start, events) + 1000 * begun + 1000) + 1000
                * returned_count(start, events)
            &&& concurrent * waited(start, events) <= 1000 * sent
        }),
{
    let start = Producer::<Seq<char>>::initial(input_file, concurrent);
    law_speed_is_kept(start, events);
    law_pauses_match_tasks(start, events);
    law_each_pause_is_a_second(start, events);
    lemma_settings_stay(start, events);
    let n = pause_count(start, events) as int;
    let begun = waiting(run(start, events)) as int;
    let w = waited(start, events) as int;
    let c = concurrent as int;
    assert(w + 1000 * begun == 1000 * n);
    assert(c * (w + 1000 * begun + 1000) == 1000 * (c * (n + 1))) by (nonlinear_arith)
        requires
            w + 1000 * begun == 1000 * n,
    ;
    assert(c * w <= 1000 * (c * n)) by (nonlinear_arith)
        requires
            w <= 1000 * n,
            c >= 0,
    ;
}

} // verus!
