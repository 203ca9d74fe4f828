//! What holds of the producer over any number of events.

use vstd::prelude::*;

use crate::producer::{Event, Phase, Producer};

verus! {

/// The producer after a sequence of events.
pub open spec fn run(
    producer: Producer<Seq<char>>,
    events: Seq<Event<Seq<char>>>,
) -> Producer<Seq<char>>
    decreases events.len(),
{
    if events.len() == 0 {
        producer
    } else {
        run(producer, events.drop_last()).next(events.last()).0
    }
}

/// Whether each event of a sequence can be taken.
pub open spec fn takes_all(producer: Producer<Seq<char>>, events: Seq<Event<Seq<char>>>) -> bool
    decreases events.len(),
{
    events.len() > 0 ==> {
        &&& takes_all(producer, events.drop_last())
        &&& run(producer, events.drop_last()).takes(events.last())
    }
}

/// The task in the producer's hands.
pub open spec fn in_hand(producer: Producer<Seq<char>>) -> Seq<Seq<char>> {
    match producer.phase {
        Phase::Resending { task } => seq![task],
        Phase::Sending { task } => seq![task],
        _ => Seq::empty(),
    }
}

/// A task goes into the task channel.
pub open spec fn sends(producer: Producer<Seq<char>>, event: Event<Seq<char>>) -> bool {
    (producer.phase is Resending || producer.phase is Sending) && event is Sent
        && event->Sent_outcome is Ok
}

/// A task that a worker gave back comes to the producer.
pub open spec fn takes_back(producer: Producer<Seq<char>>, event: Event<Seq<char>>) -> bool {
    producer.phase is Draining && event is Returned && event->Returned_task is Some
}

/// An id of the input file comes to the producer.
pub open spec fn reads_id(producer: Producer<Seq<char>>, event: Event<Seq<char>>) -> bool {
    producer.phase is Reading && event is LineRead && event->line is Ok && event->line->Ok_0 is Some
}

/// The producer begins a pause.
pub open spec fn pauses(producer: Producer<Seq<char>>, event: Event<Seq<char>>) -> bool {
    &&& producer.next(event).0.phase is Pausing
    &&& sends(producer, event) || producer.phase is Pausing && event is Paused
}

/// The tasks that came to the producer, in order.
pub open spec fn obtained(
    producer: Producer<Seq<char>>,
    events: Seq<Event<Seq<char>>>,
) -> Seq<Seq<char>>
    decreases events.len(),
{
    if events.len() == 0 {
        Seq::empty()
    } else {
        let before = obtained(producer, events.drop_last());
        let at = run(producer, events.drop_last());
        let event = events.last();
        if takes_back(at, event) {
            before.push(event->Returned_task->0)
        } else if reads_id(at, event) {
            before.push(event->line->Ok_0->0)
        } else {
            before
        }
    }
}

/// The tasks that went into the task channel, in order.
pub open spec fn handed_out(
    producer: Producer<Seq<char>>,
    events: Seq<Event<Seq<char>>>,
) -> Seq<Seq<char>>
    decreases events.len(),
{
    if events.len() == 0 {
        Seq::empty()
    } else {
        let before = handed_out(producer, events.drop_last());
        let at = run(producer, events.drop_last());
        if sends(at, events.last()) {
            before + in_hand(at)
        } else {
            before
        }
    }
}

/// How many pauses began.
pub open spec fn pause_count(
    producer: Producer<Seq<char>>,
    events: Seq<Event<Seq<char>>>,
) -> nat
    decreases events.len(),
{
    if events.len() == 0 {
        0
    } else {
        let before = pause_count(producer, events.drop_last());
        if pauses(run(producer, events.drop_last()), events.last()) {
            before + 1
        } else {
            before
        }
    }
}

/// How many tasks came back to the producer.
pub open spec fn returned_count(
    producer: Producer<Seq<char>>,
    events: Seq<Event<Seq<char>>>,
) -> nat
    decreases events.len(),
{
    if events.len() == 0 {
        0
    } else {
        let before = returned_count(producer, events.drop_last());
        if takes_back(run(producer, events.drop_last()), events.last()) {
            before + 1
        } else {
            before
        }
    }
}

/// The file and the speed stay what they are.
pub proof fn lemma_settings_stay(producer: Producer<Seq<char>>, events: Seq<Event<Seq<char>>>)
    ensures
        run(producer, events).concurrent == producer.concurrent,
        run(producer, events).input_file == producer.input_file,
    decreases events.len(),
{
    if events.len() > 0 {
        lemma_settings_stay(producer, events.drop_last());
    }
}

/// Pauses are kept account of exactly: the tasks that went out are those of whole seconds that
/// were paused for, and those that are still to be paused for.
pub proof fn law_pauses_match_tasks(producer: Producer<Seq<char>>, events: Seq<Event<Seq<char>>>)
    requires
        takes_all(producer, events),
    ensures
        producer.dispatched + handed_out(producer, events).len() == producer.concurrent
            * pause_count(producer, events) + run(producer, events).dispatched,
    decreases events.len(),
{
    if events.len() > 0 {
        let earlier = events.drop_last();
        law_pauses_match_tasks(producer, earlier);
        lemma_settings_stay(producer, earlier);
        let n = pause_count(producer, earlier);
        let c = producer.concurrent;
        assert(c * (n + 1) == c * n + c) by (nonlinear_arith);
    } else {
        assert(producer.concurrent * 0 == 0);
    }
}

/// No more tasks go out before a pause than a second allows, but for those that came back: the
/// tasks that no pause has paid for are fewer than a second allows and came back together, and so
/// all tasks fit into the seconds begun with as many more as came back.
pub proof fn law_speed_is_kept(producer: Producer<Seq<char>>, events: Seq<Event<Seq<char>>>)
    requires
        producer.wf(),
        takes_all(producer, events),
        producer.dispatched < producer.concurrent,
        !(producer.phase is Resending),
    ensures
        run(producer, events).dispatched < producer.concurrent + returned_count(producer, events),
        run(producer, events).phase is Resending ==> run(producer, events).dispatched + 1
            < producer.concurrent + returned_count(producer, events),
        producer.dispatched == 0 ==> handed_out(producer, events).len() < producer.concurrent * (
        pause_count(producer, events) + 1) + returned_count(producer, events),
    decreases events.len(),
{
    law_pauses_match_tasks(producer, events);
    let n = pause_count(producer, events);
    let c = producer.concurrent;
    assert(c * (n + 1) == c * n + c) by (nonlinear_arith);
    if events.len() > 0 {
        let earlier = events.drop_last();
        law_speed_is_kept(producer, earlier);
        lemma_settings_stay(producer, earlier);
    }
}

/// The producer goes back to the tasks that were given back only when every second is paused for.
pub proof fn law_seconds_are_paused_for(producer: Producer<Seq<char>>, event: Event<Seq<char>>)
    requires
        producer.wf(),
        producer.phase is Sending || producer.phase is Pausing,
        producer.next(event).0.phase is Draining,
    ensures
        producer.next(event).0.dispatched < producer.concurrent,
{
}

/// Every task that comes to the producer goes out, in the order in which it came. One may be on
/// its way, and one that could not be sent ends the producer.
pub proof fn law_tasks_keep_their_order(
    producer: Producer<Seq<char>>,
    events: Seq<Event<Seq<char>>>,
)
    requires
        in_hand(producer).len() == 0,
    ensures
        handed_out(producer, events).is_prefix_of(obtained(producer, events)),
        obtained(producer, events).len() <= handed_out(producer, events).len() + 1,
        !(run(producer, events).phase is Finished) ==> obtained(producer, events) == handed_out(
            producer,
            events,
        ) + in_hand(run(producer, events)),
    decreases events.len(),
{
    if events.len() > 0 {
        law_tasks_keep_their_order(producer, events.drop_last());
    }
}

/// Tasks that were given back go out before the next id is read: the producer reads only after it
/// has found no such task.
pub proof fn law_returned_tasks_come_first(producer: Producer<Seq<char>>, event: Event<Seq<char>>)
    requires
        !(producer.phase is Reading),
        producer.next(event).0.phase is Reading,
    ensures
        producer.phase is Draining,
        event is Returned,
        event->Returned_task is None,
{
}

/// When the producer ends, it closes the task channel and says why, and it stays at its end.
pub proof fn law_end_closes_the_channel(producer: Producer<Seq<char>>, event: Event<Seq<char>>)
    ensures
        !(producer.phase is Finished) && producer.next(event).0.phase is Finished ==> {
            &&& producer.next(event).1.close
            &&& producer.next(event).1.notice is Some
        },
        producer.phase is Finished ==> producer.next(event).0 == producer,
{
}

} // verus!
