//! What the collector does at each step, for every result and every outcome.

use vstd::prelude::*;

use crate::collector::{farewell_text, Action, Collector, Event};
use crate::collector_laws::{in_step, run};
use crate::results::{record_text, resumed, Progress, Stage, LINE_FEED};
use crate::text::ends_line;

verus! {

/// A new collector waits for results.
pub proof fn law_beginning()
    ensures
        ({
            let collector = Collector::<Seq<char>>::initial();
            &&& collector.file.stage is Idle
            &&& !collector.closing
            &&& collector.action is Receive
        }),
{
}

/// A result is written just as it came; then a line feed is written where the result does not end
/// with one; then the next result is waited for. Nothing is printed.
pub proof fn law_a_result_is_written(collector: Collector<Seq<char>>, found: Seq<char>)
    requires
        collector.action is Receive,
    ensures
        ({
            let done = Event::<Seq<char>>::Done { outcome: Ok(()) };
            let (writing, nothing) = collector.next(Event::Received { found: Some(found) });
            let (after, still_nothing) = writing.next(done);
            let (last, nothing_at_last) = after.next(done);
            &&& writing.action == (Action::Write { text: found })
            &&& nothing is None
            &&& still_nothing is None
            &&& found.len() > 0 && found.last() == '\n' ==> after.action is Receive
            &&& found.len() == 0 || found.last() != '\n' ==> {
                &&& after.action == (Action::Write { text: "\n"@ })
                &&& last.action is Receive
                &&& nothing_at_last is None
            }
        }),
{
}

/// After the last result the file is flushed and shut down, and the collector says that it has
/// finished.
pub proof fn law_the_file_is_closed(collector: Collector<Seq<char>>)
    requires
        collector.action is Receive,
    ensures
        ({
            let done = Event::<Seq<char>>::Done { outcome: Ok(()) };
            let (flushing, nothing) = collector.next(Event::Received { found: None });
            let (shutting, still_nothing) = flushing.next(done);
            let (last, line) = shutting.next(done);
            &&& flushing.action is Flush
            &&& nothing is None
            &&& shutting.action is Shutdown
            &&& still_nothing is None
            &&& last.action is Stop
            &&& line == Some("Finished writing results"@)
        }),
{
}

/// A write that fails ends the collector, which says why.
pub proof fn law_failed_write(collector: Collector<Seq<char>>, error: Seq<char>)
    requires
        collector.action is Write,
        in_step(collector),
    ensures
        ({
            let (last, line) = collector.next(Event::Done { outcome: Err(error) });
            &&& last.action is Stop
            &&& line == Some("Failed to write result to results file: "@ + error)
        }),
{
}

/// Closing that fails ends the collector too: it says why, and then that it has finished.
pub proof fn law_failed_close(collector: Collector<Seq<char>>, error: Seq<char>)
    requires
        collector.action is Flush || collector.action is Shutdown,
        in_step(collector),
    ensures
        ({
            let (last, line) = collector.next(Event::Done { outcome: Err(error) });
            &&& last.action is Stop
            &&& line == Some(
                "Failed to close results file after being done: "@ + error + "\n"@
                    + "Finished writing results"@,
            )
        }),
{
}

/// An event that does not answer what is to be done changes nothing.
pub proof fn law_stray_events(collector: Collector<Seq<char>>, event: Event<Seq<char>>)
    requires
        match collector.action {
            Action::Receive => event is Done,
            Action::Write { .. } | Action::Flush | Action::Shutdown => event is Received,
            Action::Stop => true,
        },
    ensures
        collector.next(event).0 == collector,
        collector.next(event).1 is None,
{
}

/// A collector that writes has begun with a result, and one that closes the file with the end of
/// the results: what it is at never changes by itself.
pub proof fn law_what_is_under_way(events: Seq<Event<Seq<char>>>)
    ensures
        ({
            let after = run(Collector::<Seq<char>>::initial(), events);
            &&& after.action is Receive || after.action is Write ==> !after.closing
            &&& after.action is Flush || after.action is Shutdown ==> after.closing
            &&& after.action is Write && after.file.stage is LineFeed ==> after.action == (
            Action::Write { text: "\n"@ })
        }),
    decreases events.len(),
{
    if events.len() > 0 {
        law_what_is_under_way(events.drop_last());
        crate::collector_laws::law_stage_fits_action(events.drop_last());
    }
}

/// What comes after each operation on the file that worked.
pub proof fn law_file_goes_on(line_feed: bool)
    ensures
        ({
            let (stage, progress) = resumed(Stage::Body { line_feed }, Ok(()));
            &&& line_feed ==> stage is LineFeed && progress == (Progress::Write { text: "\n"@ })
            &&& !line_feed ==> stage is Idle && progress == (Progress::<Seq<char>>::Done {
                ok: true,
                notice: None,
            })
        }),
        resumed(Stage::LineFeed, Ok(())) == (
            Stage::Idle,
            Progress::<Seq<char>>::Done { ok: true, notice: None },
        ),
        resumed(Stage::Flushing, Ok(())) == (Stage::ShuttingDown, Progress::<Seq<char>>::Shutdown),
        resumed(Stage::ShuttingDown, Ok(())) == (
            Stage::Idle,
            Progress::<Seq<char>>::Done { ok: true, notice: None },
        ),
        forall|outcome: Result<(), Seq<char>>| #[trigger]
            resumed(Stage::Idle, outcome) == (
                Stage::Idle,
                Progress::<Seq<char>>::Done { ok: true, notice: None },
            ),
{
}

/// Every operation on the file that failed is the last one, and the reason is named: whether a
/// result was written or the file was closed.
pub proof fn law_file_fails(line_feed: bool, error: Seq<char>)
    ensures
        ({
            let notice = Some("Failed to write result to results file: "@ + error);
            &&& resumed(Stage::Body { line_feed }, Err(error)) == (
                Stage::Idle,
                Progress::Done { ok: false, notice },
            )
            &&& resumed(Stage::LineFeed, Err(error)) == (
                Stage::Idle,
                Progress::Done { ok: false, notice },
            )
        }),
        ({
            let notice = Some("Failed to close results file after being done: "@ + error);
            &&& resumed(Stage::Flushing, Err(error)) == (
                Stage::Idle,
                Progress::Done { ok: false, notice },
            )
            &&& resumed(Stage::ShuttingDown, Err(error)) == (
                Stage::Idle,
                Progress::Done { ok: false, notice },
            )
        }),
{
}

/// A result without a line feed at its end gets one in the file, and one with it stays as it is.
pub proof fn law_records(line: Seq<char>, found: Seq<char>)
    ensures
        record_text(line.push('\n')) == line.push('\n'),
        found.len() == 0 || found.last() != '\n' ==> record_text(found) == found.push('\n'),
        ends_line(found) <==> found.len() > 0 && found.last() == '\n',
        LINE_FEED@ == "\n"@,
        farewell_text(None) == "Finished writing results"@,
        farewell_text(Some(line)) == line + "\n"@ + "Finished writing results"@,
{
}

} // verus!
