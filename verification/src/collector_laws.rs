//! What holds of the results file over any number of events.

use vstd::prelude::*;
use vstd::utf8::encode_utf8;

use crate::collector::{Action, Collector, Event};
use crate::proxy_laws::{lemma_split_last, lemma_split_whole};
use crate::results::{record_text, Stage, LINE_FEED};
use crate::text::{ends_line, split_text};

verus! {

/// The collector after a sequence of events.
pub open spec fn run(
    collector: Collector<Seq<char>>,
    events: Seq<Event<Seq<char>>>,
) -> Collector<Seq<char>>
    decreases events.len(),
{
    if events.len() == 0 {
        collector
    } else {
        run(collector, events.drop_last()).next(events.last()).0
    }
}

/// The results that came to the collector, in order.
pub open spec fn received(
    collector: Collector<Seq<char>>,
    events: Seq<Event<Seq<char>>>,
) -> Seq<Seq<char>>
    decreases events.len(),
{
    if events.len() == 0 {
        Seq::empty()
    } else {
        let before = received(collector, events.drop_last());
        let at = run(collector, events.drop_last());
        match (at.action, events.last()) {
            (Action::Receive, Event::Received { found: Some(found) }) => before.push(found),
            _ => before,
        }
    }
}

/// The text of the writes that worked, one after the other.
pub open spec fn appended(
    collector: Collector<Seq<char>>,
    events: Seq<Event<Seq<char>>>,
) -> Seq<char>
    decreases events.len(),
{
    if events.len() == 0 {
        Seq::empty()
    } else {
        let before = appended(collector, events.drop_last());
        let at = run(collector, events.drop_last());
        match (at.action, events.last()) {
            (Action::Write { text }, Event::Done { outcome: Ok(_) }) => before + text,
            _ => before,
        }
    }
}

/// Whether every operation on the file worked.
pub open spec fn untroubled(events: Seq<Event<Seq<char>>>) -> bool {
    forall|i: int|
        0 <= i < events.len() && #[trigger] events[i] is Done ==> events[i]->outcome is Ok
}

/// The records of some results, one after the other.
pub open spec fn records(found: Seq<Seq<char>>) -> Seq<char>
    decreases found.len(),
{
    if found.len() == 0 {
        Seq::empty()
    } else {
        records(found.drop_last()) + record_text(found.last())
    }
}

/// What of the last result is still to be written.
pub open spec fn outstanding(collector: Collector<Seq<char>>) -> Seq<char> {
    match collector.action {
        Action::Write { text } => if collector.file.stage == (Stage::Body { line_feed: true }) {
            text + LINE_FEED@
        } else {
            text
        },
        _ => Seq::empty(),
    }
}

/// The stage of the file is that of the pending action.
pub open spec fn in_step(collector: Collector<Seq<char>>) -> bool {
    match collector.action {
        Action::Receive => collector.file.stage is Idle && !collector.closing,
        Action::Write { text } => {
            &&& !collector.closing
            &&& collector.file.stage is Body || collector.file.stage is LineFeed
        },
        Action::Flush => collector.file.stage is Flushing && collector.closing,
        Action::Shutdown => collector.file.stage is ShuttingDown && collector.closing,
        Action::Stop => true,
    }
}

/// The file and the pending action never get out of step.
pub proof fn law_stage_fits_action(events: Seq<Event<Seq<char>>>)
    ensures
        in_step(run(Collector::<Seq<char>>::initial(), events)),
    decreases events.len(),
{
    if events.len() > 0 {
        law_stage_fits_action(events.drop_last());
    }
}

/// The file gets the records of the results that came, in their order and nothing else. What is
/// missing is what is still to be written of the last one, until a failed write stops the
/// collector; a collector that has come to closing the file has written everything, and no write
/// failed where every operation worked.
pub proof fn law_file_holds_the_records(events: Seq<Event<Seq<char>>>)
    ensures
        ({
            let start = Collector::<Seq<char>>::initial();
            let after = run(start, events);
            &&& appended(start, events).is_prefix_of(records(received(start, events)))
            &&& !(after.action is Stop) || after.closing || untroubled(events) ==> appended(
                start,
                events,
            ) + outstanding(after) == records(received(start, events))
        }),
    decreases events.len(),
{
    let start = Collector::<Seq<char>>::initial();
    if events.len() > 0 {
        let earlier = events.drop_last();
        if untroubled(events) {
            assert forall|i: int|
                0 <= i < earlier.len() && #[trigger] earlier[i] is Done implies earlier[i]->outcome
                is Ok by {
                assert(earlier[i] == events[i]);
            }
        }
        law_file_holds_the_records(earlier);
        law_stage_fits_action(earlier);
        reveal_strlit("\n");
        assert(LINE_FEED@ == seq!['\n']);
        let at = run(start, earlier);
        let event = events.last();
        assert(event == events[events.len() - 1]);
        if let Event::Received { found: Some(found) } = event {
            if at.action is Receive {
                let now = received(start, events);
                assert(now.drop_last() == received(start, earlier));
                assert(found.push('\n') == found + LINE_FEED@);
                assert(outstanding(at) == Seq::<char>::empty());
                assert(outstanding(run(start, events)) == record_text(found));
                assert(records(now) == records(received(start, earlier)) + record_text(found));
            }
        }
        if let Event::Done { outcome: Ok(_) } = event {
            if let Action::Write { text } = at.action {
                assert(appended(start, events) == appended(start, earlier) + text);
                assert(outstanding(at) == text + outstanding(run(start, events)));
            }
        }
        let after = run(start, events);
        if !(after.action is Stop) || after.closing || untroubled(events) {
            assert(appended(start, events) + outstanding(after) == records(
                received(start, events),
            ));
        }
    }
}

/// The bytes of two texts together are the bytes of the one and then those of the other.
pub proof fn lemma_bytes_of_joined(a: Seq<char>, b: Seq<char>)
    ensures
        encode_utf8(a + b) == encode_utf8(a) + encode_utf8(b),
    decreases a.len(),
{
    if a.len() == 0 {
        assert(a + b == b);
        assert(encode_utf8(a) + encode_utf8(b) == encode_utf8(b));
    } else {
        lemma_bytes_of_joined(a.drop_first(), b);
        assert((a + b).drop_first() == a.drop_first() + b);
        assert((a + b)[0] == a[0]);
        assert(encode_utf8(a + b) == encode_utf8(a) + encode_utf8(b));
    }
}

/// Even a write that fails leaves the file with the start of the records: whatever part of the
/// pending text went into the file, counted in characters or in bytes, what the file got is a
/// prefix of the records. After a failed write nothing more is written.
pub proof fn law_partial_write_keeps_the_start(
    events: Seq<Event<Seq<char>>>,
    k: int,
    error: Seq<char>,
    later: Event<Seq<char>>,
)
    requires
        run(Collector::<Seq<char>>::initial(), events).action is Write,
    ensures
        ({
            let start = Collector::<Seq<char>>::initial();
            let at = run(start, events);
            let text = at.action->text;
            let before = appended(start, events);
            let whole = records(received(start, events));
            let stopped = at.next(Event::Done { outcome: Err(error) }).0;
            &&& 0 <= k <= text.len() ==> (before + text.take(k)).is_prefix_of(whole)
            &&& 0 <= k <= encode_utf8(text).len() ==> (encode_utf8(before) + encode_utf8(text).take(
                k,
            )).is_prefix_of(encode_utf8(whole))
            &&& stopped.action is Stop
            &&& stopped.next(later).0 == stopped
        }),
{
    let start = Collector::<Seq<char>>::initial();
    let at = run(start, events);
    let text = at.action->text;
    let before = appended(start, events);
    let whole = records(received(start, events));
    law_file_holds_the_records(events);
    law_stage_fits_action(events);
    let rest = if at.file.stage == (Stage::Body { line_feed: true }) {
        LINE_FEED@
    } else {
        Seq::empty()
    };
    assert(outstanding(at) == text + rest);
    lemma_bytes_of_joined(before, text + rest);
    lemma_bytes_of_joined(text, rest);
}

/// A record is the result, with a line feed after it where it does not end with one.
pub proof fn law_record_ends_its_line(found: Seq<char>)
    ensures
        ends_line(record_text(found)),
        found.is_prefix_of(record_text(found)),
        record_text(record_text(found)) == record_text(found),
{
}

/// The lines of the file are the results: a file with the records of results that hold no line
/// feed splits into these results, and nothing follows the last line feed.
pub proof fn law_lines_are_the_results(found: Seq<Seq<char>>)
    requires
        forall|i: int| 0 <= i < found.len() ==> !(#[trigger] found[i]).contains('\n'),
    ensures
        split_text(records(found), '\n') == found.push(Seq::<char>::empty()),
    decreases found.len(),
{
    let empty = Seq::<char>::empty();
    if found.len() == 0 {
        lemma_split_whole(empty, '\n');
        assert(seq![empty] == found.push(empty));
    } else {
        let earlier = found.drop_last();
        let last = found.last();
        assert forall|i: int| 0 <= i < earlier.len() implies !(#[trigger] earlier[i]).contains(
            '\n',
        ) by {
            assert(earlier[i] == found[i]);
        }
        law_lines_are_the_results(earlier);
        assert(last == found[found.len() - 1]);
        assert(!ends_line(last)) by {
            if ends_line(last) {
                assert(last.contains(last.last()));
            }
        }
        let before = records(earlier);
        lemma_split_extend(before, '\n', last);
        let body = before + last;
        assert(records(found) == body.push('\n') + empty);
        lemma_split_last(body, '\n', empty);
        let pieces = split_text(before, '\n');
        assert(pieces.drop_last() == earlier);
        assert(pieces.last() + last == last);
        assert(split_text(body, '\n') == found);
    }
}

/// Text without separator goes to the last piece.
pub proof fn lemma_split_extend(s: Seq<char>, sep: char, tail: Seq<char>)
    requires
        !tail.contains(sep),
    ensures
        split_text(s + tail, sep) == split_text(s, sep).drop_last().push(
            split_text(s, sep).last() + tail,
        ),
        split_text(s, sep).len() > 0,
    decreases tail.len(),
{
    crate::proxy_laws::law_split_joins_back(s, sep);
    let pieces = split_text(s, sep);
    if tail.len() == 0 {
        assert(s + tail == s);
        assert(pieces.last() + tail == pieces.last());
        assert(pieces.drop_last().push(pieces.last()) == pieces);
    } else {
        let shorter = tail.drop_last();
        assert forall|k: int| 0 <= k < shorter.len() implies shorter[k] != sep by {
            assert(tail.contains(tail[k]));
        }
        lemma_split_extend(s, sep, shorter);
        assert((s + tail).drop_last() == s + shorter);
        assert(tail.contains(tail.last()));
        let before = split_text(s + shorter, sep);
        assert(before.drop_last() == pieces.drop_last());
        assert((pieces.last() + shorter).push(tail.last()) == pieces.last() + tail);
    }
}

/// A failed write ends the collector at once, without closing the file; a closed channel makes it
/// flush the file and shut it down, and it says so whatever came of it.
pub proof fn law_how_the_collector_ends(collector: Collector<Seq<char>>, error: Seq<char>)
    requires
        in_step(collector),
    ensures
        collector.action is Write ==> collector.next(Event::Done { outcome: Err(error) }).0.action
            is Stop,
        collector.action is Receive ==> collector.next(Event::Received { found: None }).0.action
            is Flush,
        collector.action is Flush ==> collector.next(Event::Done { outcome: Ok(()) }).0.action
            is Shutdown,
        collector.action is Shutdown ==> {
            &&& collector.next(Event::Done { outcome: Ok(()) }).0.action is Stop
            &&& collector.next(Event::Done { outcome: Ok(()) }).1 is Some
        },
        collector.action is Flush || collector.action is Shutdown ==> {
            &&& collector.next(Event::Done { outcome: Err(error) }).0.action is Stop
            &&& collector.next(Event::Done { outcome: Err(error) }).1 is Some
        },
{
}

} // verus!
