//! The producer: it hands the ids of the input file to the workers, no faster than asked for.
//!
//! The producer is a state machine like a worker: [`Producer::action`] says what is to be done
//! next, and [`Producer::step`] takes what came of it.

use vstd::prelude::*;

use crate::messages::{
    input_read_failed, input_read_failed_text, open_failed, open_failed_text, producer_done,
    producer_done_text, task_send_failed, task_send_failed_text,
};
use crate::text::{done_of, text_of};

verus! {

/// The pause after as many tasks as are asked for per second, in milliseconds.
pub const SECOND: u64 = 1000;

/// What the producer is at.
#[derive(Debug, PartialEq)]
pub enum Phase<S> {
    /// The input file is not open yet.
    Opening,
    /// It looks for tasks that workers gave back.
    Draining,
    /// It hands out a task that a worker gave back.
    Resending { task: S },
    /// It reads the next id.
    Reading,
    /// It hands out a task of the input file.
    Sending { task: S },
    /// It has handed out what a second allows.
    Pausing,
    /// It has come to its end.
    Finished,
}

/// The producer.
#[derive(Debug, PartialEq)]
pub struct Producer<S> {
    /// The path of the input file.
    pub input_file: S,
    /// How many tasks go out per second.
    pub concurrent: usize,
    /// How many tasks went out that no pause has paid for.
    pub dispatched: usize,
    /// What it is at.
    pub phase: Phase<S>,
}

/// What is to be done for the producer.
#[derive(Debug, PartialEq)]
pub enum Action<S> {
    /// Open the input file; answered by [`Event::Opened`].
    OpenInput { path: S },
    /// Look for a task in the requeue channel; answered by [`Event::Returned`].
    TakeReturned,
    /// Send a task into the task channel; answered by [`Event::Sent`].
    Send { task: S },
    /// Read a line of the input file; answered by [`Event::LineRead`].
    ReadLine,
    /// Wait; answered by [`Event::Paused`].
    Pause { millis: u64 },
    /// Nothing more.
    Finish,
}

/// What came of an action.
pub enum Event<S> {
    Opened { outcome: Result<(), S> },
    /// The next task that a worker gave back, if one is waiting.
    Returned { task: Option<S> },
    Sent { outcome: Result<(), S> },
    /// No line means that the file is at its end.
    LineRead { line: Result<Option<S>, S> },
    Paused,
}

/// What a step does besides changing the producer, in this order.
#[derive(Debug, PartialEq)]
pub struct Effects<S> {
    /// A line to print.
    pub notice: Option<S>,
    /// Whether to close the task channel.
    pub close: bool,
    /// A last line to print.
    pub farewell: Option<S>,
}

/// The contents of a line that was read.
pub open spec fn line_of(line: Result<Option<String>, String>) -> Result<
    Option<Seq<char>>,
    Seq<char>,
> {
    match line {
        Ok(line) => Ok(text_of(line)),
        Err(error) => Err(error@),
    }
}

impl View for Phase<String> {
    type V = Phase<Seq<char>>;

    open spec fn view(&self) -> Phase<Seq<char>> {
        match *self {
            Phase::Opening => Phase::Opening,
            Phase::Draining => Phase::Draining,
            Phase::Resending { task } => Phase::Resending { task: task@ },
            Phase::Reading => Phase::Reading,
            Phase::Sending { task } => Phase::Sending { task: task@ },
            Phase::Pausing => Phase::Pausing,
            Phase::Finished => Phase::Finished,
        }
    }
}

impl View for Producer<String> {
    type V = Producer<Seq<char>>;

    open spec fn view(&self) -> Producer<Seq<char>> {
        Producer {
            input_file: self.input_file@,
            concurrent: self.concurrent,
            dispatched: self.dispatched,
            phase: self.phase@,
        }
    }
}

impl View for Action<String> {
    type V = Action<Seq<char>>;

    open spec fn view(&self) -> Action<Seq<char>> {
        match *self {
            Action::OpenInput { path } => Action::OpenInput { path: path@ },
            Action::TakeReturned => Action::TakeReturned,
            Action::Send { task } => Action::Send { task: task@ },
            Action::ReadLine => Action::ReadLine,
            Action::Pause { millis } => Action::Pause { millis },
            Action::Finish => Action::Finish,
        }
    }
}

impl View for Event<String> {
    type V = Event<Seq<char>>;

    open spec fn view(&self) -> Event<Seq<char>> {
        match *self {
            Event::Opened { outcome } => Event::Opened { outcome: done_of(outcome) },
            Event::Returned { task } => Event::Returned { task: text_of(task) },
            Event::Sent { outcome } => Event::Sent { outcome: done_of(outcome) },
            Event::LineRead { line } => Event::LineRead { line: line_of(line) },
            Event::Paused => Event::Paused,
        }
    }
}

impl View for Effects<String> {
    type V = Effects<Seq<char>>;

    open spec fn view(&self) -> Effects<Seq<char>> {
        Effects {
            notice: text_of(self.notice),
            close: self.close,
            farewell: text_of(self.farewell),
        }
    }
}

impl Effects<Seq<char>> {
    /// No effect at all.
    pub open spec fn none() -> Self {
        Effects { notice: None, close: false, farewell: None }
    }

    /// A line to print, and then the task channel to close.
    pub open spec fn closing(text: Seq<char>) -> Self {
        Effects { notice: Some(text), close: true, farewell: None }
    }
}

/// What the producer does and how it changes.
impl Producer<Seq<char>> {
    /// A second allows at least one task.
    pub open spec fn wf(self) -> bool {
        self.concurrent > 0
    }

    /// The producer before it does anything.
    pub open spec fn initial(input_file: Seq<char>, concurrent: usize) -> Self {
        Producer { input_file, concurrent, dispatched: 0, phase: Phase::Opening }
    }

    /// The same producer at something else.
    pub open spec fn at(self, phase: Phase<Seq<char>>) -> Self {
        Producer { phase, ..self }
    }

    /// What is to be done for the producer now.
    pub open spec fn pending(self) -> Action<Seq<char>> {
        match self.phase {
            Phase::Opening => Action::OpenInput { path: self.input_file },
            Phase::Draining => Action::TakeReturned,
            Phase::Resending { task } => Action::Send { task },
            Phase::Reading => Action::ReadLine,
            Phase::Sending { task } => Action::Send { task },
            Phase::Pausing => Action::Pause { millis: SECOND },
            Phase::Finished => Action::Finish,
        }
    }

    /// The producer with one more task handed out.
    pub open spec fn counted(self) -> Self {
        Producer { dispatched: (self.dispatched + 1) as usize, ..self }
    }

    /// The producer pauses for the tasks of a second as often as it has handed out that many, and
    /// then goes on with the tasks that came back.
    pub open spec fn paced(self) -> Self {
        if self.dispatched >= self.concurrent {
            Producer {
                dispatched: (self.dispatched - self.concurrent) as usize,
                phase: Phase::Pausing,
                ..self
            }
        } else {
            self.at(Phase::Draining)
        }
    }

    /// A task could not be sent.
    pub open spec fn send_failed(self, error: Seq<char>) -> (Self, Effects<Seq<char>>) {
        (self.at(Phase::Finished), Effects::closing(task_send_failed_text(error)))
    }

    /// The producer after an event, and what the step does besides. An event that does not answer
    /// the pending action changes nothing.
    pub open spec fn next(self, event: Event<Seq<char>>) -> (Self, Effects<Seq<char>>) {
        match (self.phase, event) {
            (Phase::Opening, Event::Opened { outcome }) => match outcome {
                Ok(_) => (self.at(Phase::Draining), Effects::none()),
                Err(error) => (
                    self.at(Phase::Finished),
                    Effects {
                        notice: Some(open_failed_text(self.input_file, error)),
                        close: true,
                        farewell: Some(producer_done_text()),
                    },
                ),
            },
            (Phase::Draining, Event::Returned { task }) => match task {
                Some(task) => (self.at(Phase::Resending { task }), Effects::none()),
                None => (self.at(Phase::Reading), Effects::none()),
            },
            (Phase::Resending { .. }, Event::Sent { outcome }) => match outcome {
                Ok(_) => (self.counted().at(Phase::Draining), Effects::none()),
                Err(error) => self.send_failed(error),
            },
            (Phase::Reading, Event::LineRead { line }) => match line {
                Ok(line) => match line {
                    Some(line) => (self.at(Phase::Sending { task: line }), Effects::none()),
                    None => (self.at(Phase::Finished), Effects::closing(producer_done_text())),
                },
                Err(error) => (
                    self.at(Phase::Draining),
                    Effects::closing(input_read_failed_text(self.input_file, error)),
                ),
            },
            (Phase::Sending { .. }, Event::Sent { outcome }) => match outcome {
                Ok(_) => (self.counted().paced(), Effects::none()),
                Err(error) => self.send_failed(error),
            },
            (Phase::Pausing, Event::Paused) => (self.paced(), Effects::none()),
            _ => (self, Effects::none()),
        }
    }

    /// Whether an event can be taken: the tasks that no pause has paid for must stay countable.
    pub open spec fn takes(self, event: Event<Seq<char>>) -> bool {
        (self.phase is Resending || self.phase is Sending) && event is Sent
            && event->Sent_outcome is Ok ==> self.dispatched < usize::MAX
    }
}

/// No effect at all.
fn no_effects() -> (r: Effects<String>)
    ensures
        r@ == Effects::<Seq<char>>::none(),
{
    Effects { notice: None, close: false, farewell: None }
}

/// A line to print, and then the task channel to close.
fn closing(text: String) -> (r: Effects<String>)
    ensures
        r@ == Effects::<Seq<char>>::closing(text@),
{
    Effects { notice: Some(text), close: true, farewell: None }
}

impl Producer<String> {
    /// The producer before it does anything.
    pub fn new(input_file: String, concurrent: usize) -> (r: Producer<String>)
        requires
            concurrent > 0,
        ensures
            r@ == Producer::<Seq<char>>::initial(input_file@, concurrent),
            r@.wf(),
    {
        Producer { input_file, concurrent, dispatched: 0, phase: Phase::Opening }
    }

    /// What is to be done for the producer now.
    pub fn action(&self) -> (r: Action<String>)
        ensures
            r@ == self@.pending(),
    {
        match &self.phase {
            Phase::Opening => Action::OpenInput { path: self.input_file.clone() },
            Phase::Draining => Action::TakeReturned,
            Phase::Resending { task } => Action::Send { task: task.clone() },
            Phase::Reading => Action::ReadLine,
            Phase::Sending { task } => Action::Send { task: task.clone() },
            Phase::Pausing => Action::Pause { millis: SECOND },
            Phase::Finished => Action::Finish,
        }
    }

    /// The same producer at something else.
    fn moved(self, phase: Phase<String>) -> (r: Producer<String>)
        ensures
            r@ == self@.at(phase@),
    {
        Producer {
            input_file: self.input_file,
            concurrent: self.concurrent,
            dispatched: self.dispatched,
            phase,
        }
    }

    /// The producer with one more task handed out.
    fn count(self) -> (r: Producer<String>)
        requires
            self.dispatched < usize::MAX,
        ensures
            r@ == self@.counted(),
    {
        Producer {
            input_file: self.input_file,
            concurrent: self.concurrent,
            dispatched: self.dispatched + 1,
            phase: self.phase,
        }
    }

    /// Pauses where a pause is due.
    fn pace(self) -> (r: Producer<String>)
        ensures
            r@ == self@.paced(),
    {
        if self.dispatched >= self.concurrent {
            Producer {
                input_file: self.input_file,
                concurrent: self.concurrent,
                dispatched: self.dispatched - self.concurrent,
                phase: Phase::Pausing,
            }
        } else {
            self.moved(Phase::Draining)
        }
    }

    /// Whether [`Producer::step`] can take an event.
    pub fn accepts(&self, event: &Event<String>) -> (r: bool)
        ensures
            r == self@.takes(event@),
    {
        match (&self.phase, event) {
            (Phase::Resending { .. }, Event::Sent { outcome: Ok(_) }) => {
                self.dispatched < usize::MAX
            },
            (Phase::Sending { .. }, Event::Sent { outcome: Ok(_) }) => {
                self.dispatched < usize::MAX
            },
            _ => true,
        }
    }

    /// Takes what came of the pending action.
    pub fn step(self, event: Event<String>) -> (r: (Producer<String>, Effects<String>))
        requires
            self@.wf(),
            self@.takes(event@),
        ensures
            (r.0@, r.1@) == self@.next(event@),
            r.0@.wf(),
    {
        let Producer { input_file, concurrent, dispatched, phase } = self;
        match (phase, event) {
            (Phase::Opening, Event::Opened { outcome }) => match outcome {
                Ok(_) => (
                    Producer { input_file, concurrent, dispatched, phase: Phase::Draining },
                    no_effects(),
                ),
                Err(error) => {
                    let notice = open_failed(input_file.as_str(), error.as_str());
                    (
                        Producer { input_file, concurrent, dispatched, phase: Phase::Finished },
                        Effects {
                            notice: Some(notice),
                            close: true,
                            farewell: Some(producer_done()),
                        },
                    )
                },
            },
            (Phase::Draining, Event::Returned { task }) => {
                let phase = match task {
                    Some(task) => Phase::Resending { task },
                    None => Phase::Reading,
                };
                (Producer { input_file, concurrent, dispatched, phase }, no_effects())
            },
            (Phase::Resending { .. }, Event::Sent { outcome }) => {
                let idle = Producer { input_file, concurrent, dispatched, phase: Phase::Draining };
                match outcome {
                    Ok(_) => (idle.count(), no_effects()),
                    Err(error) => (
                        idle.moved(Phase::Finished),
                        closing(task_send_failed(error.as_str())),
                    ),
                }
            },
            (Phase::Reading, Event::LineRead { line }) => match line {
                Ok(Some(line)) => (
                    Producer {
                        input_file,
                        concurrent,
                        dispatched,
                        phase: Phase::Sending { task: line },
                    },
                    no_effects(),
                ),
                Ok(None) => (
                    Producer { input_file, concurrent, dispatched, phase: Phase::Finished },
                    closing(producer_done()),
                ),
                Err(error) => {
                    let notice = input_read_failed(input_file.as_str(), error.as_str());
                    (
                        Producer { input_file, concurrent, dispatched, phase: Phase::Draining },
                        closing(notice),
                    )
                },
            },
            (Phase::Sending { .. }, Event::Sent { outcome }) => {
                let idle = Producer { input_file, concurrent, dispatched, phase: Phase::Draining };
                match outcome {
                    Ok(_) => (idle.count().pace(), no_effects()),
                    Err(error) => (
                        idle.moved(Phase::Finished),
                        closing(task_send_failed(error.as_str())),
                    ),
                }
            },
            (Phase::Pausing, Event::Paused) => {
                let idle = Producer { input_file, concurrent, dispatched, phase: Phase::Pausing };
                (idle.pace(), no_effects())
            },
            (phase, _) => (
                Producer { input_file, concurrent, dispatched, phase },
                no_effects(),
            ),
        }
    }
}

} // verus!
