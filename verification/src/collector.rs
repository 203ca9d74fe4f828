//! The collector: it takes results from the workers and writes them to the results file.
//!
//! The collector is a state machine like a worker: its field `action` says what is to be done
//! next, and [`Collector::step`] takes what came of it.

use vstd::prelude::*;

use crate::messages::{results_finished, results_finished_text};
use crate::results::{resumed, Progress, ResultsFile, Stage};
use crate::text::{done_of, ends_line, text_of};

verus! {

/// What is to be done for the collector.
#[derive(Debug, PartialEq)]
pub enum Action<S> {
    /// Take a result from the channel; answered by [`Event::Received`].
    Receive,
    /// Write a text to the end of the file; answered by [`Event::Done`].
    Write { text: S },
    /// Flush what is buffered; answered by [`Event::Done`].
    Flush,
    /// Shut the file down; answered by [`Event::Done`].
    Shutdown,
    /// Nothing more.
    Stop,
}

/// What came of an action.
pub enum Event<S> {
    /// No result means that the channel is closed.
    Received { found: Option<S> },
    /// An operation on the file is over.
    Done { outcome: Result<(), S> },
}

/// The collector.
pub struct Collector<S> {
    /// The results file.
    pub file: ResultsFile,
    /// Whether the file is being closed.
    pub closing: bool,
    /// What is to be done.
    pub action: Action<S>,
}

impl View for Action<String> {
    type V = Action<Seq<char>>;

    open spec fn view(&self) -> Action<Seq<char>> {
        match *self {
            Action::Receive => Action::Receive,
            Action::Write { text } => Action::Write { text: text@ },
            Action::Flush => Action::Flush,
            Action::Shutdown => Action::Shutdown,
            Action::Stop => Action::Stop,
        }
    }
}

impl View for Event<String> {
    type V = Event<Seq<char>>;

    open spec fn view(&self) -> Event<Seq<char>> {
        match *self {
            Event::Received { found } => Event::Received { found: text_of(found) },
            Event::Done { outcome } => Event::Done { outcome: done_of(outcome) },
        }
    }
}

impl View for Collector<String> {
    type V = Collector<Seq<char>>;

    open spec fn view(&self) -> Collector<Seq<char>> {
        Collector { file: self.file, closing: self.closing, action: self.action@ }
    }
}

/// The last line of a collector that came to the end of the results, after a line that says why
/// the file could not be closed.
pub open spec fn farewell_text(notice: Option<Seq<char>>) -> Seq<char> {
    match notice {
        Some(notice) => notice + "\n"@ + results_finished_text(),
        None => results_finished_text(),
    }
}

/// How the collector changes.
impl Collector<Seq<char>> {
    /// The collector with an open file, before it does anything.
    pub open spec fn initial() -> Self {
        Collector {
            file: ResultsFile { stage: Stage::Idle },
            closing: false,
            action: Action::Receive,
        }
    }

    /// The collector goes on with its file. After a result it takes the next one, unless writing
    /// failed: then it leaves the file as it is.
    pub open spec fn continued(self, stage: Stage, progress: Progress<Seq<char>>) -> (
        Self,
        Option<Seq<char>>,
    ) {
        let file = ResultsFile { stage };
        match progress {
            Progress::Write { text } => (
                Collector { file, action: Action::Write { text }, ..self },
                None,
            ),
            Progress::Flush => (Collector { file, action: Action::Flush, ..self }, None),
            Progress::Shutdown => (Collector { file, action: Action::Shutdown, ..self }, None),
            Progress::Done { ok, notice } => if self.closing {
                (
                    Collector { file, action: Action::Stop, ..self },
                    Some(farewell_text(notice)),
                )
            } else if ok {
                (Collector { file, action: Action::Receive, ..self }, None)
            } else {
                (Collector { file, action: Action::Stop, ..self }, notice)
            },
        }
    }

    /// The collector after an event, and a line to print. An event that does not answer the
    /// pending action changes nothing.
    pub open spec fn next(self, event: Event<Seq<char>>) -> (Self, Option<Seq<char>>) {
        match (self.action, event) {
            (Action::Receive, Event::Received { found }) => match found {
                Some(found) => (
                    Collector {
                        file: ResultsFile { stage: Stage::Body { line_feed: !ends_line(found) } },
                        closing: false,
                        action: Action::Write { text: found },
                    },
                    None,
                ),
                None => (
                    Collector {
                        file: ResultsFile { stage: Stage::Flushing },
                        closing: true,
                        action: Action::Flush,
                    },
                    None,
                ),
            },
            (Action::Write { .. }, Event::Done { outcome })
            | (Action::Flush, Event::Done { outcome })
            | (Action::Shutdown, Event::Done { outcome }) => {
                let (stage, progress) = resumed(self.file.stage, outcome);
                self.continued(stage, progress)
            },
            _ => (self, None),
        }
    }
}

impl Collector<String> {
    /// The collector with an open file, before it does anything.
    pub fn new(file: ResultsFile) -> (r: Collector<String>)
        ensures
            r@ == (Collector::<Seq<char>> { file, closing: false, action: Action::Receive }),
    {
        Collector { file, closing: false, action: Action::Receive }
    }

    /// The action that carries a step of the file on.
    fn advance(self, progress: Progress<String>) -> (r: (Collector<String>, Option<String>))
        ensures
            (r.0@, text_of(r.1)) == self@.continued(self.file.stage, progress@),
    {
        let Collector { file, closing, action: _ } = self;
        match progress {
            Progress::Write { text } => (
                Collector { file, closing, action: Action::Write { text } },
                None,
            ),
            Progress::Flush => (Collector { file, closing, action: Action::Flush }, None),
            Progress::Shutdown => (Collector { file, closing, action: Action::Shutdown }, None),
            Progress::Done { ok, notice } => {
                if closing {
                    let last = match notice {
                        Some(notice) => notice.concat("\n").concat(results_finished().as_str()),
                        None => results_finished(),
                    };
                    (Collector { file, closing, action: Action::Stop }, Some(last))
                } else if ok {
                    (Collector { file, closing, action: Action::Receive }, None)
                } else {
                    (Collector { file, closing, action: Action::Stop }, notice)
                }
            },
        }
    }

    /// Takes what came of the pending action.
    pub fn step(self, event: Event<String>) -> (r: (Collector<String>, Option<String>))
        ensures
            (r.0@, text_of(r.1)) == self@.next(event@),
    {
        let Collector { mut file, closing, action } = self;
        match (action, event) {
            (Action::Receive, Event::Received { found }) => match found {
                Some(found) => {
                    let progress = file.write(found.as_str());
                    Collector { file, closing: false, action: Action::Receive }.advance(progress)
                },
                None => {
                    let progress = file.close();
                    Collector { file, closing: true, action: Action::Receive }.advance(progress)
                },
            },
            (Action::Write { .. }, Event::Done { outcome })
            | (Action::Flush, Event::Done { outcome })
            | (Action::Shutdown, Event::Done { outcome }) => {
                let progress = file.resume(outcome);
                Collector { file, closing, action: Action::Receive }.advance(progress)
            },
            (action, _) => (Collector { file, closing, action }, None),
        }
    }
}

} // verus!
