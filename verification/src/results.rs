//! The results file: every result ends with a line feed.
//!
//! [`ResultsFile`] says which operation on the open file comes next, and takes what came of it.

use vstd::prelude::*;

use crate::messages::{
    results_close_failed, results_close_failed_text, results_open_failed, results_open_failed_text,
    results_write_failed, results_write_failed_text,
};
use crate::text::{done_of, ends_line, ends_with_line_feed, text_of};

verus! {

/// What ends a result in the file.
pub const LINE_FEED: &'static str = "\n";

/// What a result looks like in the file.
pub open spec fn record_text(found: Seq<char>) -> Seq<char> {
    if ends_line(found) {
        found
    } else {
        found.push('\n')
    }
}

/// The operation on the file that is under way.
#[derive(Debug, PartialEq, Eq, Structural, Clone, Copy)]
pub enum Stage {
    /// None.
    Idle,
    /// The result itself is written, and a line feed is to follow or not.
    Body { line_feed: bool },
    /// The line feed after a result is written.
    LineFeed,
    /// What is buffered is flushed.
    Flushing,
    /// The file is shut down.
    ShuttingDown,
}

/// What comes next for the file.
#[derive(Debug, PartialEq)]
pub enum Progress<S> {
    /// Write a text to the end of the file.
    Write { text: S },
    /// Flush what is buffered.
    Flush,
    /// Shut the file down.
    Shutdown,
    /// Nothing: the result is in the file, or the file is closed, unless `ok` is false and the
    /// notice says why.
    Done { ok: bool, notice: Option<S> },
}

impl View for Progress<String> {
    type V = Progress<Seq<char>>;

    open spec fn view(&self) -> Progress<Seq<char>> {
        match *self {
            Progress::Write { text } => Progress::Write { text: text@ },
            Progress::Flush => Progress::Flush,
            Progress::Shutdown => Progress::Shutdown,
            Progress::Done { ok, notice } => Progress::Done { ok, notice: text_of(notice) },
        }
    }
}

/// The stage and what comes next, after an operation was done.
pub open spec fn resumed(stage: Stage, outcome: Result<(), Seq<char>>) -> (
    Stage,
    Progress<Seq<char>>,
) {
    match (stage, outcome) {
        (Stage::Idle, _) => (Stage::Idle, Progress::Done { ok: true, notice: None }),
        (Stage::Body { line_feed: true }, Ok(_)) => (
            Stage::LineFeed,
            Progress::Write { text: LINE_FEED@ },
        ),
        (Stage::Body { .. }, Ok(_)) | (Stage::LineFeed, Ok(_)) => (
            Stage::Idle,
            Progress::Done { ok: true, notice: None },
        ),
        (Stage::Body { .. }, Err(error)) | (Stage::LineFeed, Err(error)) => (
            Stage::Idle,
            Progress::Done { ok: false, notice: Some(results_write_failed_text(error)) },
        ),
        (Stage::Flushing, Ok(_)) => (Stage::ShuttingDown, Progress::Shutdown),
        (Stage::ShuttingDown, Ok(_)) => (Stage::Idle, Progress::Done { ok: true, notice: None }),
        (Stage::Flushing, Err(error)) | (Stage::ShuttingDown, Err(error)) => (
            Stage::Idle,
            Progress::Done { ok: false, notice: Some(results_close_failed_text(error)) },
        ),
    }
}

/// An open results file.
pub struct ResultsFile {
    pub stage: Stage,
}

impl ResultsFile {
    /// Takes what came of opening the file for appending: the open file, or the line that says why
    /// there is none.
    pub fn open(path: &str, outcome: Result<(), String>) -> (r: Result<ResultsFile, String>)
        ensures
            r is Ok <==> outcome is Ok,
            r matches Ok(file) ==> file.stage is Idle,
            r matches Err(text) ==> text@ == results_open_failed_text(path@, outcome->Err_0@),
    {
        match outcome {
            Ok(_) => Ok(ResultsFile { stage: Stage::Idle }),
            Err(error) => Err(results_open_failed(path, error.as_str())),
        }
    }

    /// Begins to write a result.
    pub fn write(&mut self, found: &str) -> (r: Progress<String>)
        ensures
            r@ == (Progress::Write { text: found@ }),
            final(self).stage == (Stage::Body { line_feed: !ends_line(found@) }),
    {
        self.stage = Stage::Body { line_feed: !ends_with_line_feed(found) };
        Progress::Write { text: found.to_owned() }
    }

    /// Begins to close the file.
    pub fn close(&mut self) -> (r: Progress<String>)
        ensures
            r@ == Progress::<Seq<char>>::Flush,
            final(self).stage == Stage::Flushing,
    {
        self.stage = Stage::Flushing;
        Progress::Flush
    }

    /// Takes what came of the operation under way.
    pub fn resume(&mut self, outcome: Result<(), String>) -> (r: Progress<String>)
        ensures
            (final(self).stage, r@) == resumed(old(self).stage, done_of(outcome)),
    {
        let stage = self.stage;
        match outcome {
            Ok(_) => match stage {
                Stage::Body { line_feed: true } => {
                    self.stage = Stage::LineFeed;
                    Progress::Write { text: LINE_FEED.to_owned() }
                },
                Stage::Flushing => {
                    self.stage = Stage::ShuttingDown;
                    Progress::Shutdown
                },
                _ => {
                    self.stage = Stage::Idle;
                    Progress::Done { ok: true, notice: None }
                },
            },
            Err(error) => {
                self.stage = Stage::Idle;
                match stage {
                    Stage::Idle => Progress::Done { ok: true, notice: None },
                    Stage::Flushing | Stage::ShuttingDown => Progress::Done {
                        ok: false,
                        notice: Some(results_close_failed(error.as_str())),
                    },
                    _ => Progress::Done {
                        ok: false,
                        notice: Some(results_write_failed(error.as_str())),
                    },
                }
            },
        }
    }
}

} // verus!
