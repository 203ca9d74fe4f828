//! What is counted over all workers, with the counters of the `atomic_counter` crate.

use atomic_counter::AtomicCounter;
use vstd::prelude::*;

use crate::messages::{all_done, all_done_text, all_workers_failed, all_workers_failed_text};
use crate::worker::Count;

verus! {

/// A counter for figures, opaque here.
#[verifier::external_type_specification]
#[verifier::external_body]
pub struct ExRelaxedCounter(atomic_counter::RelaxedCounter);

/// A counter for decisions, opaque here.
#[verifier::external_type_specification]
#[verifier::external_body]
pub struct ExConsistentCounter(atomic_counter::ConsistentCounter);

/// The value that a counter holds.
pub uninterp spec fn relaxed_value(counter: atomic_counter::RelaxedCounter) -> usize;

/// The value that a counter holds.
pub uninterp spec fn consistent_value(counter: atomic_counter::ConsistentCounter) -> usize;

/// One more than a count. After the greatest count comes zero.
pub open spec fn raised(n: usize) -> usize {
    if n == usize::MAX {
        0
    } else {
        (n + 1) as usize
    }
}

/// Calls `atomic_counter::RelaxedCounter::new`: a counter with the value given.
#[verifier::external_body]
fn relaxed_new(value: usize) -> (r: atomic_counter::RelaxedCounter)
    ensures
        relaxed_value(r) == value,
{
    atomic_counter::RelaxedCounter::new(value)
}

/// Calls `inc` on an `atomic_counter::RelaxedCounter` that nobody else can reach meanwhile: raises
/// it by one, around to zero where it is full, and returns the value before.
#[verifier::external_body]
fn relaxed_inc(counter: &mut atomic_counter::RelaxedCounter) -> (r: usize)
    ensures
        r == relaxed_value(*old(counter)),
        relaxed_value(*final(counter)) == raised(relaxed_value(*old(counter))),
{
    counter.inc()
}

/// Calls `get` on an `atomic_counter::RelaxedCounter` that nobody else can reach meanwhile: its
/// value, which stays as it is.
#[verifier::external_body]
fn relaxed_get(counter: &mut atomic_counter::RelaxedCounter) -> (r: usize)
    ensures
        r == relaxed_value(*old(counter)),
        *final(counter) == *old(counter),
{
    counter.get()
}

/// Calls `atomic_counter::ConsistentCounter::new`: a counter with the value given.
#[verifier::external_body]
fn consistent_new(value: usize) -> (r: atomic_counter::ConsistentCounter)
    ensures
        consistent_value(r) == value,
{
    atomic_counter::ConsistentCounter::new(value)
}

/// Calls `inc` on an `atomic_counter::ConsistentCounter` that nobody else can reach meanwhile:
/// raises it by one, around to zero where it is full, and returns the value before.
#[verifier::external_body]
fn consistent_inc(counter: &mut atomic_counter::ConsistentCounter) -> (r: usize)
    ensures
        r == consistent_value(*old(counter)),
        consistent_value(*final(counter)) == raised(consistent_value(*old(counter))),
{
    counter.inc()
}

/// Calls `get` on an `atomic_counter::ConsistentCounter` that nobody else can reach meanwhile: its
/// value, which stays as it is.
#[verifier::external_body]
fn consistent_get(counter: &mut atomic_counter::ConsistentCounter) -> (r: usize)
    ensures
        r == consistent_value(*old(counter)),
        *final(counter) == *old(counter),
{
    counter.get()
}

/// The figures of a run.
#[derive(Debug, PartialEq, Eq, Structural, Clone, Copy)]
pub struct Figures {
    /// How many responses came.
    pub worked: usize,
    /// How many tasks had an album worth keeping.
    pub found: usize,
    /// How many tasks had none.
    pub failed: usize,
    /// How many workers gave their task back.
    pub workers_failed: usize,
}

impl Figures {
    /// The figures before anything happened.
    pub open spec fn zero() -> Figures {
        Figures { worked: 0, found: 0, failed: 0, workers_failed: 0 }
    }

    /// The figures with one more response.
    pub open spec fn with_response(self) -> Figures {
        Figures { worked: raised(self.worked), ..self }
    }

    /// The figures with one count raised.
    pub open spec fn with(self, count: Count) -> Figures {
        match count {
            Count::Found => Figures { found: raised(self.found), ..self },
            Count::Failed => Figures { failed: raised(self.failed), ..self },
            Count::WorkerFailed => Figures { workers_failed: raised(self.workers_failed), ..self },
        }
    }
}

/// The counters of a run.
pub struct Counters {
    worked: atomic_counter::RelaxedCounter,
    found: atomic_counter::RelaxedCounter,
    failed: atomic_counter::RelaxedCounter,
    workers_failed: atomic_counter::ConsistentCounter,
}

impl View for Counters {
    type V = Figures;

    closed spec fn view(&self) -> Figures {
        Figures {
            worked: relaxed_value(self.worked),
            found: relaxed_value(self.found),
            failed: relaxed_value(self.failed),
            workers_failed: consistent_value(self.workers_failed),
        }
    }
}

impl Counters {
    /// Counters that stand at zero.
    pub fn new() -> (r: Counters)
        ensures
            r@ == Figures::zero(),
    {
        Counters {
            worked: relaxed_new(0),
            found: relaxed_new(0),
            failed: relaxed_new(0),
            workers_failed: consistent_new(0),
        }
    }

    /// Counts a response, and tells its number.
    pub fn count_response(&mut self) -> (r: usize)
        ensures
            final(self)@ == old(self)@.with_response(),
            r == final(self)@.worked,
    {
        relaxed_inc(&mut self.worked).wrapping_add(1)
    }

    /// Raises a count.
    pub fn raise(&mut self, count: Count)
        ensures
            final(self)@ == old(self)@.with(count),
    {
        match count {
            Count::Found => {
                relaxed_inc(&mut self.found);
            },
            Count::Failed => {
                relaxed_inc(&mut self.failed);
            },
            Count::WorkerFailed => {
                consistent_inc(&mut self.workers_failed);
            },
        }
    }

    /// Reads the counters.
    pub fn figures(&mut self) -> (r: Figures)
        ensures
            r == old(self)@,
            final(self)@ == old(self)@,
    {
        Figures {
            worked: relaxed_get(&mut self.worked),
            found: relaxed_get(&mut self.found),
            failed: relaxed_get(&mut self.failed),
            workers_failed: consistent_get(&mut self.workers_failed),
        }
    }
}

/// How a run ends.
#[derive(Debug, PartialEq)]
pub struct Ending<S> {
    /// The last line to print.
    pub notice: S,
    /// Whether to wait for someone to look after it.
    pub block: bool,
}

impl View for Ending<String> {
    type V = Ending<Seq<char>>;

    open spec fn view(&self) -> Ending<Seq<char>> {
        Ending { notice: self.notice@, block: self.block }
    }
}

impl Figures {
    /// A run in which every worker gave its task back has gone wrong.
    pub open spec fn ending_of(self, workers: usize) -> Ending<Seq<char>> {
        if self.workers_failed == workers {
            Ending { notice: all_workers_failed_text(), block: true }
        } else {
            Ending { notice: all_done_text(), block: false }
        }
    }

    /// How a run with so many workers ends.
    pub fn ending(&self, workers: usize) -> (r: Ending<String>)
        ensures
            r@ == self.ending_of(workers),
    {
        if self.workers_failed == workers {
            Ending { notice: all_workers_failed(), block: true }
        } else {
            Ending { notice: all_done(), block: false }
        }
    }
}

} // verus!
