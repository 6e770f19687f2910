//! The matching policy of the process sampler.
//!
//! Listing the live processes is the host's work. What the listing means for
//! one process name is decided here: a process is running when its reported
//! name equals the target exactly, character for character, however many
//! processes do so; and a listing that could not be taken is an error, never
//! a "not running".

use crate::events::{PulseEvent, PulseEventView};
use vstd::prelude::*;

verus! {

/// What a [`Sample`] says, with the name as a sequence of characters.
pub struct SampleView {
    pub name: Seq<char>,
    pub is_running: bool,
}

/// The raw result of one look at the process table.
#[derive(Debug, Clone, PartialEq, Eq)]
pub struct Sample {
    pub name: String,
    pub is_running: bool,
}

impl View for Sample {
    type V = SampleView;

    open spec fn view(&self) -> SampleView {
        SampleView { name: self.name@, is_running: self.is_running }
    }
}

/// What a [`SampleError`] says, with the reason as a sequence of characters.
pub struct SampleErrorView {
    pub reason: Seq<char>,
}

/// The process table could not be queried; nothing is known about the process.
#[derive(Debug, Clone, PartialEq, Eq)]
pub struct SampleError {
    pub reason: String,
}

impl View for SampleError {
    type V = SampleErrorView;

    open spec fn view(&self) -> SampleErrorView {
        SampleErrorView { reason: self.reason@ }
    }
}

/// The names in a process table, each as a sequence of characters.
pub open spec fn table_names(table: Seq<String>) -> Seq<Seq<char>> {
    Seq::new(table.len(), |i: int| table[i]@)
}

/// What the host's query of the process table gave, over character sequences.
pub open spec fn query_view(outcome: Result<Vec<String>, String>) -> Result<
    Seq<Seq<char>>,
    Seq<char>,
> {
    match outcome {
        Ok(table) => Ok(table_names(table@)),
        Err(reason) => Err(reason@),
    }
}

/// The event that reports `sample`.
pub open spec fn event_of(sample: SampleView) -> PulseEventView {
    PulseEventView::ProcessRunning { name: sample.name, is_running: sample.is_running }
}

/// The sample of `name` against a process table: running exactly when the
/// table lists the name.
pub open spec fn sample_of(name: Seq<char>, names: Seq<Seq<char>>) -> SampleView {
    SampleView { name, is_running: names.contains(name) }
}

/// How many entries of the table equal `name`.
pub open spec fn match_count(name: Seq<char>, names: Seq<Seq<char>>) -> nat
    decreases names.len(),
{
    if names.len() == 0 {
        0
    } else {
        match_count(name, names.drop_last()) + if names.last() == name {
            1nat
        } else {
            0nat
        }
    }
}

/// A name is listed exactly when at least one entry matches it: the number
/// of matches beyond the first changes nothing.
pub proof fn lemma_listed_iff_counted(name: Seq<char>, names: Seq<Seq<char>>)
    ensures
        names.contains(name) <==> match_count(name, names) >= 1,
        match_count(name, names) <= names.len(),
    decreases names.len(),
{
    if names.len() > 0 {
        let front = names.drop_last();
        lemma_listed_iff_counted(name, front);
        if names.contains(name) {
            let i = choose|i: int| 0 <= i < names.len() && names[i] == name;
            if i < names.len() - 1 {
                assert(front[i] == name);
            }
        }
        if front.contains(name) {
            let j = choose|j: int| 0 <= j < front.len() && front[j] == name;
            assert(names[j] == name);
        }
        if names.last() == name {
            assert(names[names.len() - 1] == name);
        }
    }
}

/// Counts the processes in `table` whose reported name is exactly `name`.
pub fn count_matches(name: &String, table: &Vec<String>) -> (count: usize)
    ensures
        count == match_count(name@, table_names(table@)),
{
    let mut count: usize = 0;
    let mut i: usize = 0;
    while i < table.len()
        invariant
            i <= table.len(),
            count <= i,
            count == match_count(name@, table_names(table@).take(i as int)),
        decreases table.len() - i,
    {
        proof {
            let names = table_names(table@);
            assert(names.take(i + 1).drop_last() == names.take(i as int));
            assert(names.take(i + 1).last() == table@[i as int]@);
        }
        if table[i] == *name {
            count = count + 1;
        }
        i = i + 1;
    }
    proof {
        let names = table_names(table@);
        assert(names.take(i as int) == names);
    }
    count
}

/// Whether any process in `table` reports exactly the name `name`. The match
/// is case-sensitive and whole: no prefix, no folding.
pub fn is_listed(name: &String, table: &Vec<String>) -> (found: bool)
    ensures
        found == table_names(table@).contains(name@),
{
    let mut i: usize = 0;
    while i < table.len()
        invariant
            i <= table.len(),
            forall|j: int| 0 <= j < i ==> table_names(table@)[j] != name@,
        decreases table.len() - i,
    {
        if table[i] == *name {
            assert(table_names(table@)[i as int] == name@);
            return true;
        }
        i = i + 1;
    }
    false
}

impl Sample {
    /// Samples `name` against a process table that was read successfully.
    pub fn observe(name: &String, table: &Vec<String>) -> (sample: Sample)
        ensures
            sample@ == sample_of(name@, table_names(table@)),
    {
        Sample { name: name.clone(), is_running: is_listed(name, table) }
    }

    /// Turns the sample into the event that reports it: same name, same state.
    pub fn into_event(self) -> (event: PulseEvent)
        ensures
            event@ == event_of(self@),
            event@ == (PulseEventView::ProcessRunning {
                name: self.name@,
                is_running: self.is_running,
            }),
    {
        PulseEvent::process_running(self.name, self.is_running)
    }
}

/// The sampler's answer for `name`, given what the host's query of the process
/// table returned. A table gives a sample, whether or not the name is in it; a
/// failed query gives the error with its reason and no sample.
pub fn sample_from_query(name: &String, outcome: &Result<Vec<String>, String>) -> (result: Result<
    Sample,
    SampleError,
>)
    ensures
        match query_view(*outcome) {
            Ok(names) => result is Ok && result->Ok_0@ == sample_of(name@, names),
            Err(reason) => result is Err && result->Err_0@ == (SampleErrorView { reason }),
        },
{
    match outcome {
        Ok(table) => Ok(Sample::observe(name, table)),
        Err(reason) => Err(SampleError { reason: reason.clone() }),
    }
}

} // verus!
