//! The vocabulary of facts the monitor reports.

use vstd::prelude::*;

verus! {

/// How many events the channel between the worker and its consumer holds
/// unless the host configures another bound.
pub const DEFAULT_CHANNEL_CAPACITY: usize = 10;

/// What a [`PulseEvent`] says, with the name as a sequence of characters.
pub enum PulseEventView {
    ProcessRunning { name: Seq<char>, is_running: bool },
}

/// An immutable snapshot of one observed fact about a named process.
#[derive(Debug, Clone, PartialEq, Eq)]
pub enum PulseEvent {
    /// Whether a live process matched `name` when the sample was taken.
    ProcessRunning { name: String, is_running: bool },
}

impl View for PulseEvent {
    type V = PulseEventView;

    open spec fn view(&self) -> PulseEventView {
        match self {
            PulseEvent::ProcessRunning { name, is_running } => PulseEventView::ProcessRunning {
                name: name@,
                is_running: *is_running,
            },
        }
    }
}

impl PulseEventView {
    /// The process the event reports on.
    pub open spec fn subject(self) -> Seq<char> {
        match self {
            PulseEventView::ProcessRunning { name, .. } => name,
        }
    }

    /// An event is well formed when it names a process.
    pub open spec fn wf(self) -> bool {
        self.subject().len() > 0
    }
}

impl PulseEvent {
    /// Builds the event that reports `is_running` for the process `name`.
    pub fn process_running(name: String, is_running: bool) -> (event: PulseEvent)
        ensures
            event@ == (PulseEventView::ProcessRunning { name: name@, is_running }),
            name@.len() > 0 ==> event@.wf(),
    {
        PulseEvent::ProcessRunning { name, is_running }
    }

    /// The process the event reports on.
    pub fn name(&self) -> (name: &String)
        ensures
            name@ == self@.subject(),
    {
        match self {
            PulseEvent::ProcessRunning { name, .. } => name,
        }
    }

    /// Whether the event reports its process as running.
    pub fn is_running(&self) -> (running: bool)
        ensures
            self@ == (PulseEventView::ProcessRunning { name: self@.subject(), is_running: running }),
    {
        match self {
            PulseEvent::ProcessRunning { is_running, .. } => *is_running,
        }
    }
}

} // verus!
