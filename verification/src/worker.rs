//! The monitor worker as a state machine.
//!
//! A worker cycles `Idle -> Sampling -> Delivering` and from there back to
//! `Idle` or on to `Stopped`. It never waits, queries or sends by itself:
//! [`Worker::step`] takes what the host observed and answers with the next
//! thing for the host to do.

use crate::error::{MonitorError, MonitorErrorView};
use crate::events::{PulseEvent, PulseEventView};
use crate::sampler::{event_of, query_view, sample_from_query, sample_of};
use vstd::prelude::*;

verus! {

/// How long a worker lives.
#[derive(Debug, Clone, Copy, PartialEq, Eq)]
pub enum Mode {
    /// One sample, one event, then the worker completes. A failed sample
    /// aborts the worker.
    SingleShot,
    /// Sample again `interval_ms` after each delivery, and `backoff_ms` after
    /// each failed sample, until the channel closes or a stop is requested.
    Continuous { interval_ms: u64, backoff_ms: u64 },
}

/// What a [`StopReason`] says, with the reason as a sequence of characters.
pub enum StopReasonView {
    Completed,
    StopRequested,
    ChannelClosed,
    SampleFailed { reason: Seq<char> },
}

/// Why a worker stopped.
#[derive(Debug, Clone, PartialEq, Eq)]
pub enum StopReason {
    /// A single-shot worker delivered its event.
    Completed,
    /// The host asked the worker to stop.
    StopRequested,
    /// The consumer end of the channel is gone.
    ChannelClosed,
    /// A single-shot worker could not take its sample.
    SampleFailed { reason: String },
}

impl View for StopReason {
    type V = StopReasonView;

    open spec fn view(&self) -> StopReasonView {
        match self {
            StopReason::Completed => StopReasonView::Completed,
            StopReason::StopRequested => StopReasonView::StopRequested,
            StopReason::ChannelClosed => StopReasonView::ChannelClosed,
            StopReason::SampleFailed { reason } => StopReasonView::SampleFailed { reason: reason@ },
        }
    }
}

impl StopReasonView {
    /// What the worker's supervisor is told: nothing went wrong when the
    /// worker completed or was asked to stop, and the error otherwise.
    pub open spec fn outcome(self) -> Result<(), MonitorErrorView> {
        match self {
            StopReasonView::Completed => Ok(()),
            StopReasonView::StopRequested => Ok(()),
            StopReasonView::ChannelClosed => Err(MonitorErrorView::ChannelClosed),
            StopReasonView::SampleFailed { reason } => Err(
                MonitorErrorView::SampleError { reason },
            ),
        }
    }
}

impl StopReason {
    /// A copy of the reason.
    pub fn duplicate(&self) -> (copy: StopReason)
        ensures
            copy@ == self@,
    {
        match self {
            StopReason::Completed => StopReason::Completed,
            StopReason::StopRequested => StopReason::StopRequested,
            StopReason::ChannelClosed => StopReason::ChannelClosed,
            StopReason::SampleFailed { reason } => StopReason::SampleFailed {
                reason: reason.clone(),
            },
        }
    }

    /// The termination of the worker as its supervisor sees it. A closed
    /// channel and a failed sample are errors; they are never swallowed.
    pub fn outcome(self) -> (result: Result<(), MonitorError>)
        ensures
            result is Ok <==> self@.outcome() is Ok,
            result is Err ==> self@.outcome() == Err::<(), MonitorErrorView>(result->Err_0@),
    {
        match self {
            StopReason::Completed => Ok(()),
            StopReason::StopRequested => Ok(()),
            StopReason::ChannelClosed => Err(MonitorError::ChannelClosed),
            StopReason::SampleFailed { reason } => Err(MonitorError::SampleError { reason }),
        }
    }
}

/// What a [`WorkerState`] says, over character sequences.
pub enum WorkerStateView {
    Idle,
    Sampling,
    Delivering,
    Stopped { reason: StopReasonView },
}

/// Where a worker is in its cycle.
#[derive(Debug, Clone, PartialEq, Eq)]
pub enum WorkerState {
    /// Waiting to begin a cycle.
    Idle,
    /// The host has been asked to query the process table.
    Sampling,
    /// The host has been asked to send an event; the send is outstanding.
    Delivering,
    /// Terminal.
    Stopped { reason: StopReason },
}

impl View for WorkerState {
    type V = WorkerStateView;

    open spec fn view(&self) -> WorkerStateView {
        match self {
            WorkerState::Idle => WorkerStateView::Idle,
            WorkerState::Sampling => WorkerStateView::Sampling,
            WorkerState::Delivering => WorkerStateView::Delivering,
            WorkerState::Stopped { reason } => WorkerStateView::Stopped { reason: reason@ },
        }
    }
}

/// What a [`WorkerInput`] says, over character sequences.
pub enum WorkerInputView {
    Wake,
    Queried { outcome: Result<Seq<Seq<char>>, Seq<char>> },
    Sent,
    SendFailed,
    Stop,
}

/// What the host observed and reports to the worker.
#[derive(Debug, PartialEq, Eq)]
pub enum WorkerInput {
    /// It is time to begin a cycle: the worker has just been started, or the
    /// delay it asked for has elapsed.
    Wake,
    /// The query of the process table returned: the names of the live
    /// processes, or the reason why they could not be listed.
    Queried { outcome: Result<Vec<String>, String> },
    /// The channel took the event.
    Sent,
    /// The send failed for good: the consumer end is closed or dropped.
    SendFailed,
    /// The worker is to stop.
    Stop,
}

impl View for WorkerInput {
    type V = WorkerInputView;

    open spec fn view(&self) -> WorkerInputView {
        match self {
            WorkerInput::Wake => WorkerInputView::Wake,
            WorkerInput::Queried { outcome } => WorkerInputView::Queried {
                outcome: query_view(*outcome),
            },
            WorkerInput::Sent => WorkerInputView::Sent,
            WorkerInput::SendFailed => WorkerInputView::SendFailed,
            WorkerInput::Stop => WorkerInputView::Stop,
        }
    }
}

/// What a [`WorkerAction`] says, over character sequences.
pub enum WorkerActionView {
    Sample { name: Seq<char> },
    Send { event: PulseEventView },
    Wait { millis: u64 },
    Halt { reason: StopReasonView },
    Pending,
}

/// What the worker asks of the host.
#[derive(Debug, Clone, PartialEq, Eq)]
pub enum WorkerAction {
    /// Query the process table, then report [`WorkerInput::Queried`].
    Sample { name: String },
    /// Send `event` on the channel, suspending while the channel is full, then
    /// report [`WorkerInput::Sent`] or [`WorkerInput::SendFailed`].
    Send { event: PulseEvent },
    /// Let `millis` milliseconds pass, then report [`WorkerInput::Wake`].
    Wait { millis: u64 },
    /// The worker has stopped. Hand `reason` to whoever supervises it.
    Halt { reason: StopReason },
    /// The input does not answer what the worker is waiting for. Nothing
    /// changed; the earlier request stands.
    Pending,
}

impl View for WorkerAction {
    type V = WorkerActionView;

    open spec fn view(&self) -> WorkerActionView {
        match self {
            WorkerAction::Sample { name } => WorkerActionView::Sample { name: name@ },
            WorkerAction::Send { event } => WorkerActionView::Send { event: event@ },
            WorkerAction::Wait { millis } => WorkerActionView::Wait { millis: *millis },
            WorkerAction::Halt { reason } => WorkerActionView::Halt { reason: reason@ },
            WorkerAction::Pending => WorkerActionView::Pending,
        }
    }
}

/// A worker as the contracts see it.
pub struct WorkerView {
    pub name: Seq<char>,
    pub mode: Mode,
    pub state: WorkerStateView,
}

impl WorkerView {
    /// A worker is well formed when it has a process to watch.
    pub open spec fn wf(self) -> bool {
        self.name.len() > 0
    }

    /// The same worker in another state.
    pub open spec fn at(self, state: WorkerStateView) -> WorkerView {
        WorkerView { name: self.name, mode: self.mode, state }
    }

    /// How a cycle ends, after a delivery (`failed` false) or after a failed
    /// sample (`failed` true). A single-shot worker stops with `reason`. A
    /// continuous worker is idle again and asks for a delay: the interval
    /// after a delivery, the backoff after a failure.
    pub open spec fn end_cycle(self, failed: bool, reason: StopReasonView) -> (
        WorkerStateView,
        WorkerActionView,
    ) {
        match self.mode {
            Mode::SingleShot => (
                WorkerStateView::Stopped { reason },
                WorkerActionView::Halt { reason },
            ),
            Mode::Continuous { interval_ms, backoff_ms } => (
                WorkerStateView::Idle,
                WorkerActionView::Wait { millis: if failed { backoff_ms } else { interval_ms } },
            ),
        }
    }

    /// The transition function: the state the worker moves to on `input`, and
    /// what it asks of the host.
    ///
    /// A stopped worker stays stopped and repeats its reason. A stop request
    /// stops any other worker. Otherwise each state answers to its own
    /// input: `Idle` to `Wake`, `Sampling` to `Queried`, `Delivering` to
    /// `Sent` and `SendFailed`. Any other input leaves the worker as it is.
    pub open spec fn step(self, input: WorkerInputView) -> (WorkerStateView, WorkerActionView) {
        match (self.state, input) {
            (WorkerStateView::Stopped { reason }, _) => (
                self.state,
                WorkerActionView::Halt { reason },
            ),
            (_, WorkerInputView::Stop) => (
                WorkerStateView::Stopped { reason: StopReasonView::StopRequested },
                WorkerActionView::Halt { reason: StopReasonView::StopRequested },
            ),
            (WorkerStateView::Idle, WorkerInputView::Wake) => (
                WorkerStateView::Sampling,
                WorkerActionView::Sample { name: self.name },
            ),
            (WorkerStateView::Sampling, WorkerInputView::Queried { outcome: Ok(names) }) => (
                WorkerStateView::Delivering,
                WorkerActionView::Send { event: event_of(sample_of(self.name, names)) },
            ),
            (
                WorkerStateView::Sampling,
                WorkerInputView::Queried { outcome: Err(reason) },
            ) => self.end_cycle(true, StopReasonView::SampleFailed { reason }),
            (WorkerStateView::Delivering, WorkerInputView::Sent) => self.end_cycle(
                false,
                StopReasonView::Completed,
            ),
            (WorkerStateView::Delivering, WorkerInputView::SendFailed) => (
                WorkerStateView::Stopped { reason: StopReasonView::ChannelClosed },
                WorkerActionView::Halt { reason: StopReasonView::ChannelClosed },
            ),
            _ => (self.state, WorkerActionView::Pending),
        }
    }

    /// The worker after `input`.
    pub open spec fn next(self, input: WorkerInputView) -> WorkerView {
        self.at(self.step(input).0)
    }
}

/// The monitor worker for one process name.
pub struct Worker {
    name: String,
    mode: Mode,
    state: WorkerState,
}

impl View for Worker {
    type V = WorkerView;

    closed spec fn view(&self) -> WorkerView {
        WorkerView { name: self.name@, mode: self.mode, state: self.state@ }
    }
}

impl Worker {
    #[verifier::type_invariant]
    spec fn named(&self) -> bool {
        self.name@.len() > 0
    }

    /// A worker for the process `name`, idle and ready to be woken. An empty
    /// name is refused with `InvalidInput`, and nothing else is.
    pub fn new(name: String, mode: Mode) -> (result: Result<Worker, MonitorError>)
        ensures
            result is Err <==> name@.len() == 0,
            result is Err ==> result->Err_0@ == MonitorErrorView::InvalidInput,
            result is Ok ==> result->Ok_0@ == (WorkerView {
                name: name@,
                mode,
                state: WorkerStateView::Idle,
            }),
    {
        if name.as_str().is_empty() {
            Err(MonitorError::InvalidInput)
        } else {
            Ok(Worker { name, mode, state: WorkerState::Idle })
        }
    }

    /// The process the worker watches. It is never empty.
    pub fn name(&self) -> (name: &String)
        ensures
            name@ == self@.name,
            self@.wf(),
    {
        proof {
            use_type_invariant(self);
        }
        &self.name
    }

    /// The mode the worker was made with.
    pub fn mode(&self) -> (mode: Mode)
        ensures
            mode == self@.mode,
    {
        self.mode
    }

    /// Where the worker is in its cycle.
    pub fn state(&self) -> (state: &WorkerState)
        ensures
            state@ == self@.state,
    {
        &self.state
    }

    /// Whether the worker has reached its terminal state.
    pub fn is_stopped(&self) -> (stopped: bool)
        ensures
            stopped == (self@.state is Stopped),
    {
        match &self.state {
            WorkerState::Stopped { .. } => true,
            _ => false,
        }
    }

    /// Ends the cycle after a delivery or a failed sample: stops with
    /// `reason` in single-shot mode, waits in continuous mode.
    fn end_cycle(&mut self, failed: bool, reason: StopReason) -> (action: WorkerAction)
        ensures
            final(self)@ == old(self)@.at(old(self)@.end_cycle(failed, reason@).0),
            action@ == old(self)@.end_cycle(failed, reason@).1,
    {
        proof {
            use_type_invariant(&*self);
        }
        match self.mode {
            Mode::SingleShot => {
                let told = reason.duplicate();
                self.state = WorkerState::Stopped { reason };
                WorkerAction::Halt { reason: told }
            },
            Mode::Continuous { interval_ms, backoff_ms } => {
                self.state = WorkerState::Idle;
                WorkerAction::Wait { millis: if failed { backoff_ms } else { interval_ms } }
            },
        }
    }

    /// Moves the worker to `reason`'s terminal state.
    fn stop(&mut self, reason: StopReason) -> (action: WorkerAction)
        ensures
            final(self)@ == old(self)@.at(WorkerStateView::Stopped { reason: reason@ }),
            action@ == (WorkerActionView::Halt { reason: reason@ }),
    {
        proof {
            use_type_invariant(&*self);
        }
        let told = reason.duplicate();
        self.state = WorkerState::Stopped { reason };
        WorkerAction::Halt { reason: told }
    }

    /// Advances the worker by one observation of the host and returns what
    /// the host is to do next.
    ///
    /// The new state and the action are exactly those of
    /// [`WorkerView::step`]; name and mode never change.
    pub fn step(&mut self, input: WorkerInput) -> (action: WorkerAction)
        ensures
            old(self)@.wf(),
            final(self)@ == old(self)@.next(input@),
            action@ == old(self)@.step(input@).1,
    {
        proof {
            use_type_invariant(&*self);
        }
        if let WorkerState::Stopped { reason } = &self.state {
            return WorkerAction::Halt { reason: reason.duplicate() };
        }
        match input {
            WorkerInput::Stop => self.stop(StopReason::StopRequested),
            WorkerInput::Wake => match &self.state {
                WorkerState::Idle => {
                    self.state = WorkerState::Sampling;
                    WorkerAction::Sample { name: self.name.clone() }
                },
                _ => WorkerAction::Pending,
            },
            WorkerInput::Queried { outcome } => match &self.state {
                WorkerState::Sampling => match sample_from_query(&self.name, &outcome) {
                    Ok(sample) => {
                        self.state = WorkerState::Delivering;
                        WorkerAction::Send { event: sample.into_event() }
                    },
                    Err(error) => self.end_cycle(true, StopReason::SampleFailed { reason: error.reason }),
                },
                _ => WorkerAction::Pending,
            },
            WorkerInput::Sent => match &self.state {
                WorkerState::Delivering => self.end_cycle(false, StopReason::Completed),
                _ => WorkerAction::Pending,
            },
            WorkerInput::SendFailed => match &self.state {
                WorkerState::Delivering => self.stop(StopReason::ChannelClosed),
                _ => WorkerAction::Pending,
            },
        }
    }
}

} // verus!
