//! Whole runs of a worker, and what holds of all of them.
//!
//! A run is a worker fed one input after another. The laws below are about
//! the actions that come out: which events are handed to the channel, in what
//! order, and when none is.

use crate::events::PulseEventView;
use crate::sampler::{event_of, sample_of};
use crate::worker::{
    Mode, StopReasonView, WorkerActionView, WorkerInputView, WorkerStateView, WorkerView,
};
use vstd::prelude::*;

verus! {

impl WorkerView {
    /// The worker after it was fed `inputs`, first to last.
    pub open spec fn after(self, inputs: Seq<WorkerInputView>) -> WorkerView
        decreases inputs.len(),
    {
        if inputs.len() == 0 {
            self
        } else {
            self.next(inputs.first()).after(inputs.drop_first())
        }
    }

    /// The actions the worker answered `inputs` with, one for each input.
    pub open spec fn actions(self, inputs: Seq<WorkerInputView>) -> Seq<WorkerActionView>
        decreases inputs.len(),
    {
        if inputs.len() == 0 {
            Seq::empty()
        } else {
            seq![self.step(inputs.first()).1] + self.next(inputs.first()).actions(
                inputs.drop_first(),
            )
        }
    }
}

/// The events that `actions` hand to the channel, in order.
pub open spec fn sent_events(actions: Seq<WorkerActionView>) -> Seq<PulseEventView>
    decreases actions.len(),
{
    if actions.len() == 0 {
        Seq::empty()
    } else {
        let rest = sent_events(actions.drop_first());
        match actions.first() {
            WorkerActionView::Send { event } => seq![event] + rest,
            _ => rest,
        }
    }
}

/// The inputs of one undisturbed cycle: the worker is woken, the query
/// returns `outcome`, and, where there is an event to send, the channel
/// takes it.
pub open spec fn cycle(outcome: Result<Seq<Seq<char>>, Seq<char>>) -> Seq<WorkerInputView> {
    match outcome {
        Ok(_) => seq![
            WorkerInputView::Wake,
            WorkerInputView::Queried { outcome },
            WorkerInputView::Sent,
        ],
        Err(_) => seq![WorkerInputView::Wake, WorkerInputView::Queried { outcome }],
    }
}

/// The inputs of one undisturbed cycle after another, one for each outcome.
pub open spec fn cycles(outcomes: Seq<Result<Seq<Seq<char>>, Seq<char>>>) -> Seq<WorkerInputView>
    decreases outcomes.len(),
{
    if outcomes.len() == 0 {
        Seq::empty()
    } else {
        cycles(outcomes.drop_last()) + cycle(outcomes.last())
    }
}

/// The events that report, for the process `name`, those of `outcomes` that
/// are process tables, in their order. A failed query contributes nothing.
pub open spec fn reports(
    name: Seq<char>,
    outcomes: Seq<Result<Seq<Seq<char>>, Seq<char>>>,
) -> Seq<PulseEventView>
    decreases outcomes.len(),
{
    if outcomes.len() == 0 {
        Seq::empty()
    } else {
        let earlier = reports(name, outcomes.drop_last());
        match outcomes.last() {
            Ok(names) => earlier.push(event_of(sample_of(name, names))),
            Err(_) => earlier,
        }
    }
}

/// Feeding `first` and then `second` is feeding `first + second`.
pub proof fn lemma_run_concat(
    worker: WorkerView,
    first: Seq<WorkerInputView>,
    second: Seq<WorkerInputView>,
)
    ensures
        worker.after(first + second) == worker.after(first).after(second),
        worker.actions(first + second) == worker.actions(first) + worker.after(first).actions(
            second,
        ),
    decreases first.len(),
{
    if first.len() == 0 {
        assert(first + second == second);
        assert(worker.actions(first) + worker.actions(second) == worker.actions(second));
    } else {
        let all = first + second;
        assert(all.first() == first.first());
        assert(all.drop_first() == first.drop_first() + second);
        let moved = worker.next(first.first());
        lemma_run_concat(moved, first.drop_first(), second);
        assert(worker.actions(all) == seq![worker.step(first.first()).1] + (moved.actions(
            first.drop_first(),
        ) + moved.after(first.drop_first()).actions(second)));
        assert(worker.actions(all) == worker.actions(first) + worker.after(first).actions(second));
    }
}

/// The events sent by two stretches of actions are those of the first
/// followed by those of the second.
pub proof fn lemma_sent_events_concat(first: Seq<WorkerActionView>, second: Seq<WorkerActionView>)
    ensures
        sent_events(first + second) == sent_events(first) + sent_events(second),
    decreases first.len(),
{
    if first.len() == 0 {
        assert(first + second == second);
        assert(sent_events(first) + sent_events(second) == sent_events(second));
    } else {
        let all = first + second;
        assert(all.first() == first.first());
        assert(all.drop_first() == first.drop_first() + second);
        lemma_sent_events_concat(first.drop_first(), second);
        let tail = sent_events(first.drop_first());
        match first.first() {
            WorkerActionView::Send { event } => {
                assert(sent_events(all) == seq![event] + (tail + sent_events(second)));
                assert(seq![event] + (tail + sent_events(second)) == (seq![event] + tail)
                    + sent_events(second));
            },
            _ => {},
        }
    }
}

/// A run answers every input with one action, and the action at position `at`
/// is the step that the worker, as it then stood, took on that input. Name
/// and mode are those the run began with.
pub proof fn lemma_action_at(worker: WorkerView, inputs: Seq<WorkerInputView>, at: int)
    requires
        0 <= at < inputs.len(),
    ensures
        worker.actions(inputs).len() == inputs.len(),
        worker.after(inputs.take(at)).name == worker.name,
        worker.after(inputs.take(at)).mode == worker.mode,
        worker.actions(inputs)[at] == worker.after(inputs.take(at)).step(inputs[at]).1,
    decreases inputs.len(),
{
    lemma_run_length(worker, inputs);
    if at == 0 {
        assert(inputs.take(0).len() == 0);
    } else {
        let moved = worker.next(inputs.first());
        let rest = inputs.drop_first();
        lemma_action_at(moved, rest, at - 1);
        lemma_run_length(moved, rest);
        assert(inputs.take(at).first() == inputs.first());
        assert(inputs.take(at).drop_first() == rest.take(at - 1));
        assert(worker.after(inputs.take(at)) == moved.after(rest.take(at - 1)));
        assert(worker.actions(inputs)[at] == moved.actions(rest)[at - 1]);
    }
}

/// A run answers every input with one action.
pub proof fn lemma_run_length(worker: WorkerView, inputs: Seq<WorkerInputView>)
    ensures
        worker.actions(inputs).len() == inputs.len(),
        worker.after(inputs).name == worker.name,
        worker.after(inputs).mode == worker.mode,
    decreases inputs.len(),
{
    if inputs.len() > 0 {
        lemma_run_length(worker.next(inputs.first()), inputs.drop_first());
    }
}

/// A stopped worker is stopped for good: whatever it is fed, it stays as it
/// is and answers with its reason, so it never again samples, sends or waits.
pub proof fn lemma_stopped_is_terminal(worker: WorkerView, inputs: Seq<WorkerInputView>)
    requires
        worker.state is Stopped,
    ensures
        worker.after(inputs) == worker,
        worker.actions(inputs).len() == inputs.len(),
        forall|i: int|
            0 <= i < inputs.len() ==> #[trigger] worker.actions(inputs)[i] == (
            WorkerActionView::Halt { reason: worker.state->reason }),
        sent_events(worker.actions(inputs)) == Seq::<PulseEventView>::empty(),
    decreases inputs.len(),
{
    if inputs.len() > 0 {
        assert(worker.next(inputs.first()) == worker);
        lemma_stopped_is_terminal(worker, inputs.drop_first());
        let actions = worker.actions(inputs);
        assert(actions.drop_first() == worker.actions(inputs.drop_first()));
        assert forall|i: int| 0 <= i < inputs.len() implies #[trigger] actions[i] == (
        WorkerActionView::Halt { reason: worker.state->reason }) by {
            if i > 0 {
                assert(actions[i] == worker.actions(inputs.drop_first())[i - 1]);
            }
        }
    }
}

/// A failed query never yields an event: whatever the worker's state and
/// mode, its answer to a query that could not be performed is not a send.
/// In particular no "not running" is reported for it.
pub proof fn lemma_failed_query_sends_nothing(worker: WorkerView, reason: Seq<char>)
    ensures
        !(worker.step(WorkerInputView::Queried { outcome: Err(reason) }).1 is Send),
        worker.state is Sampling ==> worker.step(
            WorkerInputView::Queried { outcome: Err(reason) },
        ) == worker.end_cycle(true, StopReasonView::SampleFailed { reason }),
{
}

/// No event is made up. In every run, from any state, an event is sent only
/// in answer to a process table that arrived while the worker was sampling,
/// and it reports exactly the sample of the worker's own process against
/// that table; for a well-formed worker the event is well formed.
pub proof fn lemma_events_report_samples(
    worker: WorkerView,
    inputs: Seq<WorkerInputView>,
    at: int,
)
    requires
        0 <= at < inputs.len(),
        worker.actions(inputs)[at] is Send,
    ensures
        worker.after(inputs.take(at)).state is Sampling,
        inputs[at] matches WorkerInputView::Queried { outcome: Ok(names) }
            && worker.actions(inputs)[at] == (WorkerActionView::Send {
            event: event_of(sample_of(worker.name, names)),
        }),
        worker.wf() ==> worker.actions(inputs)[at]->event.wf(),
{
    lemma_action_at(worker, inputs, at);
}

/// While a send is outstanding the worker starts nothing new. From
/// `Delivering`, as long as the host has not reported the event as sent, no
/// input makes the worker sample or send again: the second event cannot
/// overtake the first, however long the channel stays full.
pub proof fn lemma_send_waits_for_acknowledgement(
    worker: WorkerView,
    inputs: Seq<WorkerInputView>,
)
    requires
        worker.state is Delivering,
        forall|i: int| 0 <= i < inputs.len() ==> !(inputs[i] is Sent),
    ensures
        worker.after(inputs).state is Delivering || worker.after(inputs).state is Stopped,
        worker.actions(inputs).len() == inputs.len(),
        forall|i: int|
            0 <= i < inputs.len() ==> !(#[trigger] worker.actions(inputs)[i] is Send)
                && !(worker.actions(inputs)[i] is Sample),
        sent_events(worker.actions(inputs)) == Seq::<PulseEventView>::empty(),
    decreases inputs.len(),
{
    if inputs.len() > 0 {
        let moved = worker.next(inputs.first());
        let rest = inputs.drop_first();
        let actions = worker.actions(inputs);
        assert(!(inputs[0] is Sent));
        assert(actions.drop_first() == moved.actions(rest));
        if moved.state is Stopped {
            lemma_stopped_is_terminal(moved, rest);
        } else {
            assert forall|i: int| 0 <= i < rest.len() implies !(rest[i] is Sent) by {
                assert(rest[i] == inputs[i + 1]);
            }
            lemma_send_waits_for_acknowledgement(moved, rest);
        }
        assert forall|i: int| 0 <= i < inputs.len() implies !(#[trigger] actions[i] is Send) && !(
        actions[i] is Sample) by {
            if i > 0 {
                assert(actions[i] == moved.actions(rest)[i - 1]);
            }
        }
    }
}

/// A closed channel ends the worker at once. When the host reports that the
/// send failed for good, a delivering worker stops in that very step, in
/// either mode, with `ChannelClosed` as the reason it hands to its
/// supervisor; and it stays stopped whatever follows.
pub proof fn lemma_closed_channel_stops(worker: WorkerView, later: Seq<WorkerInputView>)
    requires
        worker.state is Delivering,
    ensures
        worker.step(WorkerInputView::SendFailed) == (
            WorkerStateView::Stopped { reason: StopReasonView::ChannelClosed },
            WorkerActionView::Halt { reason: StopReasonView::ChannelClosed },
        ),
        StopReasonView::ChannelClosed.outcome() is Err,
        worker.next(WorkerInputView::SendFailed).after(later).state == (
        WorkerStateView::Stopped { reason: StopReasonView::ChannelClosed }),
        sent_events(worker.next(WorkerInputView::SendFailed).actions(later)) == Seq::<
            PulseEventView,
        >::empty(),
{
    lemma_stopped_is_terminal(worker.next(WorkerInputView::SendFailed), later);
}

/// A run of two inputs, step by step.
proof fn lemma_run_two(worker: WorkerView, a: WorkerInputView, b: WorkerInputView)
    ensures
        worker.after(seq![a, b]) == worker.next(a).next(b),
        worker.actions(seq![a, b]) == seq![worker.step(a).1, worker.next(a).step(b).1],
{
    let inputs = seq![a, b];
    let rest = inputs.drop_first();
    let second = worker.next(a);
    assert(inputs.first() == a);
    assert(rest.first() == b);
    assert(rest.drop_first().len() == 0);
    assert(second.after(rest) == second.next(b).after(rest.drop_first()));
    assert(worker.after(inputs) == second.after(rest));
    assert(second.actions(rest) == seq![second.step(b).1] + second.next(b).actions(
        rest.drop_first(),
    ));
    assert(worker.actions(inputs) == seq![worker.step(a).1] + second.actions(rest));
}

/// A run of three inputs, step by step.
proof fn lemma_run_three(
    worker: WorkerView,
    a: WorkerInputView,
    b: WorkerInputView,
    c: WorkerInputView,
)
    ensures
        worker.after(seq![a, b, c]) == worker.next(a).next(b).next(c),
        worker.actions(seq![a, b, c]) == seq![
            worker.step(a).1,
            worker.next(a).step(b).1,
            worker.next(a).next(b).step(c).1,
        ],
{
    let inputs = seq![a, b, c];
    let second = worker.next(a);
    assert(inputs.first() == a);
    assert(inputs.drop_first() == seq![b, c]);
    lemma_run_two(second, b, c);
    assert(worker.after(inputs) == second.after(inputs.drop_first()));
    assert(worker.actions(inputs) == seq![worker.step(a).1] + second.actions(
        inputs.drop_first(),
    ));
}

/// One undisturbed cycle of a continuous worker: it sends the report of the
/// outcome if that is a process table, nothing if the query failed, and is
/// idle again.
pub proof fn lemma_one_cycle(worker: WorkerView, outcome: Result<Seq<Seq<char>>, Seq<char>>)
    requires
        worker.state is Idle,
        worker.mode is Continuous,
    ensures
        worker.after(cycle(outcome)) == worker,
        sent_events(worker.actions(cycle(outcome))) == reports(worker.name, seq![outcome]),
{
    let queried = WorkerInputView::Queried { outcome };
    assert(seq![outcome].drop_last() == Seq::<Result<Seq<Seq<char>>, Seq<char>>>::empty());
    assert(seq![outcome].last() == outcome);
    assert(reports(worker.name, seq![outcome].drop_last()) == Seq::<PulseEventView>::empty());
    match outcome {
        Ok(names) => {
            lemma_run_three(worker, WorkerInputView::Wake, queried, WorkerInputView::Sent);
            lemma_sent_of_three(worker.actions(cycle(outcome)));
            assert(reports(worker.name, seq![outcome]) == seq![
                event_of(sample_of(worker.name, names)),
            ]);
        },
        Err(_) => {
            lemma_run_two(worker, WorkerInputView::Wake, queried);
            lemma_sent_of_three(worker.actions(cycle(outcome)));
        },
    }
}

/// The events sent by at most three actions, one by one.
proof fn lemma_sent_of_three(actions: Seq<WorkerActionView>)
    requires
        actions.len() <= 3,
    ensures
        actions.len() == 2 && !(actions[0] is Send) && !(actions[1] is Send) ==> sent_events(
            actions,
        ) == Seq::<PulseEventView>::empty(),
        actions.len() == 3 && !(actions[0] is Send) && actions[1] is Send && !(actions[2] is Send)
            ==> sent_events(actions) == seq![actions[1]->event],
{
    reveal_with_fuel(sent_events, 4);
    if actions.len() >= 2 {
        let one = actions.drop_first();
        let two = one.drop_first();
        assert(one.first() == actions[1]);
        if actions.len() == 3 {
            assert(two.first() == actions[2]);
            assert(two.drop_first().len() == 0);
            if !(actions[0] is Send) && actions[1] is Send && !(actions[2] is Send) {
                assert(sent_events(two) == Seq::<PulseEventView>::empty());
                assert(sent_events(one) == seq![actions[1]->event] + sent_events(two));
                assert(sent_events(actions) == seq![actions[1]->event]);
            }
        } else {
            assert(two.len() == 0);
        }
    }
}

/// Events leave in the order the samples were taken. A continuous worker
/// that is woken, answered and acknowledged cycle after cycle hands the
/// channel exactly the reports of the process tables it was given: one
/// event for each, none twice, none for a failed query, none out of place.
/// After the last cycle it is idle again.
pub proof fn lemma_continuous_order(
    worker: WorkerView,
    outcomes: Seq<Result<Seq<Seq<char>>, Seq<char>>>,
)
    requires
        worker.state is Idle,
        worker.mode is Continuous,
    ensures
        worker.after(cycles(outcomes)) == worker,
        sent_events(worker.actions(cycles(outcomes))) == reports(worker.name, outcomes),
    decreases outcomes.len(),
{
    if outcomes.len() > 0 {
        let earlier = outcomes.drop_last();
        let last = outcomes.last();
        lemma_continuous_order(worker, earlier);
        lemma_one_cycle(worker, last);
        lemma_run_concat(worker, cycles(earlier), cycle(last));
        lemma_sent_events_concat(worker.actions(cycles(earlier)), worker.actions(cycle(last)));
        assert(seq![last].drop_last() == Seq::<Result<Seq<Seq<char>>, Seq<char>>>::empty());
        assert(seq![last].last() == last);
        assert(reports(worker.name, seq![last].drop_last()) == Seq::<PulseEventView>::empty());
        match last {
            Ok(names) => {
                let event = event_of(sample_of(worker.name, names));
                assert(reports(worker.name, seq![last]) == seq![event]);
                assert(reports(worker.name, earlier) + seq![event] == reports(
                    worker.name,
                    earlier,
                ).push(event));
            },
            Err(_) => {
                assert(reports(worker.name, seq![last]) == Seq::<PulseEventView>::empty());
                assert(reports(worker.name, earlier) + Seq::<PulseEventView>::empty() == reports(
                    worker.name,
                    earlier,
                ));
            },
        }
    }
}

/// A single-shot worker delivers once and is done. Woken, given a process
/// table and acknowledged, it asks for one sample and one send, then halts
/// as `Completed`; whatever it is fed afterwards, that one event remains the
/// only one it ever sent.
pub proof fn lemma_single_shot_delivers_once(
    worker: WorkerView,
    names: Seq<Seq<char>>,
    later: Seq<WorkerInputView>,
)
    requires
        worker.state is Idle,
        worker.mode is SingleShot,
    ensures
        worker.actions(cycle(Ok(names))) == seq![
            WorkerActionView::Sample { name: worker.name },
            WorkerActionView::Send { event: event_of(sample_of(worker.name, names)) },
            WorkerActionView::Halt { reason: StopReasonView::Completed },
        ],
        worker.after(cycle(Ok(names)) + later).state == (
        WorkerStateView::Stopped { reason: StopReasonView::Completed }),
        sent_events(worker.actions(cycle(Ok(names)) + later)) == seq![
            event_of(sample_of(worker.name, names)),
        ],
{
    let outcome = Ok::<Seq<Seq<char>>, Seq<char>>(names);
    let inputs = cycle(outcome);
    let event = event_of(sample_of(worker.name, names));
    lemma_run_three(
        worker,
        WorkerInputView::Wake,
        WorkerInputView::Queried { outcome },
        WorkerInputView::Sent,
    );
    let actions = worker.actions(inputs);
    let done = worker.after(inputs);
    lemma_sent_of_three(actions);
    lemma_run_concat(worker, inputs, later);
    lemma_stopped_is_terminal(done, later);
    lemma_sent_events_concat(actions, done.actions(later));
    assert(seq![event] + Seq::<PulseEventView>::empty() == seq![event]);
}

} // verus!
