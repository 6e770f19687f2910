use pulse::error::MonitorError;
use pulse::events::{PulseEvent, DEFAULT_CHANNEL_CAPACITY};
use pulse::worker::{Mode, StopReason, Worker, WorkerAction, WorkerInput, WorkerState};
use std::collections::VecDeque;
use std::sync::atomic::{AtomicUsize, Ordering};
use std::sync::Arc;
use std::time::Duration;
use tokio::runtime::{Builder, Runtime};
use tokio::sync::mpsc::error::TryRecvError;
use tokio::sync::mpsc::{channel, Sender};
use tokio::task::yield_now;
use tokio::time::timeout;

type Outcome = Result<Vec<String>, String>;

fn runtime() -> Runtime {
    Builder::new_current_thread()
        .enable_all()
        .build()
        .expect("a current-thread runtime")
}

fn listing(names: &[&str]) -> Outcome {
    Ok(names.iter().map(|name| String::from(*name)).collect())
}

fn event(name: &str, is_running: bool) -> PulseEvent {
    PulseEvent::ProcessRunning {
        name: String::from(name),
        is_running,
    }
}

/// Runs a worker as a host would: every query is answered from `outcomes`,
/// every wait is over at once, every send goes to `tx`. When the outcomes
/// run out the worker is asked to stop. `delivered` counts completed sends.
async fn host(
    mut worker: Worker,
    tx: Sender<PulseEvent>,
    mut outcomes: VecDeque<Outcome>,
    delivered: Arc<AtomicUsize>,
) -> (Worker, StopReason) {
    let mut input = WorkerInput::Wake;
    loop {
        input = match worker.step(input) {
            WorkerAction::Sample { name } => {
                assert_eq!(name, *worker.name());
                match outcomes.pop_front() {
                    Some(outcome) => WorkerInput::Queried { outcome },
                    None => WorkerInput::Stop,
                }
            }
            WorkerAction::Send { event } => match tx.send(event).await {
                Ok(()) => {
                    delivered.fetch_add(1, Ordering::SeqCst);
                    WorkerInput::Sent
                }
                Err(_) => WorkerInput::SendFailed,
            },
            WorkerAction::Wait { .. } => WorkerInput::Wake,
            WorkerAction::Halt { reason } => return (worker, reason),
            WorkerAction::Pending => unreachable!("the host answers every request"),
        };
    }
}

async fn let_others_run() {
    for _ in 0..32 {
        yield_now().await;
    }
}

fn new_worker(name: &str, mode: Mode) -> Worker {
    Worker::new(String::from(name), mode).expect("a non-empty name")
}

const CONTINUOUS: Mode = Mode::Continuous {
    interval_ms: 1,
    backoff_ms: 1,
};

#[test]
fn absent_process_yields_one_not_running_event_and_completion() {
    runtime().block_on(async {
        let (tx, mut rx) = channel(DEFAULT_CHANNEL_CAPACITY);
        let worker = new_worker("fresh", Mode::SingleShot);
        let outcomes = VecDeque::from(vec![listing(&["init", "bash", "sshd"])]);
        let task = tokio::spawn(host(worker, tx, outcomes, Arc::new(AtomicUsize::new(0))));

        assert_eq!(rx.recv().await, Some(event("fresh", false)));
        assert_eq!(rx.recv().await, None);

        let (worker, reason) = task.await.expect("the worker task ends normally");
        assert_eq!(reason, StopReason::Completed);
        assert_eq!(reason.outcome(), Ok(()));
        assert_eq!(
            *worker.state(),
            WorkerState::Stopped {
                reason: StopReason::Completed
            }
        );
    });
}

#[test]
fn present_process_yields_one_running_event_and_completion() {
    runtime().block_on(async {
        let (tx, mut rx) = channel(DEFAULT_CHANNEL_CAPACITY);
        let worker = new_worker("fresh", Mode::SingleShot);
        let outcomes = VecDeque::from(vec![listing(&["init", "fresh"]), listing(&[])]);
        let task = tokio::spawn(host(worker, tx, outcomes, Arc::new(AtomicUsize::new(0))));

        assert_eq!(rx.recv().await, Some(event("fresh", true)));
        assert_eq!(rx.recv().await, None);
        let (_, reason) = task.await.expect("the worker task ends normally");
        assert_eq!(reason, StopReason::Completed);
    });
}

#[test]
fn consumer_receives_events_in_sampling_order() {
    runtime().block_on(async {
        let (tx, mut rx) = channel(DEFAULT_CHANNEL_CAPACITY);
        let worker = new_worker("fresh", CONTINUOUS);
        let outcomes = VecDeque::from(vec![
            listing(&["bash"]),
            listing(&["bash", "fresh"]),
            listing(&["init"]),
        ]);
        let task = tokio::spawn(host(worker, tx, outcomes, Arc::new(AtomicUsize::new(0))));

        assert_eq!(rx.recv().await, Some(event("fresh", false)));
        assert_eq!(rx.recv().await, Some(event("fresh", true)));
        assert_eq!(rx.recv().await, Some(event("fresh", false)));
        assert_eq!(rx.recv().await, None);
        let (_, reason) = task.await.expect("the worker task ends normally");
        assert_eq!(reason, StopReason::StopRequested);
    });
}

#[test]
fn order_holds_when_the_channel_is_smaller_than_the_run() {
    runtime().block_on(async {
        let (tx, mut rx) = channel(2);
        let worker = new_worker("fresh", CONTINUOUS);
        let mut outcomes = VecDeque::new();
        let mut expected = Vec::new();
        for round in 0..25 {
            let up = round % 3 == 0;
            outcomes.push_back(if up { listing(&["fresh"]) } else { listing(&["other"]) });
            expected.push(event("fresh", up));
        }
        let task = tokio::spawn(host(worker, tx, outcomes, Arc::new(AtomicUsize::new(0))));

        let mut received = Vec::new();
        while let Some(event) = rx.recv().await {
            received.push(event);
            let_others_run().await;
        }
        assert_eq!(received, expected);
        task.await.expect("the worker task ends normally");
    });
}

#[test]
fn second_send_waits_until_first_event_is_received() {
    runtime().block_on(async {
        let (tx, mut rx) = channel(1);
        let worker = new_worker("fresh", CONTINUOUS);
        let outcomes = VecDeque::from(vec![listing(&["fresh"]), listing(&[])]);
        let delivered = Arc::new(AtomicUsize::new(0));
        let task = tokio::spawn(host(worker, tx, outcomes, delivered.clone()));

        let_others_run().await;
        assert_eq!(delivered.load(Ordering::SeqCst), 1);
        assert!(!task.is_finished());
        let_others_run().await;
        assert_eq!(delivered.load(Ordering::SeqCst), 1);

        assert_eq!(rx.recv().await, Some(event("fresh", true)));
        let_others_run().await;
        assert_eq!(delivered.load(Ordering::SeqCst), 2);

        assert_eq!(rx.recv().await, Some(event("fresh", false)));
        assert_eq!(rx.recv().await, None);
        task.await.expect("the worker task ends normally");
    });
}

#[test]
fn full_channel_drops_nothing() {
    runtime().block_on(async {
        let (tx, mut rx) = channel(1);
        let worker = new_worker("fresh", CONTINUOUS);
        let outcomes = VecDeque::from(vec![
            listing(&["fresh"]),
            listing(&["fresh"]),
            listing(&[]),
            listing(&["fresh"]),
        ]);
        let task = tokio::spawn(host(worker, tx, outcomes, Arc::new(AtomicUsize::new(0))));
        let_others_run().await;

        let mut received = Vec::new();
        while let Some(event) = rx.recv().await {
            received.push(event);
        }
        assert_eq!(
            received,
            vec![
                event("fresh", true),
                event("fresh", true),
                event("fresh", false),
                event("fresh", true)
            ]
        );
        task.await.expect("the worker task ends normally");
    });
}

#[test]
fn failed_sample_puts_nothing_on_the_channel() {
    runtime().block_on(async {
        let (tx, mut rx) = channel(DEFAULT_CHANNEL_CAPACITY);
        let worker = new_worker("fresh", Mode::SingleShot);
        let outcomes = VecDeque::from(vec![Err(String::from("permission denied"))]);
        let task = tokio::spawn(host(worker, tx, outcomes, Arc::new(AtomicUsize::new(0))));

        assert_eq!(rx.recv().await, None);
        let (_, reason) = task.await.expect("the worker task ends normally");
        assert_eq!(
            reason.outcome(),
            Err(MonitorError::SampleError {
                reason: String::from("permission denied")
            })
        );
    });
}

#[test]
fn failed_samples_are_skipped_in_continuous_mode() {
    runtime().block_on(async {
        let (tx, mut rx) = channel(DEFAULT_CHANNEL_CAPACITY);
        let worker = new_worker("fresh", CONTINUOUS);
        let outcomes = VecDeque::from(vec![
            Err(String::from("busy")),
            listing(&["fresh"]),
            Err(String::from("busy")),
            Err(String::from("busy")),
            listing(&[]),
        ]);
        let delivered = Arc::new(AtomicUsize::new(0));
        let task = tokio::spawn(host(worker, tx, outcomes, delivered.clone()));

        assert_eq!(rx.recv().await, Some(event("fresh", true)));
        assert_eq!(rx.recv().await, Some(event("fresh", false)));
        assert_eq!(rx.recv().await, None);
        assert_eq!(delivered.load(Ordering::SeqCst), 2);
        task.await.expect("the worker task ends normally");
    });
}

#[test]
fn dropped_receiver_stops_a_worker_that_awaits_a_send() {
    runtime().block_on(async {
        let (tx, rx) = channel(1);
        let worker = new_worker("fresh", CONTINUOUS);
        let outcomes = VecDeque::from(vec![
            listing(&["fresh"]),
            listing(&["fresh"]),
            listing(&["fresh"]),
        ]);
        let delivered = Arc::new(AtomicUsize::new(0));
        let task = tokio::spawn(host(worker, tx, outcomes, delivered.clone()));

        let_others_run().await;
        assert_eq!(delivered.load(Ordering::SeqCst), 1);
        assert!(!task.is_finished());

        drop(rx);
        let ended = timeout(Duration::from_secs(5), task).await;
        let (worker, reason) = ended
            .expect("the worker ends in bounded time")
            .expect("the worker task ends normally");
        assert_eq!(reason, StopReason::ChannelClosed);
        assert_eq!(reason.outcome(), Err(MonitorError::ChannelClosed));
        assert!(worker.is_stopped());
        assert_eq!(delivered.load(Ordering::SeqCst), 1);
    });
}

#[test]
fn closed_receiver_stops_the_worker_at_its_next_send() {
    runtime().block_on(async {
        let (tx, mut rx) = channel(DEFAULT_CHANNEL_CAPACITY);
        rx.close();
        let worker = new_worker("fresh", Mode::SingleShot);
        let outcomes = VecDeque::from(vec![listing(&["fresh"])]);
        let (_, reason) = host(worker, tx, outcomes, Arc::new(AtomicUsize::new(0))).await;
        assert_eq!(reason, StopReason::ChannelClosed);
        assert_eq!(rx.try_recv(), Err(TryRecvError::Disconnected));
    });
}

#[test]
fn dropped_sender_ends_the_stream_for_the_consumer() {
    runtime().block_on(async {
        let (tx, mut rx) = channel::<PulseEvent>(DEFAULT_CHANNEL_CAPACITY);
        drop(tx);
        let ended = timeout(Duration::from_secs(5), rx.recv()).await;
        assert_eq!(ended.expect("the receive ends in bounded time"), None);
    });
}
