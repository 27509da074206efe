use dehashed_rs::{Worker, WorkerAction, WorkerEvent, QUEUE_CAPACITY, REQUEST_DELAY_MS};

#[test]
fn worker_runs_requests_one_after_another() {
    let mut w = Worker::new();
    assert_eq!(w.on_event(WorkerEvent::Received), WorkerAction::StartSearch);
    assert_eq!(w.on_event(WorkerEvent::Received), WorkerAction::Ignore);
    assert_eq!(
        w.on_event(WorkerEvent::SearchDone),
        WorkerAction::DeliverThenPause(REQUEST_DELAY_MS)
    );
    assert_eq!(w.on_event(WorkerEvent::Received), WorkerAction::Ignore);
    assert_eq!(w.on_event(WorkerEvent::PauseOver), WorkerAction::Receive);
    assert_eq!(w.on_event(WorkerEvent::Received), WorkerAction::StartSearch);
    assert_eq!(
        w.on_event(WorkerEvent::SearchDone),
        WorkerAction::DeliverThenPause(200)
    );
}

#[test]
fn worker_exits_when_queue_closes() {
    let mut w = Worker::new();
    assert_eq!(w.on_event(WorkerEvent::QueueClosed), WorkerAction::Exit);
    assert_eq!(w.on_event(WorkerEvent::Received), WorkerAction::Ignore);
}

#[test]
fn scheduler_constants() {
    assert_eq!(QUEUE_CAPACITY, 5);
    assert_eq!(REQUEST_DELAY_MS, 200);
}
