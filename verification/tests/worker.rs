use download_manager::db::{update_event, update_outcome, DatabaseAction, DatabaseMessage, DatabaseTask, DbTaskDead};
use download_manager::state::{DownloadError, DownloadState, WorkerStatus};
use download_manager::worker::{Worker, WorkerAction, WorkerEvent, WorkerPhase};

fn drive(events: &[WorkerEvent]) -> (Worker, Vec<WorkerAction>) {
    let mut worker = Worker::new();
    let mut actions = Vec::new();
    for event in events {
        actions.push(worker.step(*event));
    }
    (worker, actions)
}

#[test]
fn worker_records_downloading_then_completed() {
    let (worker, actions) = drive(&[
        WorkerEvent::Start,
        WorkerEvent::StoreAcknowledged,
        WorkerEvent::TransferDone(Ok(WorkerStatus::Completed)),
        WorkerEvent::StoreAcknowledged,
    ]);
    assert_eq!(
        actions,
        vec![
            WorkerAction::Record(DownloadState::Downloading),
            WorkerAction::BeginTransfer,
            WorkerAction::Record(DownloadState::Completed),
            WorkerAction::Finish(Ok(WorkerStatus::Completed)),
        ]
    );
    assert_eq!(worker.recorded, vec![DownloadState::Downloading, DownloadState::Completed]);
    assert_eq!(worker.result(), Some(Ok(WorkerStatus::Completed)));
}

#[test]
fn worker_new_is_idle() {
    let worker = Worker::new();
    assert_eq!(worker.phase, WorkerPhase::Idle);
    assert!(worker.token.is_armed());
    assert!(worker.recorded.is_empty());
    assert_eq!(worker.result(), None);
}

#[test]
fn worker_cancelled_records_interrupted() {
    let (worker, actions) = drive(&[
        WorkerEvent::Start,
        WorkerEvent::StoreAcknowledged,
        WorkerEvent::CancelNotified,
        WorkerEvent::CancelNotified,
        WorkerEvent::TransferDone(Ok(WorkerStatus::Cancelled)),
        WorkerEvent::StoreAcknowledged,
    ]);
    assert_eq!(
        actions,
        vec![
            WorkerAction::Record(DownloadState::Downloading),
            WorkerAction::BeginTransfer,
            WorkerAction::FireToken,
            WorkerAction::Ignore,
            WorkerAction::Record(DownloadState::Interrupted),
            WorkerAction::Finish(Ok(WorkerStatus::Cancelled)),
        ]
    );
    assert_eq!(worker.recorded, vec![DownloadState::Downloading, DownloadState::Interrupted]);
}

#[test]
fn worker_failed_transfer_records_failed() {
    let (worker, actions) = drive(&[
        WorkerEvent::Start,
        WorkerEvent::StoreAcknowledged,
        WorkerEvent::TransferDone(Err(DownloadError::Request)),
        WorkerEvent::StoreAcknowledged,
    ]);
    assert_eq!(actions[2], WorkerAction::Record(DownloadState::Failed));
    assert_eq!(actions[3], WorkerAction::Finish(Err(DownloadError::Request)));
    assert_eq!(worker.recorded, vec![DownloadState::Downloading, DownloadState::Failed]);
}

#[test]
fn worker_cancel_before_transfer_still_fires_token() {
    let (worker, actions) = drive(&[WorkerEvent::CancelNotified, WorkerEvent::Start]);
    assert_eq!(
        actions,
        vec![WorkerAction::FireToken, WorkerAction::Record(DownloadState::Downloading)]
    );
    assert!(!worker.token.is_armed());
    assert_eq!(worker.phase, WorkerPhase::RecordingStart);
}

#[test]
fn worker_cancel_after_transfer_is_noop() {
    let (mut worker, _) = drive(&[
        WorkerEvent::Start,
        WorkerEvent::StoreAcknowledged,
        WorkerEvent::TransferDone(Ok(WorkerStatus::Completed)),
    ]);
    assert_eq!(worker.step(WorkerEvent::CancelNotified), WorkerAction::Ignore);
    assert_eq!(worker.phase, WorkerPhase::RecordingEnd(Ok(WorkerStatus::Completed)));
    assert!(worker.token.is_armed());
    assert_eq!(
        worker.step(WorkerEvent::StoreAcknowledged),
        WorkerAction::Finish(Ok(WorkerStatus::Completed))
    );
    assert_eq!(worker.step(WorkerEvent::CancelNotified), WorkerAction::Ignore);
    assert_eq!(worker.phase, WorkerPhase::Finished(Ok(WorkerStatus::Completed)));
    assert_eq!(worker.recorded, vec![DownloadState::Downloading, DownloadState::Completed]);
}

#[test]
fn worker_store_failure_is_its_result() {
    let (worker, actions) = drive(&[WorkerEvent::Start, WorkerEvent::StoreUnavailable]);
    assert_eq!(actions[1], WorkerAction::Finish(Err(DownloadError::StoreUnavailable)));
    assert_eq!(worker.recorded, vec![DownloadState::Downloading]);

    let (worker, actions) = drive(&[
        WorkerEvent::Start,
        WorkerEvent::StoreAcknowledged,
        WorkerEvent::TransferDone(Ok(WorkerStatus::Completed)),
        WorkerEvent::StoreUnavailable,
    ]);
    assert_eq!(actions[3], WorkerAction::Finish(Err(DownloadError::StoreUnavailable)));
    assert_eq!(worker.result(), Some(Err(DownloadError::StoreUnavailable)));
}

#[test]
fn worker_ignores_events_out_of_turn() {
    let (worker, actions) = drive(&[
        WorkerEvent::StoreAcknowledged,
        WorkerEvent::TransferDone(Ok(WorkerStatus::Completed)),
        WorkerEvent::Start,
        WorkerEvent::Start,
        WorkerEvent::TransferDone(Ok(WorkerStatus::Completed)),
    ]);
    assert_eq!(
        actions,
        vec![
            WorkerAction::Ignore,
            WorkerAction::Ignore,
            WorkerAction::Record(DownloadState::Downloading),
            WorkerAction::Ignore,
            WorkerAction::Ignore,
        ]
    );
    assert_eq!(worker.recorded, vec![DownloadState::Downloading]);
}

#[test]
fn database_applies_and_acknowledges() {
    let mut task = DatabaseTask::new();
    assert!(task.is_running());
    assert_eq!(task.len(), 0);
    assert_eq!(task.state_of(7), None);
    let action = task.handle(Some(DatabaseMessage::UpdateState(7, DownloadState::Downloading)));
    assert_eq!(action, DatabaseAction::Acknowledge);
    assert_eq!(task.state_of(7), Some(DownloadState::Downloading));
    let action = task.handle(Some(DatabaseMessage::UpdateState(7, DownloadState::Failed)));
    assert_eq!(action, DatabaseAction::Acknowledge);
    assert_eq!(task.state_of(7), Some(DownloadState::Failed));
    assert_eq!(task.len(), 1);
}

#[test]
fn database_stops_when_senders_are_gone() {
    let mut task = DatabaseTask::new();
    task.handle(Some(DatabaseMessage::UpdateState(1, DownloadState::Completed)));
    assert_eq!(task.handle(None), DatabaseAction::ShutDown);
    assert!(!task.is_running());
    assert_eq!(task.state_of(1), Some(DownloadState::Completed));
    // Stopped for good: nothing is applied afterwards.
    let action = task.handle(Some(DatabaseMessage::UpdateState(2, DownloadState::Downloading)));
    assert_eq!(action, DatabaseAction::ShutDown);
    assert_eq!(task.state_of(2), None);
    assert_eq!(task.len(), 1);
}

#[test]
fn database_run_applies_queue_in_order() {
    let mut task = DatabaseTask::new();
    task.run(&vec![
        DatabaseMessage::UpdateState(0, DownloadState::Downloading),
        DatabaseMessage::UpdateState(1, DownloadState::Downloading),
        DatabaseMessage::UpdateState(1, DownloadState::Interrupted),
        DatabaseMessage::UpdateState(0, DownloadState::Completed),
    ]);
    assert!(!task.is_running());
    assert_eq!(task.len(), 2);
    assert_eq!(task.state_of(0), Some(DownloadState::Completed));
    assert_eq!(task.state_of(1), Some(DownloadState::Interrupted));
}

#[test]
fn database_run_on_empty_queue_stops() {
    let mut task = DatabaseTask::new();
    task.run(&Vec::new());
    assert!(!task.is_running());
    assert_eq!(task.len(), 0);
}

#[test]
fn update_outcome_needs_delivery_and_acknowledgement() {
    assert_eq!(update_outcome(true, true), Ok(()));
    assert_eq!(update_outcome(true, false), Err(DbTaskDead {}));
    assert_eq!(update_outcome(false, true), Err(DbTaskDead {}));
    assert_eq!(update_outcome(false, false), Err(DbTaskDead {}));
    assert_eq!(update_event(Ok(())), WorkerEvent::StoreAcknowledged);
    assert_eq!(update_event(Err(DbTaskDead {})), WorkerEvent::StoreUnavailable);
}

#[test]
fn db_task_dead_message() {
    assert_eq!(DbTaskDead {}.message(), "Database task died");
}
