use download_manager::cancel::{CancelKind, CancelMessage, CancelToken};
use download_manager::state::{terminal_state, DownloadError, DownloadState, WorkerStatus};
use download_manager::transfer::{Transfer, TransferAction, TransferEvent, TransferPhase};

fn drive(events: &[TransferEvent]) -> (Transfer, Vec<TransferAction>) {
    let mut transfer = Transfer::new();
    let mut actions = Vec::new();
    for event in events {
        let (next, action) = transfer.step(*event);
        transfer = next;
        actions.push(action);
    }
    (transfer, actions)
}

#[test]
fn transfer_completes_and_counts_bytes() {
    let (transfer, actions) = drive(&[
        TransferEvent::ResponseReady,
        TransferEvent::FileOpened,
        TransferEvent::Chunk(10),
        TransferEvent::ChunkWritten,
        TransferEvent::Tick,
        TransferEvent::Chunk(32),
        TransferEvent::ChunkWritten,
        TransferEvent::Tick,
        TransferEvent::EndOfData,
    ]);
    assert_eq!(
        actions,
        vec![
            TransferAction::OpenFile,
            TransferAction::StartTimer(1),
            TransferAction::WriteChunk,
            TransferAction::Wait,
            TransferAction::ReportProgress(10),
            TransferAction::WriteChunk,
            TransferAction::Wait,
            TransferAction::ReportProgress(42),
            TransferAction::Finish(Ok(WorkerStatus::Completed)),
        ]
    );
    assert_eq!(transfer.bytes_downloaded, 42);
    assert_eq!(transfer.result(), Some(Ok(WorkerStatus::Completed)));
}

#[test]
fn transfer_starts_connecting_with_no_bytes() {
    let transfer = Transfer::new();
    assert_eq!(transfer.phase, TransferPhase::Connecting);
    assert_eq!(transfer.bytes_downloaded, 0);
    assert_eq!(transfer.result(), None);
}

#[test]
fn transfer_cancelled_closes_file_before_returning() {
    let (transfer, actions) = drive(&[
        TransferEvent::ResponseReady,
        TransferEvent::FileOpened,
        TransferEvent::Chunk(5),
        TransferEvent::ChunkWritten,
        TransferEvent::CancelFired,
    ]);
    assert_eq!(actions[4], TransferAction::CloseFile);
    assert_eq!(transfer.phase, TransferPhase::Closing);
    assert_eq!(transfer.result(), None);
    let (transfer, action) = transfer.step(TransferEvent::FileClosed);
    assert_eq!(action, TransferAction::Finish(Ok(WorkerStatus::Cancelled)));
    assert_eq!(transfer.result(), Some(Ok(WorkerStatus::Cancelled)));
    assert_eq!(transfer.bytes_downloaded, 5);
}

#[test]
fn transfer_cancelled_never_completes_later() {
    let (transfer, _) = drive(&[
        TransferEvent::ResponseReady,
        TransferEvent::FileOpened,
        TransferEvent::CancelFired,
    ]);
    // Data that arrives after the cancellation is not taken.
    let (transfer, action) = transfer.step(TransferEvent::EndOfData);
    assert_eq!(action, TransferAction::Ignore);
    let (transfer, action) = transfer.step(TransferEvent::Chunk(7));
    assert_eq!(action, TransferAction::Ignore);
    assert_eq!(transfer.bytes_downloaded, 0);
    let (transfer, _) = transfer.step(TransferEvent::FileClosed);
    let (transfer, action) = transfer.step(TransferEvent::EndOfData);
    assert_eq!(action, TransferAction::Ignore);
    assert_eq!(transfer.result(), Some(Ok(WorkerStatus::Cancelled)));
}

#[test]
fn transfer_errors_are_terminal() {
    let (transfer, actions) = drive(&[TransferEvent::RequestFailed]);
    assert_eq!(actions, vec![TransferAction::Finish(Err(DownloadError::Request))]);
    assert_eq!(transfer.result(), Some(Err(DownloadError::Request)));

    let (transfer, actions) = drive(&[TransferEvent::ResponseReady, TransferEvent::FileFailed]);
    assert_eq!(actions[1], TransferAction::Finish(Err(DownloadError::File)));
    assert_eq!(transfer.result(), Some(Err(DownloadError::File)));

    let (transfer, actions) = drive(&[
        TransferEvent::ResponseReady,
        TransferEvent::FileOpened,
        TransferEvent::StreamFailed,
    ]);
    assert_eq!(actions[2], TransferAction::Finish(Err(DownloadError::Stream)));
    assert_eq!(transfer.result(), Some(Err(DownloadError::Stream)));

    let (_, actions) = drive(&[
        TransferEvent::ResponseReady,
        TransferEvent::FileOpened,
        TransferEvent::Chunk(3),
        TransferEvent::FileFailed,
    ]);
    assert_eq!(actions[3], TransferAction::Finish(Err(DownloadError::File)));

    let (_, actions) = drive(&[
        TransferEvent::ResponseReady,
        TransferEvent::FileOpened,
        TransferEvent::CancelFired,
        TransferEvent::FileFailed,
    ]);
    assert_eq!(actions[3], TransferAction::Finish(Err(DownloadError::File)));
}

#[test]
fn transfer_ignores_events_not_awaited() {
    let (transfer, actions) = drive(&[
        TransferEvent::Tick,
        TransferEvent::Chunk(9),
        TransferEvent::CancelFired,
        TransferEvent::EndOfData,
    ]);
    assert_eq!(actions, vec![TransferAction::Ignore; 4]);
    assert_eq!(transfer, Transfer::new());

    let (done, _) = drive(&[TransferEvent::RequestFailed]);
    let (after, action) = done.step(TransferEvent::ResponseReady);
    assert_eq!(action, TransferAction::Ignore);
    assert_eq!(after, done);
}

#[test]
fn transfer_tick_does_not_end_the_loop() {
    let (transfer, actions) = drive(&[
        TransferEvent::ResponseReady,
        TransferEvent::FileOpened,
        TransferEvent::Tick,
        TransferEvent::Tick,
    ]);
    assert_eq!(actions[2], TransferAction::ReportProgress(0));
    assert_eq!(actions[3], TransferAction::ReportProgress(0));
    assert_eq!(transfer.phase, TransferPhase::Streaming);
}

#[test]
fn transfer_counts_up_to_the_limit_of_its_counter() {
    let (transfer, _) = drive(&[
        TransferEvent::ResponseReady,
        TransferEvent::FileOpened,
        TransferEvent::Chunk(u64::MAX - 1),
        TransferEvent::ChunkWritten,
    ]);
    assert!(transfer.can_count(TransferEvent::Chunk(1)));
    assert!(!transfer.can_count(TransferEvent::Chunk(2)));
    assert!(transfer.can_count(TransferEvent::Tick));
    let (transfer, _) = transfer.step(TransferEvent::Chunk(1));
    assert_eq!(transfer.bytes_downloaded, u64::MAX);
    // A chunk that is not taken is not counted.
    assert!(transfer.can_count(TransferEvent::Chunk(5)));
}

#[test]
fn token_fires_once() {
    let mut token = CancelToken::new();
    assert!(token.is_armed());
    assert!(token.trigger());
    assert!(!token.is_armed());
    assert!(!token.trigger());
    assert!(!token.trigger());
}

#[test]
fn cancel_message_carries_kind() {
    assert_eq!(CancelMessage::new(CancelKind::Interrupt).kind, CancelKind::Interrupt);
}

#[test]
fn terminal_state_of_each_result() {
    assert_eq!(terminal_state(Ok(WorkerStatus::Completed)), DownloadState::Completed);
    assert_eq!(terminal_state(Ok(WorkerStatus::Cancelled)), DownloadState::Interrupted);
    assert_eq!(terminal_state(Err(DownloadError::Request)), DownloadState::Failed);
    assert_eq!(terminal_state(Err(DownloadError::Stream)), DownloadState::Failed);
    assert_eq!(terminal_state(Err(DownloadError::File)), DownloadState::Failed);
    assert_eq!(terminal_state(Err(DownloadError::StoreUnavailable)), DownloadState::Failed);
    assert_eq!(terminal_state(Err(DownloadError::Aborted)), DownloadState::Failed);
}

#[test]
fn terminal_states_are_absorbing() {
    let all = [
        DownloadState::Downloading,
        DownloadState::Completed,
        DownloadState::Failed,
        DownloadState::Interrupted,
    ];
    assert!(!DownloadState::Downloading.is_terminal());
    for state in all {
        assert_eq!(DownloadState::Downloading.may_become(state), state.is_terminal());
        for terminal in &all[1..] {
            assert!(terminal.is_terminal());
            assert!(!terminal.may_become(state));
        }
    }
}
