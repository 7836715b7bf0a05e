//! The transfer engine: one request streamed into one file, with periodic
//! progress reports and cooperative cancellation.
//!
//! The caller sends the request, then feeds each thing it observes to
//! `Transfer::step` and performs the action that comes back.

use vstd::prelude::*;
use crate::state::{DownloadError, WorkerStatus};

verus! {

/// The period of the progress timer, in seconds.
pub const PROGRESS_PERIOD_SECS: u64 = 1;

/// Where a transfer stands.
#[derive(Clone, Copy, Debug, PartialEq, Eq)]
pub enum TransferPhase {
    /// The request was sent; the response has not arrived.
    Connecting,
    /// The response arrived; the destination file is being created.
    Opening,
    /// Waiting for the next chunk, timer tick or cancellation.
    Streaming,
    /// A chunk is being written to the file.
    Writing,
    /// Cancellation was observed; the file is being flushed and closed.
    Closing,
    /// The transfer returned.
    Done(Result<WorkerStatus, DownloadError>),
}

/// What the caller observed.
#[derive(Clone, Copy, Debug, PartialEq, Eq)]
pub enum TransferEvent {
    ResponseReady,
    RequestFailed,
    FileOpened,
    /// Creating, writing or closing the file failed.
    FileFailed,
    /// A chunk of this many bytes arrived.
    Chunk(u64),
    StreamFailed,
    EndOfData,
    ChunkWritten,
    /// The one-second timer ticked.
    Tick,
    /// The cancellation token fired.
    CancelFired,
    FileClosed,
}

/// What the caller does next.
#[derive(Clone, Copy, Debug, PartialEq, Eq)]
pub enum TransferAction {
    /// Create (or truncate) the destination file.
    OpenFile,
    /// Start a timer with this period in seconds, consume its immediate
    /// first tick, and wait.
    StartTimer(u64),
    /// Write the chunk that just arrived.
    WriteChunk,
    /// Wait for the next chunk, tick or cancellation.
    Wait,
    /// Report the elapsed time and this many bytes downloaded so far.
    ReportProgress(u64),
    /// Flush and close the destination file.
    CloseFile,
    /// Return this result.
    Finish(Result<WorkerStatus, DownloadError>),
    /// The event is not awaited in this phase; nothing changes.
    Ignore,
}

/// The phase that follows `phase` on `event`.
pub open spec fn next_phase(phase: TransferPhase, event: TransferEvent) -> TransferPhase {
    match (phase, event) {
        (TransferPhase::Connecting, TransferEvent::ResponseReady) => TransferPhase::Opening,
        (TransferPhase::Connecting, TransferEvent::RequestFailed) => TransferPhase::Done(
            Err(DownloadError::Request),
        ),
        (TransferPhase::Opening, TransferEvent::FileOpened) => TransferPhase::Streaming,
        (TransferPhase::Opening, TransferEvent::FileFailed) => TransferPhase::Done(
            Err(DownloadError::File),
        ),
        (TransferPhase::Streaming, TransferEvent::Chunk(_)) => TransferPhase::Writing,
        (TransferPhase::Streaming, TransferEvent::StreamFailed) => TransferPhase::Done(
            Err(DownloadError::Stream),
        ),
        (TransferPhase::Streaming, TransferEvent::EndOfData) => TransferPhase::Done(
            Ok(WorkerStatus::Completed),
        ),
        (TransferPhase::Streaming, TransferEvent::CancelFired) => TransferPhase::Closing,
        (TransferPhase::Writing, TransferEvent::ChunkWritten) => TransferPhase::Streaming,
        (TransferPhase::Writing, TransferEvent::FileFailed) => TransferPhase::Done(
            Err(DownloadError::File),
        ),
        (TransferPhase::Closing, TransferEvent::FileClosed) => TransferPhase::Done(
            Ok(WorkerStatus::Cancelled),
        ),
        (TransferPhase::Closing, TransferEvent::FileFailed) => TransferPhase::Done(
            Err(DownloadError::File),
        ),
        _ => phase,
    }
}

/// The bytes counted after `event` in `phase`, `bytes` having been counted
/// before: only a chunk that arrives while streaming adds to the count.
pub open spec fn next_bytes(phase: TransferPhase, bytes: int, event: TransferEvent) -> int {
    match (phase, event) {
        (TransferPhase::Streaming, TransferEvent::Chunk(n)) => bytes + n,
        _ => bytes,
    }
}

/// The action that answers `event` in `phase` with `bytes` counted so far.
pub open spec fn action_for(phase: TransferPhase, bytes: int, event: TransferEvent) -> TransferAction {
    match (phase, event) {
        (TransferPhase::Connecting, TransferEvent::ResponseReady) => TransferAction::OpenFile,
        (TransferPhase::Opening, TransferEvent::FileOpened) => TransferAction::StartTimer(
            PROGRESS_PERIOD_SECS,
        ),
        (TransferPhase::Streaming, TransferEvent::Chunk(_)) => TransferAction::WriteChunk,
        (TransferPhase::Streaming, TransferEvent::Tick) => TransferAction::ReportProgress(
            bytes as u64,
        ),
        (TransferPhase::Streaming, TransferEvent::CancelFired) => TransferAction::CloseFile,
        (TransferPhase::Writing, TransferEvent::ChunkWritten) => TransferAction::Wait,
        _ => match next_phase(phase, event) {
            TransferPhase::Done(result) if !(phase is Done) => TransferAction::Finish(result),
            _ => TransferAction::Ignore,
        },
    }
}

/// The phase reached from `phase` after all of `events`, in order.
pub open spec fn phase_after(phase: TransferPhase, events: Seq<TransferEvent>) -> TransferPhase
    decreases events.len(),
{
    if events.len() == 0 {
        phase
    } else {
        next_phase(phase_after(phase, events.drop_last()), events.last())
    }
}

/// One transfer.
#[derive(Clone, Copy, Debug, PartialEq, Eq)]
pub struct Transfer {
    pub phase: TransferPhase,
    pub bytes_downloaded: u64,
}

impl Transfer {
    /// A transfer whose request has just been sent.
    pub fn new() -> (transfer: Transfer)
        ensures
            transfer.phase == TransferPhase::Connecting,
            transfer.bytes_downloaded == 0,
    {
        Transfer { phase: TransferPhase::Connecting, bytes_downloaded: 0 }
    }

    /// Whether `event` can be counted without leaving the range of the byte
    /// counter.
    pub open spec fn accepts(self, event: TransferEvent) -> bool {
        next_bytes(self.phase, self.bytes_downloaded as int, event) <= u64::MAX
    }

    /// Tests whether `event` can be counted.
    pub fn can_count(&self, event: TransferEvent) -> (r: bool)
        ensures
            r == self.accepts(event),
    {
        match (self.phase, event) {
            (TransferPhase::Streaming, TransferEvent::Chunk(n)) => n <= u64::MAX
                - self.bytes_downloaded,
            _ => true,
        }
    }

    /// The result, once the transfer has returned.
    pub fn result(&self) -> (r: Option<Result<WorkerStatus, DownloadError>>)
        ensures
            r == (match self.phase {
                TransferPhase::Done(result) => Some(result),
                _ => None,
            }),
    {
        match self.phase {
            TransferPhase::Done(result) => Some(result),
            _ => None,
        }
    }

    /// Answers one event.
    pub fn step(self, event: TransferEvent) -> (next: (Transfer, TransferAction))
        requires
            self.accepts(event),
        ensures
            next.0.phase == next_phase(self.phase, event),
            next.0.bytes_downloaded == next_bytes(self.phase, self.bytes_downloaded as int, event),
            next.1 == action_for(self.phase, self.bytes_downloaded as int, event),
    {
        let bytes = self.bytes_downloaded;
        match (self.phase, event) {
            (TransferPhase::Connecting, TransferEvent::ResponseReady) => (
                Transfer { phase: TransferPhase::Opening, bytes_downloaded: bytes },
                TransferAction::OpenFile,
            ),
            (TransferPhase::Connecting, TransferEvent::RequestFailed) => self.finish(
                Err(DownloadError::Request),
            ),
            (TransferPhase::Opening, TransferEvent::FileOpened) => (
                Transfer { phase: TransferPhase::Streaming, bytes_downloaded: bytes },
                TransferAction::StartTimer(PROGRESS_PERIOD_SECS),
            ),
            (TransferPhase::Opening, TransferEvent::FileFailed) => self.finish(
                Err(DownloadError::File),
            ),
            (TransferPhase::Streaming, TransferEvent::Chunk(n)) => (
                Transfer { phase: TransferPhase::Writing, bytes_downloaded: bytes + n },
                TransferAction::WriteChunk,
            ),
            (TransferPhase::Streaming, TransferEvent::StreamFailed) => self.finish(
                Err(DownloadError::Stream),
            ),
            (TransferPhase::Streaming, TransferEvent::EndOfData) => self.finish(
                Ok(WorkerStatus::Completed),
            ),
            (TransferPhase::Streaming, TransferEvent::Tick) => (
                self,
                TransferAction::ReportProgress(bytes),
            ),
            (TransferPhase::Streaming, TransferEvent::CancelFired) => (
                Transfer { phase: TransferPhase::Closing, bytes_downloaded: bytes },
                TransferAction::CloseFile,
            ),
            (TransferPhase::Writing, TransferEvent::ChunkWritten) => (
                Transfer { phase: TransferPhase::Streaming, bytes_downloaded: bytes },
                TransferAction::Wait,
            ),
            (TransferPhase::Writing, TransferEvent::FileFailed) => self.finish(
                Err(DownloadError::File),
            ),
            (TransferPhase::Closing, TransferEvent::FileClosed) => self.finish(
                Ok(WorkerStatus::Cancelled),
            ),
            (TransferPhase::Closing, TransferEvent::FileFailed) => self.finish(
                Err(DownloadError::File),
            ),
            _ => (self, TransferAction::Ignore),
        }
    }

    fn finish(self, result: Result<WorkerStatus, DownloadError>) -> (next: (
        Transfer,
        TransferAction,
    ))
        ensures
            next.0.phase == TransferPhase::Done(result),
            next.0.bytes_downloaded == self.bytes_downloaded,
            next.1 == TransferAction::Finish(result),
    {
        (
            Transfer { phase: TransferPhase::Done(result), bytes_downloaded: self.bytes_downloaded },
            TransferAction::Finish(result),
        )
    }
}

/// A transfer that has returned stays as it is: every later event is ignored.
pub proof fn lemma_done_is_final(
    result: Result<WorkerStatus, DownloadError>,
    events: Seq<TransferEvent>,
)
    ensures
        phase_after(TransferPhase::Done(result), events) == TransferPhase::Done(result),
    decreases events.len(),
{
    if events.len() > 0 {
        lemma_done_is_final(result, events.drop_last());
    }
}

/// Whether a transfer in `phase` has observed its cancellation, or has
/// returned something other than `Completed`.
pub open spec fn past_completion(phase: TransferPhase) -> bool {
    match phase {
        TransferPhase::Closing => true,
        TransferPhase::Done(result) => result != Ok::<WorkerStatus, DownloadError>(
            WorkerStatus::Completed,
        ),
        _ => false,
    }
}

/// Once a transfer has observed its cancellation it never reports
/// `Completed`, whatever happens afterwards: it ends as `Cancelled` or with
/// an error, and only after the file was closed.
pub proof fn lemma_cancelled_never_completes(phase: TransferPhase, events: Seq<TransferEvent>)
    requires
        past_completion(phase),
    ensures
        past_completion(phase_after(phase, events)),
        phase_after(phase, events) != TransferPhase::Done(Ok(WorkerStatus::Completed)),
    decreases events.len(),
{
    if events.len() > 0 {
        lemma_cancelled_never_completes(phase, events.drop_last());
    }
}

/// `Cancelled` is reported only once the file was flushed and closed.
pub proof fn lemma_cancelled_only_after_close(phase: TransferPhase, event: TransferEvent)
    requires
        !(phase is Done),
        next_phase(phase, event) == TransferPhase::Done(Ok(WorkerStatus::Cancelled)),
    ensures
        phase == TransferPhase::Closing,
        event == TransferEvent::FileClosed,
{
}

/// The byte count never goes down, and grows by exactly the length of each
/// chunk taken.
pub proof fn lemma_bytes_grow(phase: TransferPhase, bytes: int, event: TransferEvent)
    ensures
        next_bytes(phase, bytes, event) >= bytes,
        action_for(phase, bytes, event) == TransferAction::WriteChunk ==> event is Chunk
            && next_bytes(phase, bytes, event) == bytes + event->Chunk_0,
        action_for(phase, bytes, event) != TransferAction::WriteChunk ==> next_bytes(
            phase,
            bytes,
            event,
        ) == bytes,
{
}

/// `Completed` is reported only for the end of the body seen while streaming.
pub proof fn lemma_completed_only_at_end_of_data(phase: TransferPhase, event: TransferEvent)
    requires
        !(phase is Done),
        next_phase(phase, event) == TransferPhase::Done(Ok(WorkerStatus::Completed)),
    ensures
        phase == TransferPhase::Streaming,
        event == TransferEvent::EndOfData,
{
}

} // verus!
