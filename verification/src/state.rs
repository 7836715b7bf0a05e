//! The states a download passes through and the results a transfer can have.

use vstd::prelude::*;

verus! {

/// The state of one download as recorded in the state store.
#[derive(Clone, Copy, Debug, PartialEq, Eq, Structural)]
pub enum DownloadState {
    /// The download is in progress.
    Downloading,
    /// The download is complete.
    Completed,
    /// The download failed.
    Failed,
    /// The download was interrupted.
    Interrupted,
}

/// How a transfer that did not fail came to its end.
#[derive(Clone, Copy, Debug, PartialEq, Eq, Structural)]
pub enum WorkerStatus {
    Completed,
    Cancelled,
}

/// Why a download did not produce a `WorkerStatus`.
#[derive(Clone, Copy, Debug, PartialEq, Eq, Structural)]
pub enum DownloadError {
    /// The network request could not be made or answered.
    Request,
    /// The response body reported an error while streaming.
    Stream,
    /// The destination file could not be created, written or closed.
    File,
    /// The state store no longer accepts or acknowledges updates.
    StoreUnavailable,
    /// The worker ended without returning.
    Aborted,
}

/// The state recorded for a transfer that ended with `result`.
pub open spec fn terminal_of(result: Result<WorkerStatus, DownloadError>) -> DownloadState {
    match result {
        Ok(WorkerStatus::Completed) => DownloadState::Completed,
        Ok(WorkerStatus::Cancelled) => DownloadState::Interrupted,
        Err(_) => DownloadState::Failed,
    }
}

impl DownloadState {
    /// Completed, Failed and Interrupted are terminal; Downloading is not.
    pub open spec fn terminal(self) -> bool {
        self != DownloadState::Downloading
    }

    pub fn is_terminal(self) -> (r: bool)
        ensures
            r == self.terminal(),
    {
        match self {
            DownloadState::Downloading => false,
            _ => true,
        }
    }

    /// Whether a store that holds `self` for a download may next hold `next`:
    /// only a terminal state may follow Downloading, and nothing follows a
    /// terminal state.
    pub open spec fn precedes(self, next: DownloadState) -> bool {
        self == DownloadState::Downloading && next.terminal()
    }

    pub fn may_become(self, next: DownloadState) -> (r: bool)
        ensures
            r == self.precedes(next),
    {
        match self {
            DownloadState::Downloading => next.is_terminal(),
            _ => false,
        }
    }
}

/// Maps the result of a transfer to the terminal state to record for it.
pub fn terminal_state(result: Result<WorkerStatus, DownloadError>) -> (state: DownloadState)
    ensures
        state == terminal_of(result),
        state.terminal(),
{
    match result {
        Ok(WorkerStatus::Completed) => DownloadState::Completed,
        Ok(WorkerStatus::Cancelled) => DownloadState::Interrupted,
        Err(_) => DownloadState::Failed,
    }
}

/// All three terminal states are absorbing: none precedes any state.
pub proof fn lemma_terminal_absorbing(state: DownloadState, next: DownloadState)
    requires
        state.terminal(),
    ensures
        !state.precedes(next),
{
}

} // verus!
