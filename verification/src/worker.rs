//! The worker: the life of one download from the first state update to the
//! last.
//!
//! The caller feeds `Worker::step` what it observes (the store's answers, the
//! transfer's return, a cancellation notification) and performs the action
//! that comes back.

use vstd::prelude::*;
use crate::cancel::CancelToken;
use crate::state::{terminal_of, terminal_state, DownloadError, DownloadState, WorkerStatus};

verus! {

/// Where a worker stands.
#[derive(Clone, Copy, Debug, PartialEq, Eq)]
pub enum WorkerPhase {
    /// Nothing has happened yet.
    Idle,
    /// `Downloading` was sent to the store and is not acknowledged yet.
    RecordingStart,
    /// The transfer is running.
    Transferring,
    /// The transfer returned this result; the terminal state was sent to the
    /// store and is not acknowledged yet.
    RecordingEnd(Result<WorkerStatus, DownloadError>),
    /// The worker returned this result.
    Finished(Result<WorkerStatus, DownloadError>),
}

/// What the caller observed.
#[derive(Clone, Copy, Debug, PartialEq, Eq)]
pub enum WorkerEvent {
    /// The worker was started.
    Start,
    /// The store acknowledged the last update.
    StoreAcknowledged,
    /// The last update could not be sent, or was never acknowledged.
    StoreUnavailable,
    /// The transfer returned.
    TransferDone(Result<WorkerStatus, DownloadError>),
    /// A cancellation notification arrived on the broadcast subscription.
    CancelNotified,
}

/// What the caller does next.
#[derive(Clone, Copy, Debug, PartialEq, Eq)]
pub enum WorkerAction {
    /// Send this state to the store and wait for the acknowledgement.
    Record(DownloadState),
    /// Run the transfer.
    BeginTransfer,
    /// Fire the transfer's cancellation token.
    FireToken,
    /// Return this result.
    Finish(Result<WorkerStatus, DownloadError>),
    /// Nothing to do; keep waiting.
    Ignore,
}

/// Whether a cancellation notification seen in `phase` still concerns the
/// transfer: it does until the transfer has returned.
pub open spec fn transfer_pending(phase: WorkerPhase) -> bool {
    phase is Idle || phase is RecordingStart || phase is Transferring
}

/// The phase that follows `phase` on `event`.
pub open spec fn next_phase(phase: WorkerPhase, event: WorkerEvent) -> WorkerPhase {
    match (phase, event) {
        (WorkerPhase::Idle, WorkerEvent::Start) => WorkerPhase::RecordingStart,
        (WorkerPhase::RecordingStart, WorkerEvent::StoreAcknowledged) => WorkerPhase::Transferring,
        (WorkerPhase::RecordingStart, WorkerEvent::StoreUnavailable) => WorkerPhase::Finished(
            Err(DownloadError::StoreUnavailable),
        ),
        (WorkerPhase::Transferring, WorkerEvent::TransferDone(result)) => WorkerPhase::RecordingEnd(
            result,
        ),
        (WorkerPhase::RecordingEnd(result), WorkerEvent::StoreAcknowledged) => WorkerPhase::Finished(
            result,
        ),
        (WorkerPhase::RecordingEnd(_), WorkerEvent::StoreUnavailable) => WorkerPhase::Finished(
            Err(DownloadError::StoreUnavailable),
        ),
        _ => phase,
    }
}

/// The action that answers `event` in `phase`, the token being armed or not.
pub open spec fn action_for(phase: WorkerPhase, armed: bool, event: WorkerEvent) -> WorkerAction {
    match (phase, event) {
        (WorkerPhase::Idle, WorkerEvent::Start) => WorkerAction::Record(DownloadState::Downloading),
        (WorkerPhase::RecordingStart, WorkerEvent::StoreAcknowledged) => WorkerAction::BeginTransfer,
        (WorkerPhase::Transferring, WorkerEvent::TransferDone(result)) => WorkerAction::Record(
            terminal_of(result),
        ),
        (_, WorkerEvent::CancelNotified) => if armed && transfer_pending(phase) {
            WorkerAction::FireToken
        } else {
            WorkerAction::Ignore
        },
        _ => match next_phase(phase, event) {
            WorkerPhase::Finished(result) if !(phase is Finished) => WorkerAction::Finish(result),
            _ => WorkerAction::Ignore,
        },
    }
}

/// The states sent to the store after `action`, `recorded` having been sent
/// before.
pub open spec fn recorded_after(recorded: Seq<DownloadState>, action: WorkerAction) -> Seq<
    DownloadState,
> {
    match action {
        WorkerAction::Record(state) => recorded.push(state),
        _ => recorded,
    }
}

/// One worker.
#[derive(Debug)]
pub struct Worker {
    pub phase: WorkerPhase,
    pub token: CancelToken,
    /// Every state sent to the store so far, in order.
    pub recorded: Vec<DownloadState>,
}

impl Worker {
    /// The phase and the states sent to the store agree: nothing before the
    /// start, `Downloading` alone while the transfer has not returned, and
    /// `Downloading` followed by the one terminal state of the transfer's
    /// result from then on. A worker that returned because the store failed
    /// had sent `Downloading`, and at most one terminal state after it.
    pub open spec fn wf(self) -> bool {
        match self.phase {
            WorkerPhase::Idle => self.recorded@ == Seq::<DownloadState>::empty(),
            WorkerPhase::RecordingStart | WorkerPhase::Transferring => self.recorded@
                == seq![DownloadState::Downloading],
            WorkerPhase::RecordingEnd(result) => self.recorded@
                == seq![DownloadState::Downloading, terminal_of(result)],
            WorkerPhase::Finished(result) => {
                ||| self.recorded@ == seq![DownloadState::Downloading, terminal_of(result)]
                ||| {
                    &&& result == Err::<WorkerStatus, DownloadError>(
                        DownloadError::StoreUnavailable,
                    )
                    &&& 1 <= self.recorded@.len() <= 2
                    &&& self.recorded@[0] == DownloadState::Downloading
                    &&& self.recorded@.len() == 2 ==> self.recorded@[1].terminal()
                }
            },
        }
    }

    pub fn new() -> (worker: Worker)
        ensures
            worker.wf(),
            worker.phase == WorkerPhase::Idle,
            worker.token.armed,
            worker.recorded@.len() == 0,
    {
        Worker { phase: WorkerPhase::Idle, token: CancelToken::new(), recorded: Vec::new() }
    }

    /// The result, once the worker has returned.
    pub fn result(&self) -> (r: Option<Result<WorkerStatus, DownloadError>>)
        ensures
            r == (match self.phase {
                WorkerPhase::Finished(result) => Some(result),
                _ => None,
            }),
    {
        match self.phase {
            WorkerPhase::Finished(result) => Some(result),
            _ => None,
        }
    }

    /// Answers one event. The token is spent by the first notification that
    /// fires it and by nothing else; a notification that arrives once the
    /// transfer has returned changes nothing.
    pub fn step(&mut self, event: WorkerEvent) -> (action: WorkerAction)
        ensures
            old(self).wf() ==> final(self).wf(),
            action == action_for(old(self).phase, old(self).token.armed, event),
            final(self).phase == next_phase(old(self).phase, event),
            final(self).token.armed == (old(self).token.armed && action != WorkerAction::FireToken),
            final(self).recorded@ == recorded_after(old(self).recorded@, action),
    {
        match (self.phase, event) {
            (WorkerPhase::Idle, WorkerEvent::Start) => {
                self.phase = WorkerPhase::RecordingStart;
                self.recorded.push(DownloadState::Downloading);
                assert(old(self).wf() ==> self.recorded@ =~= seq![DownloadState::Downloading]);
                WorkerAction::Record(DownloadState::Downloading)
            },
            (WorkerPhase::RecordingStart, WorkerEvent::StoreAcknowledged) => {
                self.phase = WorkerPhase::Transferring;
                WorkerAction::BeginTransfer
            },
            (WorkerPhase::RecordingStart, WorkerEvent::StoreUnavailable) => {
                let result = Err(DownloadError::StoreUnavailable);
                self.phase = WorkerPhase::Finished(result);
                WorkerAction::Finish(result)
            },
            (WorkerPhase::Transferring, WorkerEvent::TransferDone(result)) => {
                let state = terminal_state(result);
                self.phase = WorkerPhase::RecordingEnd(result);
                self.recorded.push(state);
                assert(old(self).wf() ==> self.recorded@ =~= seq![
                    DownloadState::Downloading,
                    state,
                ]);
                WorkerAction::Record(state)
            },
            (WorkerPhase::RecordingEnd(result), WorkerEvent::StoreAcknowledged) => {
                self.phase = WorkerPhase::Finished(result);
                WorkerAction::Finish(result)
            },
            (WorkerPhase::RecordingEnd(transferred), WorkerEvent::StoreUnavailable) => {
                let result = Err(DownloadError::StoreUnavailable);
                assert(terminal_of(transferred).terminal());
                self.phase = WorkerPhase::Finished(result);
                WorkerAction::Finish(result)
            },
            (phase, WorkerEvent::CancelNotified) => {
                let pending = match phase {
                    WorkerPhase::Idle | WorkerPhase::RecordingStart | WorkerPhase::Transferring => true,
                    _ => false,
                };
                if pending && self.token.trigger() {
                    WorkerAction::FireToken
                } else {
                    WorkerAction::Ignore
                }
            },
            _ => WorkerAction::Ignore,
        }
    }
}

/// The states a worker sends to the store for its download are exactly
/// `Downloading` and then one terminal state, that of the transfer's result,
/// whenever the worker returns a result other than the store's failure.
pub proof fn lemma_state_sequence(worker: Worker, result: Result<WorkerStatus, DownloadError>)
    requires
        worker.wf(),
        worker.phase == WorkerPhase::Finished(result),
        result != Err::<WorkerStatus, DownloadError>(DownloadError::StoreUnavailable),
    ensures
        worker.recorded@ == seq![DownloadState::Downloading, terminal_of(result)],
        terminal_of(result).terminal(),
{
}

/// At every moment the states sent so far begin the sequence `Downloading`,
/// terminal state: never more than two, never a terminal state first, never
/// `Downloading` twice.
pub proof fn lemma_state_order(worker: Worker)
    requires
        worker.wf(),
    ensures
        worker.recorded@.len() <= 2,
        worker.recorded@.len() >= 1 ==> worker.recorded@[0] == DownloadState::Downloading,
        worker.recorded@.len() == 2 ==> worker.recorded@[0].precedes(worker.recorded@[1]),
        worker.phase is Finished ==> worker.recorded@.len() >= 1,
{
}

/// A cancellation notification that arrives after the transfer has returned
/// is a no-op: no action, no change of phase, nothing sent to the store.
pub proof fn lemma_late_cancel_is_noop(phase: WorkerPhase, armed: bool)
    requires
        !transfer_pending(phase),
    ensures
        action_for(phase, armed, WorkerEvent::CancelNotified) == WorkerAction::Ignore,
        next_phase(phase, WorkerEvent::CancelNotified) == phase,
        recorded_after(Seq::empty(), action_for(phase, armed, WorkerEvent::CancelNotified))
            == Seq::<DownloadState>::empty(),
{
}

/// A worker that has returned stays as it is: no event changes its result,
/// and none makes it send another state or fire its token.
pub proof fn lemma_finished_is_final(
    result: Result<WorkerStatus, DownloadError>,
    armed: bool,
    event: WorkerEvent,
)
    ensures
        next_phase(WorkerPhase::Finished(result), event) == WorkerPhase::Finished(result),
        action_for(WorkerPhase::Finished(result), armed, event) == WorkerAction::Ignore,
{
}

/// A worker whose transfer was cancelled records `Interrupted`, and one whose
/// transfer completed records `Completed`: the terminal state is that of the
/// transfer's result and of nothing else.
pub proof fn lemma_terminal_follows_transfer(result: Result<WorkerStatus, DownloadError>, armed: bool)
    ensures
        action_for(WorkerPhase::Transferring, armed, WorkerEvent::TransferDone(result))
            == WorkerAction::Record(terminal_of(result)),
        terminal_of(Ok(WorkerStatus::Cancelled)) == DownloadState::Interrupted,
        terminal_of(Ok(WorkerStatus::Completed)) == DownloadState::Completed,
        result is Err ==> terminal_of(result) == DownloadState::Failed,
{
}

/// Cancellation only asks the transfer to end early: a notification never
/// makes the worker return, send a state or change phase.
pub proof fn lemma_cancel_never_returns(phase: WorkerPhase, armed: bool)
    ensures
        next_phase(phase, WorkerEvent::CancelNotified) == phase,
        action_for(phase, armed, WorkerEvent::CancelNotified) == WorkerAction::FireToken
            || action_for(phase, armed, WorkerEvent::CancelNotified) == WorkerAction::Ignore,
{
}

/// A worker returns the result of its transfer only once the store has
/// acknowledged the terminal state recorded for it.
pub proof fn lemma_finish_follows_terminal_update(
    phase: WorkerPhase,
    armed: bool,
    event: WorkerEvent,
    result: Result<WorkerStatus, DownloadError>,
)
    requires
        action_for(phase, armed, event) == WorkerAction::Finish(result),
        result != Err::<WorkerStatus, DownloadError>(DownloadError::StoreUnavailable),
    ensures
        phase == WorkerPhase::RecordingEnd(result),
        event == WorkerEvent::StoreAcknowledged,
{
}

/// A token fires at most once: with the token spent, no notification fires it.
pub proof fn lemma_token_fires_once(phase: WorkerPhase, event: WorkerEvent)
    ensures
        action_for(phase, false, event) != WorkerAction::FireToken,
{
}

} // verus!
