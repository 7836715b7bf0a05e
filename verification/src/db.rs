//! A really basic database that keeps the state of each download in memory.
//!
//! The database is owned by one task. Workers reach it only by messages, each
//! of which is acknowledged once applied; the task stops when no sender is
//! left.

use vstd::prelude::*;
use std::collections::HashMap;
use crate::state::{terminal_of, DownloadError, DownloadState, WorkerStatus};
use crate::worker::{Worker, WorkerEvent, WorkerPhase};

verus! {

broadcast use vstd::std_specs::hash::group_hash_axioms;

/// Messages that can be sent to the database task.
#[derive(Clone, Copy, Debug, PartialEq, Eq)]
pub enum DatabaseMessage {
    /// Update the state of the download with this identifier.
    UpdateState(u64, DownloadState),
}

/// What the database task does after it has looked at its queue.
#[derive(Clone, Copy, Debug, PartialEq, Eq, Structural)]
pub enum DatabaseAction {
    /// Signal the sender that the update was applied, and receive again.
    Acknowledge,
    /// Leave the loop.
    ShutDown,
}

/// The update could not be delivered or was never acknowledged.
#[derive(Clone, Copy, Debug, PartialEq, Eq, Structural)]
pub struct DbTaskDead {}

impl DbTaskDead {
    pub fn message(&self) -> (text: String)
        ensures
            text@ == "Database task died"@,
    {
        "Database task died".to_owned()
    }
}

/// The mapping after `messages` were applied to `states`, in order.
pub open spec fn applied(states: Map<u64, DownloadState>, messages: Seq<DatabaseMessage>) -> Map<
    u64,
    DownloadState,
>
    decreases messages.len(),
{
    if messages.len() == 0 {
        states
    } else {
        match messages.last() {
            DatabaseMessage::UpdateState(id, state) => applied(states, messages.drop_last()).insert(
                id,
                state,
            ),
        }
    }
}

/// The single owner of the mapping from download to state.
#[derive(Debug)]
pub struct DatabaseTask {
    states: HashMap<u64, DownloadState>,
    running: bool,
}

impl View for DatabaseTask {
    type V = Map<u64, DownloadState>;

    closed spec fn view(&self) -> Map<u64, DownloadState> {
        self.states@
    }
}

impl DatabaseTask {
    /// Whether the task is still in its loop.
    pub closed spec fn running(self) -> bool {
        self.running
    }

    pub fn new() -> (task: DatabaseTask)
        ensures
            task@ == Map::<u64, DownloadState>::empty(),
            task.running(),
    {
        DatabaseTask { states: HashMap::new(), running: true }
    }

    pub fn is_running(&self) -> (r: bool)
        ensures
            r == self.running(),
    {
        self.running
    }

    /// The state last recorded for `id`, if any.
    pub fn state_of(&self, id: u64) -> (state: Option<DownloadState>)
        ensures
            state == (if self@.contains_key(id) {
                Some(self@[id])
            } else {
                None
            }),
    {
        match self.states.get(&id) {
            Some(state) => Some(*state),
            None => None,
        }
    }

    /// The number of downloads with a recorded state.
    pub fn len(&self) -> (n: usize)
        ensures
            n == self@.len(),
    {
        self.states.len()
    }

    /// Answers what the queue yielded: a message, or `None` once every sender
    /// is gone. An update is applied and acknowledged; the end of the queue
    /// stops the task for good.
    pub fn handle(&mut self, received: Option<DatabaseMessage>) -> (action: DatabaseAction)
        ensures
            match received {
                Some(DatabaseMessage::UpdateState(id, state)) if old(self).running() => {
                    &&& action == DatabaseAction::Acknowledge
                    &&& final(self)@ == old(self)@.insert(id, state)
                    &&& final(self).running()
                },
                _ => {
                    &&& action == DatabaseAction::ShutDown
                    &&& final(self)@ == old(self)@
                    &&& !final(self).running()
                },
            },
    {
        if !self.running {
            return DatabaseAction::ShutDown;
        }
        match received {
            Some(DatabaseMessage::UpdateState(id, state)) => {
                self.states.insert(id, state);
                DatabaseAction::Acknowledge
            },
            None => {
                self.running = false;
                DatabaseAction::ShutDown
            },
        }
    }

    /// Runs the task over a queue whose senders are gone once it is empty:
    /// applies every message in order, then stops.
    pub fn run(&mut self, queue: &Vec<DatabaseMessage>)
        requires
            old(self).running(),
        ensures
            final(self)@ == applied(old(self)@, queue@),
            !final(self).running(),
    {
        let mut i: usize = 0;
        while i < queue.len()
            invariant
                i <= queue.len(),
                self.running(),
                self@ == applied(old(self)@, queue@.take(i as int)),
            decreases queue.len() - i,
        {
            proof {
                assert(queue@.take(i + 1).drop_last() =~= queue@.take(i as int));
                assert(queue@.take(i + 1).last() == queue@[i as int]);
            }
            self.handle(Some(queue[i]));
            i = i + 1;
        }
        proof {
            assert(queue@.take(i as int) =~= queue@);
        }
        self.handle(None);
    }
}

/// The result of one update as its sender sees it: it succeeded only if the
/// message was delivered and its acknowledgement came back.
pub fn update_outcome(delivered: bool, acknowledged: bool) -> (outcome: Result<(), DbTaskDead>)
    ensures
        outcome is Ok <==> delivered && acknowledged,
{
    if delivered && acknowledged {
        Ok(())
    } else {
        Err(DbTaskDead {  })
    }
}

/// The event a worker is given for the result of its update.
pub fn update_event(outcome: Result<(), DbTaskDead>) -> (event: WorkerEvent)
    ensures
        event == (match outcome {
            Ok(_) => WorkerEvent::StoreAcknowledged,
            Err(_) => WorkerEvent::StoreUnavailable,
        }),
{
    match outcome {
        Ok(_) => WorkerEvent::StoreAcknowledged,
        Err(_) => WorkerEvent::StoreUnavailable,
    }
}

/// Recording `Downloading` and then a terminal state for a download leaves
/// the terminal state in the mapping, and every other entry as it was.
pub proof fn lemma_two_updates(states: Map<u64, DownloadState>, id: u64, last: DownloadState)
    ensures
        applied(
            states,
            seq![
                DatabaseMessage::UpdateState(id, DownloadState::Downloading),
                DatabaseMessage::UpdateState(id, last),
            ],
        ) == states.insert(id, last),
{
    let first = DatabaseMessage::UpdateState(id, DownloadState::Downloading);
    let second = DatabaseMessage::UpdateState(id, last);
    let both = seq![first, second];
    assert(both.drop_last() =~= seq![first]);
    assert(seq![first].drop_last() =~= Seq::<DatabaseMessage>::empty());
    assert(both.last() == second);
    assert(seq![first].last() == first);
    reveal_with_fuel(applied, 3);
    assert(states.insert(id, DownloadState::Downloading).insert(id, last) =~= states.insert(
        id,
        last,
    ));
}

/// The messages that carry `states`, in order, as updates of download `id`.
pub open spec fn updates_for(id: u64, states: Seq<DownloadState>) -> Seq<DatabaseMessage> {
    Seq::new(states.len(), |i: int| DatabaseMessage::UpdateState(id, states[i]))
}

/// When a worker has returned the result of its transfer, the updates it
/// sent leave the terminal state of that result in the mapping: `Completed`
/// for a completed transfer, `Interrupted` for a cancelled one, `Failed` for
/// a failed one.
pub proof fn lemma_store_ends_in_terminal_state(
    states: Map<u64, DownloadState>,
    id: u64,
    worker: Worker,
    result: Result<WorkerStatus, DownloadError>,
)
    requires
        worker.wf(),
        worker.phase == WorkerPhase::Finished(result),
        result != Err::<WorkerStatus, DownloadError>(DownloadError::StoreUnavailable),
    ensures
        applied(states, updates_for(id, worker.recorded@)) == states.insert(id, terminal_of(result)),
        terminal_of(result).terminal(),
{
    lemma_two_updates(states, id, terminal_of(result));
    assert(updates_for(id, worker.recorded@) =~= seq![
        DatabaseMessage::UpdateState(id, DownloadState::Downloading),
        DatabaseMessage::UpdateState(id, terminal_of(result)),
    ]);
}

} // verus!
