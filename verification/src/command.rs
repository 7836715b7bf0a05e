//! The orchestrator: one worker per manifest entry, their completions
//! multiplexed against the interrupt source.
//!
//! The caller spawns a worker for each download of the plan, then feeds
//! `Orchestrator::step` whichever comes first, a worker's completion or an
//! interrupt, and performs the action that comes back, until it is told to
//! shut down.

use vstd::prelude::*;
use crate::cancel::{CancelKind, CancelMessage};
use crate::manifest::Manifest;
use crate::paths::{destination_of, destination_path};
use crate::state::{DownloadError, WorkerStatus};

verus! {

/// What one worker produced.
#[derive(Debug, PartialEq, Eq)]
pub struct WorkerOutput {
    pub url: String,
    /// The path the download was written to.
    pub path: String,
    pub result: Result<WorkerStatus, DownloadError>,
}

/// What the caller observed. Workers are identified by the position of their
/// download in the manifest.
#[derive(Clone, Copy, Debug, PartialEq, Eq)]
pub enum OrchestratorEvent {
    /// The worker returned this result.
    WorkerReturned(usize, Result<WorkerStatus, DownloadError>),
    /// The worker ended without returning.
    WorkerAborted(usize),
    /// An interrupt arrived.
    Interrupt,
    /// No worker is running any more.
    Drained,
}

/// What the caller does next.
#[derive(Clone, Copy, Debug, PartialEq, Eq)]
pub enum OrchestratorAction {
    /// Log that the download completed.
    LogCompleted(usize),
    /// Log that the download was cancelled.
    LogCancelled(usize),
    /// Log that the download failed.
    LogFailed(usize, DownloadError),
    /// Publish this message to every subscribed worker, and keep waiting.
    Broadcast(CancelMessage),
    /// Leave the loop, close the database handle and wait for its task.
    ShutDown,
    /// Nothing to do; keep waiting.
    Ignore,
}

/// The worker and the result that an event reports, if it reports one. A
/// worker that ended without returning counts as failed.
pub open spec fn reported(event: OrchestratorEvent) -> Option<
    (usize, Result<WorkerStatus, DownloadError>),
> {
    match event {
        OrchestratorEvent::WorkerReturned(id, result) => Some((id, result)),
        OrchestratorEvent::WorkerAborted(id) => Some((id, Err(DownloadError::Aborted))),
        _ => None,
    }
}

/// The log line for the result of worker `id`.
pub open spec fn log_for(id: usize, result: Result<WorkerStatus, DownloadError>) -> OrchestratorAction {
    match result {
        Ok(WorkerStatus::Completed) => OrchestratorAction::LogCompleted(id),
        Ok(WorkerStatus::Cancelled) => OrchestratorAction::LogCancelled(id),
        Err(error) => OrchestratorAction::LogFailed(id, error),
    }
}

/// The number of workers that have not reported yet.
pub open spec fn pending_of(results: Seq<Option<Result<WorkerStatus, DownloadError>>>) -> nat
    decreases results.len(),
{
    if results.len() == 0 {
        0
    } else {
        pending_of(results.drop_last()) + if results.last() is None {
            1nat
        } else {
            0nat
        }
    }
}

/// The URLs among the first `n` whose worker reported an error, in the order
/// of the manifest.
pub open spec fn failed_of(
    urls: Seq<String>,
    results: Seq<Option<Result<WorkerStatus, DownloadError>>>,
    n: int,
) -> Seq<Seq<char>>
    decreases n,
{
    if n <= 0 {
        Seq::empty()
    } else if results[n - 1] is Some && results[n - 1].unwrap() is Err {
        failed_of(urls, results, n - 1).push(urls[n - 1]@)
    } else {
        failed_of(urls, results, n - 1)
    }
}

/// The results with each of the first `n` slots that is still empty filled
/// with the error of a worker that ended without returning.
pub open spec fn closed_out(
    results: Seq<Option<Result<WorkerStatus, DownloadError>>>,
    n: int,
) -> Seq<Option<Result<WorkerStatus, DownloadError>>> {
    Seq::new(
        results.len(),
        |i: int|
            if i < n && results[i] is None {
                Some(Err(DownloadError::Aborted))
            } else {
                results[i]
            },
    )
}

/// The downloads of one run and what their workers reported.
#[derive(Debug)]
pub struct Orchestrator {
    /// The URL of each download, in the order of the manifest.
    pub urls: Vec<String>,
    /// The destination path of each download.
    pub paths: Vec<String>,
    /// The result each worker reported, `None` while it has not.
    pub results: Vec<Option<Result<WorkerStatus, DownloadError>>>,
    /// Whether the loop was left.
    pub stopped: bool,
}

impl Orchestrator {
    /// There is one URL, one path and one result slot for each download, and
    /// once the loop was left every slot holds a result.
    pub open spec fn wf(self) -> bool {
        &&& self.urls@.len() == self.results@.len()
        &&& self.paths@.len() == self.results@.len()
        &&& self.stopped ==> forall|i: int|
            0 <= i < self.results@.len() ==> (#[trigger] self.results@[i]) is Some
    }

    /// Whether the three lists have one length.
    pub open spec fn aligned(self) -> bool {
        self.urls@.len() == self.results@.len() && self.paths@.len() == self.results@.len()
    }

    pub fn is_aligned(&self) -> (r: bool)
        ensures
            r == self.aligned(),
    {
        self.urls.len() == self.results.len() && self.paths.len() == self.results.len()
    }

    /// Whether a report from worker `id` is taken: the loop is running, the
    /// worker exists and has not reported before.
    pub open spec fn accepts(self, id: usize) -> bool {
        !self.stopped && id < self.results@.len() && self.results@[id as int] is None
    }

    /// The action that answers `event`.
    pub open spec fn action_for(self, event: OrchestratorEvent) -> OrchestratorAction {
        if self.stopped {
            OrchestratorAction::Ignore
        } else {
            match event {
                OrchestratorEvent::Interrupt => OrchestratorAction::Broadcast(
                    CancelMessage { kind: CancelKind::Interrupt },
                ),
                OrchestratorEvent::Drained => OrchestratorAction::ShutDown,
                _ => {
                    let (id, result) = reported(event).unwrap();
                    if self.accepts(id) {
                        log_for(id, result)
                    } else {
                        OrchestratorAction::Ignore
                    }
                },
            }
        }
    }

    /// The results after `event`: a report that is taken fills its slot, and
    /// when no worker is running any more, a worker that never reported
    /// counts as one that ended without returning.
    pub open spec fn results_after(self, event: OrchestratorEvent) -> Seq<
        Option<Result<WorkerStatus, DownloadError>>,
    > {
        match reported(event) {
            Some((id, result)) if self.accepts(id) => self.results@.update(id as int, Some(result)),
            None if event == OrchestratorEvent::Drained && !self.stopped => closed_out(
                self.results@,
                self.results@.len() as int,
            ),
            _ => self.results@,
        }
    }

    /// Plans one worker for each download of the manifest, in its order, and
    /// resolves each destination below `out_dir`.
    pub fn new(manifest: &Manifest, out_dir: &str) -> (orchestrator: Orchestrator)
        ensures
            orchestrator.wf(),
            !orchestrator.stopped,
            orchestrator.results@.len() == manifest.downloads@.len(),
            forall|i: int|
                #![trigger orchestrator.results@[i]]
                #![trigger orchestrator.urls@[i]]
                #![trigger orchestrator.paths@[i]]
                0 <= i < manifest.downloads@.len() ==> {
                    &&& orchestrator.urls@[i]@ == manifest.downloads@[i].url@
                    &&& orchestrator.paths@[i]@ == destination_of(out_dir@, manifest.downloads@[i])
                    &&& orchestrator.results@[i] is None
                },
    {
        let mut urls: Vec<String> = Vec::new();
        let mut paths: Vec<String> = Vec::new();
        let mut results: Vec<Option<Result<WorkerStatus, DownloadError>>> = Vec::new();
        let mut i: usize = 0;
        while i < manifest.downloads.len()
            invariant
                i <= manifest.downloads@.len(),
                urls@.len() == i,
                paths@.len() == i,
                results@.len() == i,
                forall|k: int|
                    #![trigger results@[k]]
                    #![trigger urls@[k]]
                    #![trigger paths@[k]]
                    0 <= k < i ==> {
                        &&& urls@[k]@ == manifest.downloads@[k].url@
                        &&& paths@[k]@ == destination_of(out_dir@, manifest.downloads@[k])
                        &&& results@[k] is None
                    },
            decreases manifest.downloads@.len() - i,
        {
            let entry = &manifest.downloads[i];
            urls.push(entry.url.clone());
            paths.push(destination_path(out_dir, entry));
            results.push(None);
            i = i + 1;
        }
        Orchestrator { urls, paths, results, stopped: false }
    }

    /// The number of downloads.
    pub fn len(&self) -> (n: usize)
        ensures
            n == self.results@.len(),
    {
        self.results.len()
    }

    /// Answers one event. A worker's first report fills its slot and is
    /// logged; an interrupt is broadcast and never ends the loop; the loop
    /// ends when no worker is running any more.
    pub fn step(&mut self, event: OrchestratorEvent) -> (action: OrchestratorAction)
        ensures
            old(self).wf() ==> final(self).wf(),
            final(self).urls == old(self).urls,
            final(self).paths == old(self).paths,
            action == old(self).action_for(event),
            final(self).results@ == old(self).results_after(event),
            final(self).stopped == (old(self).stopped || event == OrchestratorEvent::Drained),
    {
        if self.stopped {
            return OrchestratorAction::Ignore;
        }
        match event {
            OrchestratorEvent::WorkerReturned(id, result) => self.record(id, result),
            OrchestratorEvent::WorkerAborted(id) => self.record(id, Err(DownloadError::Aborted)),
            OrchestratorEvent::Interrupt => OrchestratorAction::Broadcast(
                CancelMessage::new(CancelKind::Interrupt),
            ),
            OrchestratorEvent::Drained => {
                self.close_out();
                self.stopped = true;
                OrchestratorAction::ShutDown
            },
        }
    }

    fn close_out(&mut self)
        ensures
            final(self).urls == old(self).urls,
            final(self).paths == old(self).paths,
            final(self).stopped == old(self).stopped,
            final(self).results@ == closed_out(old(self).results@, old(self).results@.len() as int),
    {
        let mut i: usize = 0;
        assert(self.results@ =~= closed_out(old(self).results@, 0));
        while i < self.results.len()
            invariant
                i <= self.results@.len(),
                self.urls == old(self).urls,
                self.paths == old(self).paths,
                self.stopped == old(self).stopped,
                self.results@ == closed_out(old(self).results@, i as int),
            decreases self.results@.len() - i,
        {
            if self.results[i].is_none() {
                self.results.set(i, Some(Err(DownloadError::Aborted)));
            }
            i = i + 1;
            assert(self.results@ =~= closed_out(old(self).results@, i as int));
        }
    }

    fn record(&mut self, id: usize, result: Result<WorkerStatus, DownloadError>) -> (action:
        OrchestratorAction)
        requires
            !old(self).stopped,
        ensures
            final(self).urls == old(self).urls,
            final(self).paths == old(self).paths,
            final(self).stopped == old(self).stopped,
            old(self).accepts(id) ==> action == log_for(id, result) && final(self).results@ == old(
                self,
            ).results@.update(id as int, Some(result)),
            !old(self).accepts(id) ==> action == OrchestratorAction::Ignore && final(self).results@
                == old(self).results@,
    {
        if id >= self.results.len() {
            return OrchestratorAction::Ignore;
        }
        if self.results[id].is_some() {
            return OrchestratorAction::Ignore;
        }
        self.results.set(id, Some(result));
        match result {
            Ok(WorkerStatus::Completed) => OrchestratorAction::LogCompleted(id),
            Ok(WorkerStatus::Cancelled) => OrchestratorAction::LogCancelled(id),
            Err(error) => OrchestratorAction::LogFailed(id, error),
        }
    }

    /// Counts the workers that have not reported yet.
    pub fn pending(&self) -> (n: usize)
        ensures
            n == pending_of(self.results@),
    {
        let mut n: usize = 0;
        let mut i: usize = 0;
        while i < self.results.len()
            invariant
                i <= self.results@.len(),
                n <= i,
                n == pending_of(self.results@.take(i as int)),
            decreases self.results@.len() - i,
        {
            proof {
                assert(self.results@.take(i + 1).drop_last() =~= self.results@.take(i as int));
                assert(self.results@.take(i + 1).last() == self.results@[i as int]);
            }
            if self.results[i].is_none() {
                n = n + 1;
            }
            i = i + 1;
        }
        proof {
            assert(self.results@.take(i as int) =~= self.results@);
        }
        n
    }

    /// What worker `id` produced, once it has reported.
    pub fn output(&self, id: usize) -> (output: Option<WorkerOutput>)
        requires
            self.aligned(),
        ensures
            output is Some <==> id < self.results@.len() && self.results@[id as int] is Some,
            output is Some ==> {
                &&& output.unwrap().url@ == self.urls@[id as int]@
                &&& output.unwrap().path@ == self.paths@[id as int]@
                &&& Some(output.unwrap().result) == self.results@[id as int]
            },
    {
        if id >= self.results.len() {
            return None;
        }
        match self.results[id] {
            Some(result) => Some(
                WorkerOutput { url: self.urls[id].clone(), path: self.paths[id].clone(), result },
            ),
            None => None,
        }
    }

    /// The URLs whose worker reported an error, in the order of the manifest.
    pub fn failed(&self) -> (urls: Vec<String>)
        requires
            self.aligned(),
        ensures
            crate::manifest::texts(urls@) == failed_of(
                self.urls@,
                self.results@,
                self.results@.len() as int,
            ),
    {
        let mut urls: Vec<String> = Vec::new();
        let mut i: usize = 0;
        while i < self.results.len()
            invariant
                self.aligned(),
                i <= self.results@.len(),
                crate::manifest::texts(urls@) == failed_of(self.urls@, self.results@, i as int),
            decreases self.results@.len() - i,
        {
            let failed = match self.results[i] {
                Some(Err(_)) => true,
                _ => false,
            };
            if failed {
                let ghost before = urls@;
                urls.push(self.urls[i].clone());
                assert(crate::manifest::texts(urls@) =~= crate::manifest::texts(before).push(
                    self.urls@[i as int]@,
                ));
            }
            i = i + 1;
        }
        urls
    }
}

/// A report that is taken leaves exactly one worker fewer pending.
pub proof fn lemma_report_counts_once(
    results: Seq<Option<Result<WorkerStatus, DownloadError>>>,
    id: int,
    result: Result<WorkerStatus, DownloadError>,
)
    requires
        0 <= id < results.len(),
        results[id] is None,
    ensures
        pending_of(results.update(id, Some(result))) + 1 == pending_of(results),
    decreases results.len(),
{
    let after = results.update(id, Some(result));
    if id == results.len() - 1 {
        assert(after.drop_last() =~= results.drop_last());
    } else {
        assert(after.drop_last() =~= results.drop_last().update(id, Some(result)));
        lemma_report_counts_once(results.drop_last(), id, result);
    }
}

/// Once the loop was left there is exactly one outcome for each download
/// that was submitted, under that download's URL: none is lost and none is
/// pending.
pub proof fn lemma_one_outcome_per_download(orchestrator: Orchestrator)
    requires
        orchestrator.wf(),
        orchestrator.stopped,
    ensures
        orchestrator.urls@.len() == orchestrator.results@.len(),
        forall|i: int|
            0 <= i < orchestrator.results@.len() ==> (#[trigger] orchestrator.results@[i]) is Some,
        pending_of(orchestrator.results@) == 0,
{
    lemma_all_reported_none_pending(orchestrator.results@);
}

/// Where every slot holds a result, no worker is pending.
pub proof fn lemma_all_reported_none_pending(
    results: Seq<Option<Result<WorkerStatus, DownloadError>>>,
)
    requires
        forall|i: int| 0 <= i < results.len() ==> (#[trigger] results[i]) is Some,
    ensures
        pending_of(results) == 0,
    decreases results.len(),
{
    if results.len() > 0 {
        assert forall|i: int| 0 <= i < results.drop_last().len() implies (
        #[trigger] results.drop_last()[i]) is Some by {
            assert(results[i] is Some);
        }
        lemma_all_reported_none_pending(results.drop_last());
        assert(results[results.len() - 1] is Some);
    }
}

/// A slot that holds a result keeps it: no event replaces an outcome.
pub proof fn lemma_outcome_is_kept(orchestrator: Orchestrator, event: OrchestratorEvent, id: int)
    requires
        0 <= id < orchestrator.results@.len(),
        orchestrator.results@[id] is Some,
    ensures
        orchestrator.results_after(event).len() == orchestrator.results@.len(),
        orchestrator.results_after(event)[id] == orchestrator.results@[id],
{
}

/// With no worker pending, every download has its outcome: as many outcomes
/// as downloads, one in each slot.
pub proof fn lemma_drained_all_reported(results: Seq<Option<Result<WorkerStatus, DownloadError>>>)
    requires
        pending_of(results) == 0,
    ensures
        forall|i: int| 0 <= i < results.len() ==> (#[trigger] results[i]) is Some,
    decreases results.len(),
{
    if results.len() > 0 {
        lemma_drained_all_reported(results.drop_last());
        assert forall|i: int| 0 <= i < results.len() implies (#[trigger] results[i]) is Some by {
            if i < results.len() - 1 {
                assert(results.drop_last()[i] is Some);
            }
        }
    }
}

/// A URL is among the failed exactly when the worker of a download with that
/// URL reported an error.
pub proof fn lemma_failed_members(
    urls: Seq<String>,
    results: Seq<Option<Result<WorkerStatus, DownloadError>>>,
    n: int,
    url: Seq<char>,
)
    requires
        0 <= n <= results.len(),
        urls.len() == results.len(),
    ensures
        failed_of(urls, results, n).contains(url) <==> exists|i: int|
            0 <= i < n && (#[trigger] results[i]) is Some && results[i].unwrap() is Err && urls[i]@
                == url,
    decreases n,
{
    if n > 0 {
        lemma_failed_members(urls, results, n - 1, url);
        let rest = failed_of(urls, results, n - 1);
        let here = results[n - 1] is Some && results[n - 1].unwrap() is Err;
        if here {
            let all = rest.push(urls[n - 1]@);
            assert(all[all.len() - 1] == urls[n - 1]@);
            if all.contains(url) {
                let k = choose|k: int| 0 <= k < all.len() && all[k] == url;
                if k < rest.len() {
                    assert(rest[k] == url);
                    assert(rest.contains(url));
                } else {
                    assert(results[n - 1] is Some);
                }
            }
            if rest.contains(url) {
                let k = choose|k: int| 0 <= k < rest.len() && rest[k] == url;
                assert(all[k] == url);
            }
        }
        if exists|i: int|
            0 <= i < n && (#[trigger] results[i]) is Some && results[i].unwrap() is Err && urls[i]@
                == url {
            let i = choose|i: int|
                0 <= i < n && (#[trigger] results[i]) is Some && results[i].unwrap() is Err
                    && urls[i]@ == url;
            if i < n - 1 {
                assert(rest.contains(url));
            }
        }
    }
}

} // verus!
