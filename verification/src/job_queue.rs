//! Job numbering so that stale pipeline work can be recognised and dropped.
use vstd::prelude::*;

verus! {

/// Manages a bounded set of active pipeline jobs so stale work can be canceled.
///
/// Each new job gets a unique ID. Completed jobs check whether their ID is
/// still current before committing results (e.g. TTS playback).
pub struct JobQueue {
    current_id: u64,
    last_commit_id: u64,
}

/// The abstract state of a job queue: the next ID to hand out and the newest
/// committed ID.
pub struct JobQueueView {
    pub next_id: u64,
    pub last_commit: u64,
}

impl View for JobQueue {
    type V = JobQueueView;

    closed spec fn view(&self) -> JobQueueView {
        JobQueueView { next_id: self.current_id, last_commit: self.last_commit_id }
    }
}

/// The successor of a job ID; IDs wrap around after `u64::MAX`.
pub open spec fn next_id_after(id: u64) -> u64 {
    if id == u64::MAX { 0 } else { (id + 1) as u64 }
}

/// Whether `job_id` is the most recent job handed out by a queue in state `q`.
pub open spec fn is_latest(q: JobQueueView, job_id: u64) -> bool {
    next_id_after(job_id) == q.next_id
}

/// Whether committing `job_id` succeeds in state `q`: the job must still be the
/// most recent one handed out, and newer than every job committed so far.
pub open spec fn commit_accepts(q: JobQueueView, job_id: u64) -> bool {
    is_latest(q, job_id) && job_id > q.last_commit
}

/// The newest committed ID after trying to commit `job_id` in state `q`.
pub open spec fn commit_after(q: JobQueueView, job_id: u64) -> u64 {
    if commit_accepts(q, job_id) { job_id } else { q.last_commit }
}

/// Whether `job_id` has been superseded when `last_commit` is the newest committed ID.
pub open spec fn stale_under(last_commit: u64, job_id: u64) -> bool {
    job_id < last_commit
}

impl JobQueue {
    /// A queue whose first job will be 1 and that has committed nothing.
    pub fn new() -> (q: Self)
        ensures
            q@.next_id == 1,
            q@.last_commit == 0,
    {
        JobQueue { current_id: 1, last_commit_id: 0 }
    }

    /// Bump to the next job ID and return it.
    pub fn next_job(&mut self) -> (id: u64)
        ensures
            id == old(self)@.next_id,
            final(self)@.next_id == next_id_after(old(self)@.next_id),
            final(self)@.last_commit == old(self)@.last_commit,
    {
        let id = self.current_id;
        self.current_id = if id == u64::MAX { 0 } else { id + 1 };
        id
    }

    /// Try to commit a result for the given job ID.
    /// Returns `true` if this job is still the most recent one (and was not
    /// committed already); a job superseded by a newer one is refused.
    pub fn try_commit(&mut self, job_id: u64) -> (ok: bool)
        ensures
            ok == commit_accepts(old(self)@, job_id),
            final(self)@.last_commit == commit_after(old(self)@, job_id),
            final(self)@.next_id == old(self)@.next_id,
    {
        let latest = if job_id == u64::MAX { self.current_id == 0 } else { self.current_id == job_id + 1 };
        if latest && job_id > self.last_commit_id {
            self.last_commit_id = job_id;
            true
        } else {
            false
        }
    }

    /// Inspect whether the given job has been superseded by a newer commit.
    pub fn is_stale(&self, job_id: u64) -> (stale: bool)
        ensures
            stale == stale_under(self@.last_commit, job_id),
    {
        job_id < self.last_commit_id
    }
}

/// Job IDs handed out one after the other are consecutive until the counter
/// reaches `u64::MAX`.
pub proof fn law_ids_increase(q: JobQueueView)
    requires
        q.next_id < u64::MAX,
    ensures
        next_id_after(q.next_id) == q.next_id + 1,
        next_id_after(q.next_id) > q.next_id,
{
}

/// Once a job is committed, every older job is stale, no job up to it can be
/// committed any more (itself included), and it is not stale itself.
pub proof fn law_commit_supersedes(q: JobQueueView, job: u64, other: u64)
    requires
        commit_accepts(q, job),
    ensures
        other < job ==> stale_under(commit_after(q, job), other),
        other <= job ==> !commit_accepts(JobQueueView { last_commit: commit_after(q, job), ..q }, other),
        !stale_under(commit_after(q, job), job),
{
}

/// A job is refused once a newer job has been handed out.
pub proof fn law_superseded_refused(q: JobQueueView, job: u64)
    requires
        is_latest(q, job),
        q.next_id < u64::MAX,
    ensures
        !commit_accepts(JobQueueView { next_id: next_id_after(q.next_id), ..q }, job),
{
}

/// The newest committed ID never decreases.
pub proof fn law_commit_monotone(q: JobQueueView, job: u64)
    ensures
        commit_after(q, job) >= q.last_commit,
{
}

/// On a fresh queue the first job is 1, and committing it succeeds while it
/// is the most recent job.
pub proof fn law_fresh_queue()
    ensures
        commit_accepts(JobQueueView { next_id: next_id_after(1), last_commit: 0 }, 1),
        next_id_after(1) == 2,
        !commit_accepts(JobQueueView { next_id: 3, last_commit: 0 }, 1),
{
}

/// An operation on a job queue.
pub enum JobOp {
    NextJob,
    TryCommit(u64),
    IsStale(u64),
}

/// The state after one operation.
pub open spec fn job_op_state(q: JobQueueView, op: JobOp) -> JobQueueView {
    match op {
        JobOp::NextJob => JobQueueView { next_id: next_id_after(q.next_id), ..q },
        JobOp::TryCommit(j) => JobQueueView { last_commit: commit_after(q, j), ..q },
        JobOp::IsStale(_) => q,
    }
}

/// The state after a sequence of operations.
pub open spec fn job_ops_state(q: JobQueueView, ops: Seq<JobOp>) -> JobQueueView
    decreases ops.len(),
{
    if ops.len() == 0 {
        q
    } else {
        job_op_state(job_ops_state(q, ops.drop_last()), ops.last())
    }
}

/// Accepted IDs strictly increase: after job `j` is committed, whatever
/// operations follow, a later commit succeeds only for an ID above `j`.
pub proof fn law_accepted_increase(q: JobQueueView, j: u64, ops: Seq<JobOp>, k: u64)
    requires
        commit_accepts(q, j),
        commit_accepts(job_ops_state(job_op_state(q, JobOp::TryCommit(j)), ops), k),
    ensures
        j < k,
{
    lemma_ops_keep_commit(job_op_state(q, JobOp::TryCommit(j)), ops);
}

proof fn lemma_ops_keep_commit(q: JobQueueView, ops: Seq<JobOp>)
    ensures
        job_ops_state(q, ops).last_commit >= q.last_commit,
    decreases ops.len(),
{
    if ops.len() > 0 {
        lemma_ops_keep_commit(q, ops.drop_last());
    }
}

} // verus!
