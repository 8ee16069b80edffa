//! Jobs: requests that run in the background, and what is known of each.

use crate::ids::{format_id, fresh_id_bits, hyphenated, parse_id, uuid_parsed};
use crate::models::{ApiError, ListingResponse};
use crate::pipeline::{PipelineError, PipelineErrorKind};
use crate::text::{copy_str, opt_text};
use std::collections::HashMap;
use vstd::prelude::*;

verus! {

broadcast use vstd::std_specs::hash::group_hash_axioms;

/// Where a job stands.
#[derive(Debug)]
pub enum JobState {
    Queued,
    Running,
    Completed { result: ListingResponse },
    Failed { error: String, stage: Option<String> },
}

/// A job's state with the job's identifier, as a client sees it.
#[derive(Debug)]
pub struct JobInfo {
    pub id: String,
    pub state: JobState,
}

/// What happens to a job.
#[derive(Debug)]
pub enum JobEvent {
    /// The worker took the job up.
    Started,
    /// The pipeline ended with this outcome.
    Finished { outcome: Result<ListingResponse, PipelineError> },
}

impl JobState {
    /// How far a job has come: 0 while it waits, 1 while it runs, 2 when it has ended.
    pub open spec fn rank(self) -> nat {
        match self {
            JobState::Queued => 0,
            JobState::Running => 1,
            JobState::Completed { .. } => 2,
            JobState::Failed { .. } => 2,
        }
    }

    /// The name of the state as a client sees it.
    pub open spec fn name_spec(self) -> Seq<char> {
        match self {
            JobState::Queued => "queued"@,
            JobState::Running => "running"@,
            JobState::Completed { .. } => "completed"@,
            JobState::Failed { .. } => "failed"@,
        }
    }

    /// The name of the state as a client sees it.
    pub fn name(&self) -> (out: &'static str)
        ensures
            out@ == self.name_spec(),
    {
        match self {
            JobState::Queued => "queued",
            JobState::Running => "running",
            JobState::Completed { .. } => "completed",
            JobState::Failed { .. } => "failed",
        }
    }

    /// Whether `next` is the state that follows this one on `event`.
    pub open spec fn follows(self, event: JobEvent, next: JobState) -> bool {
        match (self, event) {
            (JobState::Queued, JobEvent::Started) => next is Running,
            (JobState::Running, JobEvent::Finished { outcome: Ok(result) }) => next == (
            JobState::Completed { result }),
            (JobState::Running, JobEvent::Finished { outcome: Err(e) }) => {
                &&& next is Failed
                &&& next->error@ == e.detail_spec()
                &&& opt_text(next->stage) == Some(e.stage_spec())
            },
            _ => next == self,
        }
    }

    /// The state after `event`: a waiting job that is taken up runs; a
    /// running job that ends is completed with its result, or failed with
    /// what the pipeline's failure says and its stage. Every other event
    /// leaves the state as it is.
    pub fn after(self, event: JobEvent) -> (out: JobState)
        ensures
            self.follows(event, out),
            out.rank() >= self.rank(),
    {
        match self {
            JobState::Queued => match event {
                JobEvent::Started => JobState::Running,
                JobEvent::Finished { .. } => JobState::Queued,
            },
            JobState::Running => match event {
                JobEvent::Started => JobState::Running,
                JobEvent::Finished { outcome } => match outcome {
                    Ok(result) => JobState::Completed { result },
                    Err(e) => JobState::Failed {
                        error: copy_str(e.detail()),
                        stage: Some(copy_str(e.stage())),
                    },
                },
            },
            JobState::Completed { result } => JobState::Completed { result },
            JobState::Failed { error, stage } => JobState::Failed { error, stage },
        }
    }
}

/// What is known of every job, by the 128 bits of the job's identifier.
pub struct JobBoard {
    statuses: HashMap<u128, JobState>,
}

impl JobBoard {
    /// The states by job.
    pub closed spec fn view(self) -> Map<u128, JobState> {
        self.statuses@
    }

    /// A board without jobs.
    pub fn new() -> (out: JobBoard)
        ensures
            out@ == Map::<u128, JobState>::empty(),
    {
        JobBoard { statuses: HashMap::new() }
    }

    /// Records the job `id` as waiting.
    pub fn enqueue(&mut self, id: u128)
        ensures
            final(self)@ == old(self)@.insert(id, JobState::Queued),
    {
        self.statuses.insert(id, JobState::Queued);
    }

    /// Records a new job as waiting, under a fresh random identifier.
    pub fn enqueue_new(&mut self) -> (id: u128)
        ensures
            final(self)@ == old(self)@.insert(id, JobState::Queued),
    {
        let id = fresh_id_bits();
        self.enqueue(id);
        id
    }

    /// What is known of the job `id`.
    pub fn get(&self, id: u128) -> (out: Option<&JobState>)
        ensures
            match out {
                Some(state) => self@.contains_key(id) && *state == self@[id],
                None => !self@.contains_key(id),
            },
    {
        self.statuses.get(&id)
    }

    /// Applies `event` to the job `id`. A job that the board does not know
    /// stays unknown; no job ever goes back.
    pub fn record(&mut self, id: u128, event: JobEvent) -> (known: bool)
        ensures
            known == old(self)@.contains_key(id),
            !known ==> final(self)@ == old(self)@,
            known ==> final(self)@.dom() == old(self)@.dom() && final(self)@[id].rank() >= old(
                self,
            )@[id].rank() && (forall|other: u128|
                other != id && old(self)@.contains_key(other) ==> final(self)@[other] == old(
                    self,
                )@[other]),
            known ==> old(self)@[id].follows(event, final(self)@[id]),
    {
        let ghost before = self@;
        match self.statuses.remove(&id) {
            Some(state) => {
                let next = state.after(event);
                self.statuses.insert(id, next);
                assert(self@.dom() =~= before.dom());
                true
            },
            None => {
                assert(self@ =~= before);
                false
            },
        }
    }
}

/// The answer to a client whose job found no room to wait.
pub fn queue_send_failed() -> (out: ApiError)
    ensures
        out.error@ == "queue_send_failed"@,
        out.detail matches Some(d) && d@ == "worker not available"@,
{
    ApiError {
        error: copy_str("queue_send_failed"),
        detail: Some(copy_str("worker not available")),
    }
}

/// A job's state with the job's identifier written out.
pub fn job_info(id: u128, state: JobState) -> (out: JobInfo)
    ensures
        out.id@ == hyphenated(id),
        out.state == state,
{
    JobInfo { id: format_id(id), state }
}

/// A job's identifier written out.
pub fn job_id_text(id: u128) -> (out: String)
    ensures
        out@ == hyphenated(id),
{
    format_id(id)
}

/// The job that `text` names; a text that is no identifier is the client's fault.
pub fn parse_job_id(text: &str) -> (out: Result<u128, PipelineError>)
    ensures
        match uuid_parsed(text@) {
            Ok(bits) => out == Ok::<u128, PipelineError>(bits),
            Err(_) => out is Err && out->Err_0.is(
                PipelineErrorKind::InvalidInput,
                "jobs"@,
                "invalid_job_id"@,
            ),
        },
{
    match parse_id(text) {
        Ok(bits) => Ok(bits),
        Err(_) => Err(PipelineError::invalid_input("jobs", "invalid_job_id")),
    }
}

/// The answer to a client who asks for a job that is not known.
pub fn job_not_found() -> (out: PipelineError)
    ensures
        out.is(PipelineErrorKind::InvalidInput, "jobs"@, "not_found"@),
{
    PipelineError::invalid_input("jobs", "not_found")
}

} // verus!
