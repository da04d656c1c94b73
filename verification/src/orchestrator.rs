//! The orchestrator: a job together with the buffer and the generator that
//! its chunks come from.
//!
//! The caller drives it in a loop. It performs the action that
//! [`WipeOrchestrator::step`] answers, reports what happened, and stops on
//! [`Action::Release`] and [`Action::Stop`].

use crate::job::{
    lemma_next_in_order, lemma_next_keeps_inv, lemma_next_progress, next, status_follows, Action,
    Event, JobState, WipeJob, WipeReport,
};
use crate::policy::WipePolicy;
use crate::random::PatternSource;
use crate::target::StorageTarget;
use vstd::prelude::*;

verus! {

/// A job with everything it needs to produce the data of its passes.
#[derive(Debug)]
pub struct WipeOrchestrator {
    job: WipeJob,
    source: PatternSource,
    buffer: Vec<u8>,
}

impl View for WipeOrchestrator {
    type V = JobState;

    closed spec fn view(&self) -> JobState {
        self.job@
    }
}

/// The event that stands for the outcome of preparing a chunk.
pub open spec fn preparation(prepared: bool) -> Event {
    if prepared {
        Event::ChunkPrepared
    } else {
        Event::ChunkPreparationFailed
    }
}

/// One step of the orchestrator: one step of the job, and where that asks
/// for the data of a chunk, a second one that tells the job whether the data
/// is there.
pub open spec fn step_result(s: JobState, event: Event, cancel: bool, prepared: bool) -> (
    JobState,
    Action,
) {
    let first = next(s, event, cancel);
    if first.1 is PrepareChunk {
        next(first.0, preparation(prepared), cancel)
    } else {
        first
    }
}

/// Whether the step on `event` has to draw random bytes, and so may fail
/// for want of them.
pub open spec fn draws_random(s: JobState, event: Event, cancel: bool) -> bool {
    let first = next(s, event, cancel);
    first.1 is PrepareChunk && first.1->PrepareChunk_pattern is Random
}

impl WipeOrchestrator {
    /// The bytes of the chunk buffer.
    pub closed spec fn chunk_data(&self) -> Seq<u8> {
        self.buffer@
    }

    /// The job keeps its invariant and never rests in the phase in which it
    /// waits for data; while it waits for a write, the buffer holds the data
    /// of that write: as many bytes as the write asks for, of the pattern of
    /// the pass.
    pub open spec fn wf(&self) -> bool {
        &&& self@.inv()
        &&& !(self@.phase is Preparing)
        &&& self@.phase is Writing ==> {
            &&& self.chunk_data().len() == self@.chunk_len()
            &&& self@.pattern().admits(self.chunk_data())
        }
    }

    /// An orchestrator for a job that has not started.
    pub fn new(target: StorageTarget, policy: WipePolicy) -> (orchestrator: WipeOrchestrator)
        ensures
            orchestrator@ == JobState::initial(target@, policy),
            orchestrator.wf(),
    {
        WipeOrchestrator {
            job: WipeJob::new(target, policy),
            source: PatternSource::new(),
            buffer: Vec::new(),
        }
    }

    /// The job.
    pub fn job(&self) -> (job: &WipeJob)
        ensures
            job@ == self@,
    {
        &self.job
    }

    /// The report of the job as it stands.
    pub fn report(&self) -> (report: WipeReport)
        ensures
            report == self@.report(),
    {
        self.job.report()
    }

    /// The data that [`Action::WriteChunk`] is about.
    pub fn chunk(&self) -> (chunk: &[u8])
        ensures
            chunk@ == self.chunk_data(),
    {
        self.buffer.as_slice()
    }

    /// Takes the job one step on and answers with the next action, which is
    /// never [`Action::PrepareChunk`]: the orchestrator fills the buffer
    /// itself. Where the chunk is random and the generator fails, the job
    /// fails with the I/O error of that chunk; a chunk of a constant
    /// pattern is always there.
    pub fn step(&mut self, event: Event, cancel: bool) -> (action: Action)
        requires
            old(self).wf(),
        ensures
            final(self).wf(),
            (final(self)@, action) == step_result(old(self)@, event, cancel, true)
                || (final(self)@, action) == step_result(old(self)@, event, cancel, false),
            !draws_random(old(self)@, event, cancel) ==> (final(self)@, action)
                == step_result(old(self)@, event, cancel, true),
    {
        let first = self.job.advance(event, cancel);
        match first {
            Action::PrepareChunk { pattern, len } => {
                let prepared = self.source.fill(pattern, len, &mut self.buffer);
                let outcome = if prepared {
                    Event::ChunkPrepared
                } else {
                    Event::ChunkPreparationFailed
                };
                self.job.advance(outcome, cancel)
            },
            other => other,
        }
    }
}

/// A step of the orchestrator skips no status either.
pub proof fn lemma_step_in_order(s: JobState, event: Event, cancel: bool, prepared: bool)
    requires
        s.inv(),
    ensures
        status_follows(
            s.status(),
            step_result(s, event, cancel, prepared).0.status(),
            s.policy.passes,
        ),
{
    let first = next(s, event, cancel);
    lemma_next_keeps_inv(s, event, cancel);
    lemma_next_in_order(s, event, cancel);
    lemma_next_in_order(first.0, preparation(prepared), cancel);
}

/// A step of the orchestrator on an event that the job waits for brings the
/// job nearer to its end.
pub proof fn lemma_step_progress(s: JobState, event: Event, cancel: bool, prepared: bool)
    requires
        s.inv(),
        !(s.phase is Preparing),
    ensures
        step_result(s, event, cancel, prepared).0.inv(),
        !(step_result(s, event, cancel, prepared).0.phase is Preparing),
        s.expects(event) ==> step_result(s, event, cancel, prepared).0.nearer_than(s),
        !s.expects(event) ==> step_result(s, event, cancel, prepared) == (s, s.pending()),
{
    let first = next(s, event, cancel);
    lemma_next_keeps_inv(s, event, cancel);
    lemma_next_progress(s, event, cancel);
    lemma_next_keeps_inv(first.0, preparation(prepared), cancel);
    lemma_next_progress(first.0, preparation(prepared), cancel);
}

} // verus!
