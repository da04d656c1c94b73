//! The state machine of a wipe job.
//!
//! A job never touches a device. It hands out an [`Action`], the caller
//! performs it and reports what happened as an [`Event`], and the job answers
//! with the next action. [`next`] is the whole of that behaviour;
//! [`WipeJob::advance`] computes it.

use crate::error::WipeError;
use crate::hidden_area::{
    plan_erase, outcome_of_exit, spec_outcome_of_exit, spec_plan_erase, EraseFacilities,
    ErasePlan, EraseStrategy, HiddenAreaOutcome,
};
use crate::policy::{build_plan, PassSpec, PatternKind, WipePolicy};
use crate::readback::{
    counted, lemma_matching_prefix, matching_prefix, scan_chunk, verdict, VerificationResult,
};
use crate::target::{StorageTarget, TargetView};
use vstd::prelude::*;

verus! {

/// How often the write of one chunk is tried again after it failed.
pub const MAX_WRITE_RETRIES: u32 = 3;

/// Where a job stands, as callers see it.
#[derive(Clone, Copy, Debug, PartialEq, Eq)]
pub enum JobStatus {
    Idle,
    Planning,
    /// Overwriting, in the pass of this index.
    Overwriting(u32),
    Verifying,
    ErasingHiddenAreas,
    Done,
    Failed(WipeError),
}

/// Where a job stands, by what it waits for.
#[derive(Clone, Copy, Debug, PartialEq, Eq)]
pub enum Phase {
    /// Not started.
    Idle,
    /// About to build the plan.
    Planning,
    /// Waiting for exclusive write access to the target.
    Acquiring,
    /// Waiting for the length of the target.
    Sizing,
    /// Waiting for the data of the next chunk.
    Preparing,
    /// Waiting for the write of a chunk.
    Writing,
    /// Waiting for the pass to be flushed and made durable.
    Syncing,
    /// Waiting for the length of the target as it is after the pass.
    Confirming,
    /// About to read back.
    VerifyStart,
    /// Waiting for a chunk of the read-back.
    Reading,
    /// Waiting for what the host offers to erase hidden areas.
    Detecting,
    /// Waiting for the erase command to end.
    Erasing(EraseStrategy),
    /// Cancelled during the read-back: nothing more is invoked.
    StandingDown,
    /// Ended; the overwrite succeeded.
    Done,
    /// Ended; the overwrite failed.
    Failed,
}

/// Why the target could not be had.
#[derive(Clone, Copy, Debug, PartialEq, Eq)]
pub enum AcquireFailure {
    /// Nothing exists at the path.
    NotFound,
    /// Write access was refused.
    PermissionDenied,
    /// Another job holds the lock on the path.
    Busy,
}

/// What the caller reports.
#[derive(Debug, PartialEq, Eq)]
pub enum Event {
    /// There was nothing to do.
    Continue,
    /// The lock on the path is held and the target is open for writing.
    Acquired,
    /// The target could not be locked or opened.
    AcquireFailed(AcquireFailure),
    /// The seek-to-end probe gave this position.
    SizeProbed(i128),
    /// The seek-to-end probe failed.
    SizeProbeFailed,
    /// The chunk buffer holds the data of the next write.
    ChunkPrepared,
    /// The data of the next write could not be produced.
    ChunkPreparationFailed,
    /// The chunk was written in full.
    ChunkWritten,
    /// The write of the chunk failed.
    ChunkFailed,
    /// The pass was flushed and is durable.
    Synced,
    /// The flush or the durability sync failed.
    SyncFailed,
    /// The device gave these bytes back.
    ChunkRead(Vec<u8>),
    /// The device gave nothing back.
    ReadFailed,
    /// What the host offers to erase hidden areas.
    FacilitiesDetected(EraseFacilities),
    /// The erase command ended; its exit status where it has one.
    EraseCommandFinished(Option<i32>),
}

/// What the caller is to do next.
#[derive(Clone, Copy, Debug, PartialEq, Eq)]
pub enum Action {
    /// Nothing; report [`Event::Continue`].
    Continue,
    /// Lock the canonical path of the target and open it for writing.
    Acquire,
    /// Seek to the end of the target and report the position.
    ProbeSize,
    /// Fill the chunk buffer with `len` bytes of `pattern`.
    PrepareChunk { pattern: PatternKind, len: usize },
    /// Write the `len` bytes of the chunk buffer at `offset`.
    WriteChunk { offset: u64, len: usize },
    /// Flush and force the pass to durable storage.
    Sync,
    /// Read `len` bytes at `offset` and report them.
    ReadChunk { offset: u64, len: usize },
    /// Find out what the host offers to erase hidden areas.
    DetectEraseFacilities,
    /// Run the command of this strategy against the target.
    RunEraseCommand(EraseStrategy),
    /// Close the target, give up the lock, and stop.
    Release,
    /// Stop; nothing is held.
    Stop,
}

/// The error that stands for a failure to acquire the target.
pub open spec fn spec_acquire_error(failure: AcquireFailure) -> WipeError {
    match failure {
        AcquireFailure::NotFound => WipeError::DeviceNotFound,
        AcquireFailure::PermissionDenied => WipeError::PermissionDenied,
        AcquireFailure::Busy => WipeError::DeviceBusy,
    }
}

/// Computes [`spec_acquire_error`].
#[verifier::when_used_as_spec(spec_acquire_error)]
pub fn acquire_error(failure: AcquireFailure) -> (error: WipeError)
    ensures
        error == spec_acquire_error(failure),
{
    match failure {
        AcquireFailure::NotFound => WipeError::DeviceNotFound,
        AcquireFailure::PermissionDenied => WipeError::PermissionDenied,
        AcquireFailure::Busy => WipeError::DeviceBusy,
    }
}

/// A job, as plain values.
pub struct JobState {
    /// The target; its length is set when the job has probed it.
    pub target: TargetView,
    pub policy: WipePolicy,
    /// The passes to make; empty until the plan is built.
    pub plan: Seq<PassSpec>,
    pub phase: Phase,
    /// How many passes are complete, which is also the index of the pass
    /// that is being written.
    pub pass: nat,
    /// How far the pass, or the read-back, has come.
    pub offset: nat,
    /// How often the write of the chunk at `offset` has been tried again.
    pub attempts: nat,
    /// How many bytes the caller has reported as written, over all passes.
    pub bytes_written: nat,
    /// Whether the caller holds the target for this job.
    pub holds_target: bool,
    /// Why the overwrite failed.
    pub error: Option<WipeError>,
    /// What the read-back showed.
    pub verification: Option<VerificationResult>,
    /// How the erase of hidden areas ended.
    pub hidden_area: Option<HiddenAreaOutcome>,
}

impl JobState {
    /// The job that has not started.
    pub open spec fn initial(target: TargetView, policy: WipePolicy) -> JobState {
        JobState {
            target,
            policy,
            plan: Seq::empty(),
            phase: Phase::Idle,
            pass: 0,
            offset: 0,
            attempts: 0,
            bytes_written: 0,
            holds_target: false,
            error: None,
            verification: None,
            hidden_area: None,
        }
    }

    /// The length of the target, 0 while it is unknown.
    pub open spec fn length(self) -> nat {
        match self.target.length {
            Some(n) => n,
            None => 0,
        }
    }

    /// The length of the chunk at `offset`: a full chunk, or what is left of
    /// the target where that is less.
    pub open spec fn chunk_len(self) -> nat {
        if self.length() - self.offset < self.policy.chunk_size {
            (self.length() - self.offset) as nat
        } else {
            self.policy.chunk_size as nat
        }
    }

    /// The pattern of the pass that is being written.
    pub open spec fn pattern(self) -> PatternKind {
        self.plan[self.pass as int].pattern
    }

    /// The byte that the read-back must show, if the last pass fixes one.
    pub open spec fn terminal_byte(self) -> Option<u8> {
        self.policy.terminal_pattern().spec_expected_byte()
    }

    /// Whether the job has ended.
    pub open spec fn terminal(self) -> bool {
        self.phase is Done || self.phase is Failed
    }

    /// Whether every pass has been written and made durable.
    pub open spec fn overwrite_complete(self) -> bool {
        match self.phase {
            Phase::VerifyStart => true,
            Phase::Reading => true,
            Phase::Detecting => true,
            Phase::Erasing(_) => true,
            Phase::StandingDown => true,
            Phase::Done => true,
            _ => false,
        }
    }

    /// Whether a pass is under way.
    pub open spec fn in_pass(self) -> bool {
        match self.phase {
            Phase::Preparing => true,
            Phase::Writing => true,
            Phase::Syncing => true,
            Phase::Confirming => true,
            _ => false,
        }
    }

    /// The status that callers see.
    pub open spec fn status(self) -> JobStatus {
        match self.phase {
            Phase::Idle => JobStatus::Idle,
            Phase::Planning => JobStatus::Planning,
            Phase::Acquiring => JobStatus::Overwriting(0),
            Phase::Sizing => JobStatus::Overwriting(0),
            Phase::Preparing => JobStatus::Overwriting(self.pass as u32),
            Phase::Writing => JobStatus::Overwriting(self.pass as u32),
            Phase::Syncing => JobStatus::Overwriting(self.pass as u32),
            Phase::Confirming => JobStatus::Overwriting(self.pass as u32),
            Phase::VerifyStart => JobStatus::Verifying,
            Phase::Reading => JobStatus::Verifying,
            Phase::Detecting => JobStatus::ErasingHiddenAreas,
            Phase::Erasing(_) => JobStatus::ErasingHiddenAreas,
            Phase::StandingDown => JobStatus::ErasingHiddenAreas,
            Phase::Done => JobStatus::Done,
            Phase::Failed => JobStatus::Failed(
                match self.error {
                    Some(error) => error,
                    None => WipeError::Cancelled,
                },
            ),
        }
    }

    /// The action that the job waits on.
    pub open spec fn pending(self) -> Action {
        match self.phase {
            Phase::Idle => Action::Continue,
            Phase::Planning => Action::Continue,
            Phase::Acquiring => Action::Acquire,
            Phase::Sizing => Action::ProbeSize,
            Phase::Preparing => Action::PrepareChunk {
                pattern: self.pattern(),
                len: self.chunk_len() as usize,
            },
            Phase::Writing => Action::WriteChunk {
                offset: self.offset as u64,
                len: self.chunk_len() as usize,
            },
            Phase::Syncing => Action::Sync,
            Phase::Confirming => Action::ProbeSize,
            Phase::VerifyStart => Action::Continue,
            Phase::Reading => Action::ReadChunk {
                offset: self.offset as u64,
                len: self.chunk_len() as usize,
            },
            Phase::Detecting => Action::DetectEraseFacilities,
            Phase::Erasing(strategy) => Action::RunEraseCommand(strategy),
            Phase::StandingDown => Action::Continue,
            Phase::Done => Action::Stop,
            Phase::Failed => Action::Stop,
        }
    }

    /// The overwrite fails: the job ends, and the target is released where
    /// it was held.
    pub open spec fn fail(self, error: WipeError) -> (JobState, Action) {
        (
            JobState { phase: Phase::Failed, error: Some(error), holds_target: false, ..self },
            if self.holds_target {
                Action::Release
            } else {
                Action::Stop
            },
        )
    }

    /// The error of a chunk of the current pass at the current offset.
    pub open spec fn io_error(self) -> WipeError {
        WipeError::IoErrorDuringPass { pass: self.pass as u32, offset: self.offset as u64 }
    }

    /// The plan is built, or the policy refused.
    pub open spec fn planned(self) -> (JobState, Action) {
        if self.policy.valid() {
            (JobState { phase: Phase::Acquiring, plan: self.policy.plan(), ..self }, Action::Acquire)
        } else {
            self.fail(WipeError::InvalidPolicy)
        }
    }

    /// The next chunk of the pass, if one is left and the job may go on; the
    /// sync of the pass where none is left. This is the one place of the
    /// overwrite where cancellation is honoured: before a chunk, never while
    /// one is written.
    pub open spec fn begin_chunk(self, cancel: bool) -> (JobState, Action) {
        if self.offset < self.length() {
            if cancel {
                self.fail(WipeError::Cancelled)
            } else {
                let state = JobState { phase: Phase::Preparing, attempts: 0, ..self };
                (state, state.pending())
            }
        } else {
            (JobState { phase: Phase::Syncing, ..self }, Action::Sync)
        }
    }

    /// The probe of the length has answered. A position that no target can
    /// have fails the job; any other is the length of the target from now on.
    pub open spec fn sized(self, raw: i128, cancel: bool) -> (JobState, Action) {
        if 0 <= raw <= u64::MAX {
            JobState {
                target: TargetView { length: Some(raw as nat), ..self.target },
                pass: 0,
                offset: 0,
                bytes_written: 0,
                ..self
            }.begin_chunk(cancel)
        } else {
            self.fail(WipeError::SizeDeterminationFailed)
        }
    }

    /// The chunk is written.
    pub open spec fn chunk_written(self, cancel: bool) -> (JobState, Action) {
        JobState {
            offset: self.offset + self.chunk_len(),
            bytes_written: self.bytes_written + self.chunk_len(),
            ..self
        }.begin_chunk(cancel)
    }

    /// The write of the chunk failed: it is tried again at once, up to
    /// [`MAX_WRITE_RETRIES`] times, and then the job fails.
    pub open spec fn chunk_failed(self) -> (JobState, Action) {
        if self.attempts < MAX_WRITE_RETRIES {
            let state = JobState { attempts: self.attempts + 1, ..self };
            (state, state.pending())
        } else {
            self.fail(self.io_error())
        }
    }

    /// The probe after a pass has answered. A target that changed its length
    /// fails the job. Else the pass is complete: the next one begins, or the
    /// read-back where it was the last.
    pub open spec fn confirmed(self, raw: i128, cancel: bool) -> (JobState, Action) {
        if raw == self.length() {
            let state = JobState { pass: self.pass + 1, offset: 0, ..self };
            if state.pass < self.policy.passes {
                state.begin_chunk(cancel)
            } else {
                (JobState { phase: Phase::VerifyStart, ..state }, Action::Continue)
            }
        } else {
            self.fail(WipeError::SizeDeterminationFailed)
        }
    }

    /// The read-back has a result; the erase of hidden areas begins.
    pub open spec fn verified(self, result: VerificationResult) -> (JobState, Action) {
        (
            JobState { phase: Phase::Detecting, verification: Some(result), ..self },
            Action::DetectEraseFacilities,
        )
    }

    /// The read-back is cut short by a cancellation. The job passes through
    /// its last phase without invoking anything.
    pub open spec fn stand_down(self) -> (JobState, Action) {
        (
            JobState {
                phase: Phase::StandingDown,
                verification: Some(
                    VerificationResult {
                        passed: false,
                        first_mismatch: None,
                        bytes_sampled: self.offset as u64,
                    },
                ),
                ..self
            },
            Action::Continue,
        )
    }

    /// The read-back begins. There is nothing to read where the last pass
    /// fixes no byte or the target is empty.
    pub open spec fn begin_read(self, cancel: bool) -> (JobState, Action) {
        if self.terminal_byte() is None || self.length() == 0 {
            self.verified(
                VerificationResult { passed: true, first_mismatch: None, bytes_sampled: 0 },
            )
        } else if cancel {
            self.stand_down()
        } else {
            let state = JobState { phase: Phase::Reading, ..self };
            (state, state.pending())
        }
    }

    /// The device gave `data` back for the chunk at `offset`. Bytes beyond
    /// the chunk do not count. A byte that differs from the expected one, or
    /// that is missing, ends the read-back with a mismatch at its offset.
    /// Cancellation is honoured between two chunks.
    pub open spec fn chunk_read(self, data: Seq<u8>, cancel: bool) -> (JobState, Action) {
        let len = self.chunk_len();
        let seen = counted(data, len);
        let good = matching_prefix(seen, self.terminal_byte()->Some_0);
        if good == len {
            let state = JobState { offset: self.offset + len, ..self };
            if state.offset == self.length() {
                state.verified(
                    VerificationResult {
                        passed: true,
                        first_mismatch: None,
                        bytes_sampled: self.length() as u64,
                    },
                )
            } else if cancel {
                state.stand_down()
            } else {
                (state, state.pending())
            }
        } else {
            self.verified(
                VerificationResult {
                    passed: false,
                    first_mismatch: Some((self.offset + good) as u64),
                    bytes_sampled: if good < seen.len() {
                        (self.offset + good + 1) as u64
                    } else {
                        (self.offset + good) as u64
                    },
                },
            )
        }
    }

    /// The job ends with its overwrite done.
    pub open spec fn finish(self, outcome: Option<HiddenAreaOutcome>) -> (JobState, Action) {
        (
            JobState { phase: Phase::Done, hidden_area: outcome, holds_target: false, ..self },
            Action::Release,
        )
    }

    /// The host has said what it offers.
    pub open spec fn facilities_detected(self, facilities: EraseFacilities) -> (JobState, Action) {
        match spec_plan_erase(facilities) {
            ErasePlan::Settled(outcome) => self.finish(Some(outcome)),
            ErasePlan::Invoke(strategy) => (
                JobState { phase: Phase::Erasing(strategy), ..self },
                Action::RunEraseCommand(strategy),
            ),
        }
    }

    /// Whether the job, in its phase, waits for an event of this kind.
    pub open spec fn expects(self, event: Event) -> bool {
        match (self.phase, event) {
            (Phase::Idle, Event::Continue) => true,
            (Phase::Planning, Event::Continue) => true,
            (Phase::Acquiring, Event::Acquired) => true,
            (Phase::Acquiring, Event::AcquireFailed(_)) => true,
            (Phase::Sizing, Event::SizeProbed(_)) => true,
            (Phase::Sizing, Event::SizeProbeFailed) => true,
            (Phase::Preparing, Event::ChunkPrepared) => true,
            (Phase::Preparing, Event::ChunkPreparationFailed) => true,
            (Phase::Writing, Event::ChunkWritten) => true,
            (Phase::Writing, Event::ChunkFailed) => true,
            (Phase::Syncing, Event::Synced) => true,
            (Phase::Syncing, Event::SyncFailed) => true,
            (Phase::Confirming, Event::SizeProbed(_)) => true,
            (Phase::Confirming, Event::SizeProbeFailed) => true,
            (Phase::VerifyStart, Event::Continue) => true,
            (Phase::Reading, Event::ChunkRead(_)) => true,
            (Phase::Reading, Event::ReadFailed) => true,
            (Phase::Detecting, Event::FacilitiesDetected(_)) => true,
            (Phase::Erasing(_), Event::EraseCommandFinished(_)) => true,
            (Phase::StandingDown, Event::Continue) => true,
            _ => false,
        }
    }
}

/// The state of a job after `event`, and what the caller is to do next.
/// `cancel` is the caller's cancellation flag as it stands when the event is
/// reported. An event that the job does not wait for changes nothing: the
/// job answers with the action that it still waits on.
pub open spec fn next(s: JobState, event: Event, cancel: bool) -> (JobState, Action) {
    match (s.phase, event) {
        (Phase::Idle, Event::Continue) => (
            JobState { phase: Phase::Planning, ..s },
            Action::Continue,
        ),
        (Phase::Planning, Event::Continue) => s.planned(),
        (Phase::Acquiring, Event::Acquired) => (
            JobState { phase: Phase::Sizing, holds_target: true, ..s },
            Action::ProbeSize,
        ),
        (Phase::Acquiring, Event::AcquireFailed(failure)) => s.fail(spec_acquire_error(failure)),
        (Phase::Sizing, Event::SizeProbed(raw)) => s.sized(raw, cancel),
        (Phase::Sizing, Event::SizeProbeFailed) => s.fail(WipeError::SizeDeterminationFailed),
        (Phase::Preparing, Event::ChunkPrepared) => {
            let state = JobState { phase: Phase::Writing, ..s };
            (state, state.pending())
        },
        (Phase::Preparing, Event::ChunkPreparationFailed) => s.fail(s.io_error()),
        (Phase::Writing, Event::ChunkWritten) => s.chunk_written(cancel),
        (Phase::Writing, Event::ChunkFailed) => s.chunk_failed(),
        (Phase::Syncing, Event::Synced) => (
            JobState { phase: Phase::Confirming, ..s },
            Action::ProbeSize,
        ),
        (Phase::Syncing, Event::SyncFailed) => s.fail(s.io_error()),
        (Phase::Confirming, Event::SizeProbed(raw)) => s.confirmed(raw, cancel),
        (Phase::Confirming, Event::SizeProbeFailed) => s.fail(WipeError::SizeDeterminationFailed),
        (Phase::VerifyStart, Event::Continue) => s.begin_read(cancel),
        (Phase::Reading, Event::ChunkRead(data)) => s.chunk_read(data@, cancel),
        (Phase::Reading, Event::ReadFailed) => s.chunk_read(Seq::empty(), cancel),
        (Phase::Detecting, Event::FacilitiesDetected(facilities)) => s.facilities_detected(
            facilities,
        ),
        (Phase::Erasing(_), Event::EraseCommandFinished(status)) => s.finish(
            Some(spec_outcome_of_exit(status)),
        ),
        (Phase::StandingDown, Event::Continue) => s.finish(None),
        _ => (s, s.pending()),
    }
}

impl JobState {
    /// What holds of every job that was made by [`WipeJob::new`] and moved
    /// by [`next`] alone.
    pub open spec fn inv(self) -> bool {
        &&& self.length() <= u64::MAX
        &&& self.pass <= self.policy.passes
        &&& self.offset <= self.length()
        &&& self.attempts <= MAX_WRITE_RETRIES
        &&& self.error is Some <==> self.phase is Failed
        &&& self.holds_target <==> !(self.phase is Idle || self.phase is Planning
            || self.phase is Acquiring || self.terminal())
        &&& if self.overwrite_complete() {
            &&& self.pass == self.policy.passes
            &&& self.bytes_written == self.policy.passes * self.length()
        } else {
            self.bytes_written == self.pass * self.length() + self.offset
        }
        &&& !(self.phase is Idle || self.phase is Planning || self.phase is Failed) ==> {
            &&& self.policy.valid()
            &&& self.plan == self.policy.plan()
        }
        &&& (self.in_pass() || self.overwrite_complete()) ==> self.target.length is Some
        &&& match self.phase {
            Phase::Idle => self.pass == 0 && self.offset == 0,
            Phase::Planning => self.pass == 0 && self.offset == 0,
            Phase::Acquiring => self.pass == 0 && self.offset == 0,
            Phase::Sizing => self.pass == 0 && self.offset == 0,
            Phase::Preparing => self.pass < self.policy.passes && self.offset < self.length()
                && self.attempts == 0,
            Phase::Writing => self.pass < self.policy.passes && self.offset < self.length(),
            Phase::Syncing => self.pass < self.policy.passes && self.offset == self.length(),
            Phase::Confirming => self.pass < self.policy.passes && self.offset == self.length(),
            Phase::VerifyStart => self.offset == 0,
            Phase::Reading => self.offset < self.length() && self.terminal_byte() is Some,
            Phase::Failed => self.error is Some && self.error->Some_0.spec_fails_overwrite(),
            _ => true,
        }
        &&& match self.phase {
            Phase::Detecting => self.hidden_area is None && self.verification is Some
                && self.verification->Some_0.spec_error() != Some(WipeError::Cancelled),
            Phase::Erasing(_) => self.hidden_area is None && self.verification is Some
                && self.verification->Some_0.spec_error() != Some(WipeError::Cancelled),
            Phase::StandingDown => self.hidden_area is None && self.verification is Some
                && self.verification->Some_0.spec_error() == Some(WipeError::Cancelled),
            Phase::Done => self.verification is Some && (self.hidden_area is None
                <==> self.verification->Some_0.spec_error() == Some(WipeError::Cancelled)),
            _ => self.verification is None && self.hidden_area is None,
        }
    }

    /// The first part of the measure by which a job comes to its end: the
    /// phases that it still has before it.
    pub open spec fn stage(self) -> nat {
        match self.phase {
            Phase::Idle => (self.policy.passes + 9) as nat,
            Phase::Planning => (self.policy.passes + 8) as nat,
            Phase::Acquiring => (self.policy.passes + 7) as nat,
            Phase::Sizing => (self.policy.passes + 6) as nat,
            Phase::Preparing => (5 + self.policy.passes - self.pass) as nat,
            Phase::Writing => (5 + self.policy.passes - self.pass) as nat,
            Phase::Syncing => (5 + self.policy.passes - self.pass) as nat,
            Phase::Confirming => (5 + self.policy.passes - self.pass) as nat,
            Phase::VerifyStart => 5,
            Phase::Reading => 4,
            Phase::Detecting => 3,
            Phase::Erasing(_) => 2,
            Phase::StandingDown => 1,
            Phase::Done => 0,
            Phase::Failed => 0,
        }
    }

    /// The second part of the measure: the bytes that the pass, or the
    /// read-back, still has before it.
    pub open spec fn remaining(self) -> nat {
        match self.phase {
            Phase::Preparing => (self.length() - self.offset) as nat,
            Phase::Writing => (self.length() - self.offset) as nat,
            Phase::Reading => (self.length() - self.offset) as nat,
            _ => 0,
        }
    }

    /// The third part of the measure: the steps that a chunk, or the end of
    /// a pass, still has before it.
    pub open spec fn substep(self) -> nat {
        match self.phase {
            Phase::Preparing => (MAX_WRITE_RETRIES + 2) as nat,
            Phase::Writing => (MAX_WRITE_RETRIES + 1 - self.attempts) as nat,
            Phase::Syncing => 1,
            _ => 0,
        }
    }

    /// Whether `self` is nearer to the end of the job than `before`.
    pub open spec fn nearer_than(self, before: JobState) -> bool {
        ||| self.stage() < before.stage()
        ||| self.stage() == before.stage() && self.remaining() < before.remaining()
        ||| self.stage() == before.stage() && self.remaining() == before.remaining()
            && self.substep() < before.substep()
    }
}

/// Whether a job may pass from the status `before` to the status `after` in
/// one step: it stays, or takes the next status of its course, or fails while
/// it plans or overwrites. `passes` is the number of passes of its policy.
pub open spec fn status_follows(before: JobStatus, after: JobStatus, passes: u32) -> bool {
    ||| after == before
    ||| before is Idle && after is Planning
    ||| before is Planning && after == JobStatus::Overwriting(0)
    ||| (before is Overwriting && before->Overwriting_0 + 1 < passes && after
        == JobStatus::Overwriting((before->Overwriting_0 + 1) as u32))
    ||| (before is Overwriting && before->Overwriting_0 + 1 == passes && after is Verifying)
    ||| before is Verifying && after is ErasingHiddenAreas
    ||| before is ErasingHiddenAreas && after is Done
    ||| (before is Planning || before is Overwriting) && after is Failed
}

/// A product of a pass count and a length fits where the job keeps it.
pub proof fn lemma_written_bound(pass: nat, length: nat, offset: nat)
    requires
        pass <= u32::MAX,
        length <= u64::MAX,
        offset <= length,
    ensures
        pass * length + offset <= 0x1_0000_0000 * 0xFFFF_FFFF_FFFF_FFFF,
{
    assert(pass * length <= 0xFFFF_FFFF * 0xFFFF_FFFF_FFFF_FFFF) by (nonlinear_arith)
        requires
            pass <= 0xFFFF_FFFF,
            length <= 0xFFFF_FFFF_FFFF_FFFF,
    ;
}

/// A chunk of the read-back keeps the invariant of the job, whatever the
/// device gave back.
pub proof fn lemma_chunk_read_keeps_inv(s: JobState, data: Seq<u8>, cancel: bool)
    requires
        s.inv(),
        s.phase is Reading,
    ensures
        s.chunk_read(data, cancel).0.inv(),
{
    crate::policy::lemma_chunk_size_bounds(s.policy);
    crate::readback::lemma_matching_prefix_bounded(
        counted(data, s.chunk_len()),
        s.terminal_byte()->Some_0,
    );
}

/// Every step keeps the invariant of the job.
pub proof fn lemma_next_keeps_inv(s: JobState, event: Event, cancel: bool)
    requires
        s.inv(),
    ensures
        next(s, event, cancel).0.inv(),
{
    let after = next(s, event, cancel).0;
    let length = s.length();
    if s.policy.valid() {
        crate::policy::lemma_chunk_size_bounds(s.policy);
    }
    assert((s.pass + 1) * length == s.pass * length + length) by (nonlinear_arith);
    assert(0 * after.length() == 0) by (nonlinear_arith);
    match (s.phase, event) {
        (Phase::Reading, Event::ChunkRead(data)) => {
            lemma_chunk_read_keeps_inv(s, data@, cancel);
        },
        (Phase::Reading, Event::ReadFailed) => {
            lemma_chunk_read_keeps_inv(s, Seq::<u8>::empty(), cancel);
        },
        _ => {},
    }
}

/// No step skips a status: a job goes through planning, every pass in turn,
/// the read-back and the erase of hidden areas to its end, and fails only
/// while it plans or overwrites.
pub proof fn lemma_next_in_order(s: JobState, event: Event, cancel: bool)
    requires
        s.inv(),
    ensures
        status_follows(s.status(), next(s, event, cancel).0.status(), s.policy.passes),
        next(s, event, cancel).0.policy == s.policy,
{
}

/// An event that the job waits for brings it nearer to its end; any other
/// changes nothing and is answered with the pending action.
pub proof fn lemma_next_progress(s: JobState, event: Event, cancel: bool)
    requires
        s.inv(),
    ensures
        s.expects(event) ==> next(s, event, cancel).0.nearer_than(s),
        !s.expects(event) ==> next(s, event, cancel) == (s, s.pending()),
{
    if s.policy.valid() {
        crate::policy::lemma_chunk_size_bounds(s.policy);
    }
}

/// The answer to a step is the action that the job then waits on, until the
/// job ends: the answer is then to release the target, if it was held, and
/// else to stop.
pub proof fn lemma_next_answers_pending(s: JobState, event: Event, cancel: bool)
    requires
        s.inv(),
    ensures
        !next(s, event, cancel).0.terminal() ==> next(s, event, cancel).1 == next(
            s,
            event,
            cancel,
        ).0.pending(),
        next(s, event, cancel).0.terminal() ==> next(s, event, cancel).1 == if s.holds_target {
            Action::Release
        } else {
            Action::Stop
        },
{
}

/// The length of a target does not change once a pass has begun, and its
/// path never does.
pub proof fn lemma_next_keeps_target(s: JobState, event: Event, cancel: bool)
    requires
        s.inv(),
    ensures
        next(s, event, cancel).0.target.path == s.target.path,
        next(s, event, cancel).0.target.mount_label == s.target.mount_label,
        !(s.phase is Sizing) ==> next(s, event, cancel).0.target == s.target,
{
}

/// A pass counts as complete only when it has been made durable and the
/// target still has its length: the count of complete passes rises by one
/// from the phase that waits for the probe after the sync, and from no
/// other.
pub proof fn lemma_pass_ends_after_sync(s: JobState, event: Event, cancel: bool)
    requires
        s.inv(),
        next(s, event, cancel).0.pass != s.pass,
    ensures
        s.phase is Confirming,
        event == Event::SizeProbed(s.length() as i128),
        next(s, event, cancel).0.pass == s.pass + 1,
{
}

/// A job that has ended stays as it is and answers every event with
/// [`Action::Stop`]: no pass runs after one that failed.
pub proof fn lemma_ended_job_stays(s: JobState, event: Event, cancel: bool)
    requires
        s.terminal(),
    ensures
        next(s, event, cancel) == (s, Action::Stop),
{
}

/// A target that cannot be had is never written to: the job fails with the
/// error of the refusal, with no byte written, and holds nothing. A path that
/// names nothing gives [`WipeError::DeviceNotFound`], a path that another job
/// holds gives [`WipeError::DeviceBusy`].
pub proof fn lemma_refused_target_is_untouched(
    s: JobState,
    failure: AcquireFailure,
    cancel: bool,
)
    requires
        s.inv(),
        s.phase is Acquiring,
    ensures
        next(s, Event::AcquireFailed(failure), cancel).1 == Action::Stop,
        next(s, Event::AcquireFailed(failure), cancel).0.status() == JobStatus::Failed(
            spec_acquire_error(failure),
        ),
        next(s, Event::AcquireFailed(failure), cancel).0.bytes_written == 0,
{
}

/// A policy that asks for no pass fails the job when it plans, before the
/// target is asked for: nothing is written.
pub proof fn lemma_invalid_policy_fails_planning(s: JobState, cancel: bool)
    requires
        s.inv(),
        s.phase is Planning,
        !s.policy.valid(),
    ensures
        next(s, Event::Continue, cancel).1 == Action::Stop,
        next(s, Event::Continue, cancel).0.status() == JobStatus::Failed(
            WipeError::InvalidPolicy,
        ),
        next(s, Event::Continue, cancel).0.bytes_written == 0,
{
}

/// On a host without a facility the erase of hidden areas ends at once as
/// unsupported: the job asks for no command and ends with its overwrite
/// done.
pub proof fn lemma_no_facility_ends_job(s: JobState, facilities: EraseFacilities, cancel: bool)
    requires
        s.inv(),
        s.phase is Detecting,
        !facilities.ata_utility,
        !facilities.native_utility,
    ensures
        next(s, Event::FacilitiesDetected(facilities), cancel).1 == Action::Release,
        next(s, Event::FacilitiesDetected(facilities), cancel).0.status() == JobStatus::Done,
        next(s, Event::FacilitiesDetected(facilities), cancel).0.hidden_area == Some(
            HiddenAreaOutcome::Unsupported(facilities.platform),
        ),
{
}

/// The state of a job after a run of events, each with the cancellation
/// flag as it stood.
pub open spec fn run(s: JobState, events: Seq<(Event, bool)>) -> JobState
    decreases events.len(),
{
    if events.len() == 0 {
        s
    } else {
        run(next(s, events[0].0, events[0].1).0, events.drop_first())
    }
}

/// The bytes that a run of events reports as written: for every
/// [`Event::ChunkWritten`] that comes while the job waits for a write, the
/// length of that write.
pub open spec fn acknowledged(s: JobState, events: Seq<(Event, bool)>) -> nat
    decreases events.len(),
{
    if events.len() == 0 {
        0
    } else {
        let here = if s.phase is Writing && events[0].0 is ChunkWritten {
            s.chunk_len()
        } else {
            0
        };
        here + acknowledged(next(s, events[0].0, events[0].1).0, events.drop_first())
    }
}

/// A run keeps the invariant of the job, its policy and the path of its
/// target, and the job counts exactly the bytes that were reported as
/// written.
pub proof fn lemma_run_counts_writes(s: JobState, events: Seq<(Event, bool)>)
    requires
        s.inv(),
    ensures
        run(s, events).inv(),
        run(s, events).policy == s.policy,
        run(s, events).target.path == s.target.path,
        run(s, events).bytes_written == s.bytes_written + acknowledged(s, events),
    decreases events.len(),
{
    if events.len() > 0 {
        let after = next(s, events[0].0, events[0].1).0;
        lemma_next_keeps_inv(s, events[0].0, events[0].1);
        lemma_run_counts_writes(after, events.drop_first());
    }
}

/// Whatever the events of a job were, once its overwrite is complete the
/// writes that were reported add up to the length of the target times the
/// number of passes, and every pass is complete: no pass is cut short,
/// however the length stands to the chunk size.
pub proof fn lemma_overwrite_covers_target(
    target: TargetView,
    policy: WipePolicy,
    events: Seq<(Event, bool)>,
)
    requires
        target.length is Some ==> target.length->Some_0 <= u64::MAX,
        run(JobState::initial(target, policy), events).overwrite_complete(),
    ensures
        acknowledged(JobState::initial(target, policy), events) == run(
            JobState::initial(target, policy),
            events,
        ).length() * policy.passes,
        run(JobState::initial(target, policy), events).pass == policy.passes,
        run(JobState::initial(target, policy), events).report().bytes_written == run(
            JobState::initial(target, policy),
            events,
        ).length() * policy.passes,
{
    let start = JobState::initial(target, policy);
    let end = run(start, events);
    lemma_run_counts_writes(start, events);
    assert(end.bytes_written == end.length() * policy.passes) by (nonlinear_arith)
        requires
            end.bytes_written == policy.passes * end.length(),
    ;
    lemma_written_bound(policy.passes as nat, end.length(), 0);
}

/// The state in which the read-back leaves a job that waits for a chunk,
/// where the device gives back what `contents` holds, chunk after chunk, and
/// nobody cancels.
pub open spec fn read_back(s: JobState, contents: Seq<u8>) -> JobState
    decreases s.length() - s.offset,
{
    if s.phase is Reading {
        let data = contents.subrange(s.offset as int, (s.offset + s.chunk_len()) as int);
        let after = s.chunk_read(data, false).0;
        if s.offset < after.offset <= s.length() {
            read_back(after, contents)
        } else {
            after
        }
    } else {
        s
    }
}

/// Reading back in chunks comes to the verdict on the whole: a job that
/// begins its read-back on a device of its length ends it with
/// [`verdict`] on what the device holds, whatever that is, and goes on to the
/// erase of hidden areas.
pub proof fn lemma_read_back_is_verdict(s: JobState, contents: Seq<u8>)
    requires
        s.inv(),
        s.phase is VerifyStart,
        contents.len() == s.length(),
    ensures
        read_back(s.begin_read(false).0, contents).phase is Detecting,
        read_back(s.begin_read(false).0, contents).verification == Some(
            verdict(contents, s.policy.terminal_pattern()),
        ),
{
    let begun = s.begin_read(false).0;
    lemma_next_keeps_inv(s, Event::Continue, false);
    if s.terminal_byte() is Some {
        if s.length() == 0 {
            lemma_matching_prefix(contents, s.terminal_byte()->Some_0, 0);
        } else {
            lemma_read_back_from(begun, contents);
        }
    }
}

/// The step of [`lemma_read_back_is_verdict`]: from any chunk on, if every
/// byte before it matched.
proof fn lemma_read_back_from(s: JobState, contents: Seq<u8>)
    requires
        s.inv(),
        s.phase is Reading,
        contents.len() == s.length(),
        forall|i: int| 0 <= i < s.offset ==> contents[i] == s.terminal_byte()->Some_0,
    ensures
        read_back(s, contents).phase is Detecting,
        read_back(s, contents).verification == Some(
            verdict(contents, s.policy.terminal_pattern()),
        ),
    decreases s.length() - s.offset,
{
    let byte = s.terminal_byte()->Some_0;
    let len = s.chunk_len();
    let data = contents.subrange(s.offset as int, (s.offset + len) as int);
    let good = matching_prefix(counted(data, len), byte);
    let after = s.chunk_read(data, false).0;
    crate::policy::lemma_chunk_size_bounds(s.policy);
    assert(counted(data, len) == data);
    lemma_matching_prefix(data, byte, good);
    lemma_chunk_read_keeps_inv(s, data, false);
    reveal_with_fuel(read_back, 2);
    if good == len {
        assert forall|i: int| 0 <= i < s.offset + len implies contents[i] == byte by {
            if i >= s.offset {
                assert(data[i - s.offset] == contents[i]);
            }
        }
        if after.offset == s.length() {
            lemma_matching_prefix(contents, byte, contents.len());
        } else {
            lemma_read_back_from(after, contents);
        }
    } else {
        assert(data[good as int] == contents[(s.offset + good) as int]);
        assert forall|i: int| 0 <= i < s.offset + good implies contents[i] == byte by {
            if i >= s.offset {
                assert(data[i - s.offset] == contents[i]);
            }
        }
        lemma_matching_prefix(contents, byte, s.offset + good);
    }
}

/// A wipe job: a target, a policy, and how far the work has come.
#[derive(Debug)]
pub struct WipeJob {
    target: StorageTarget,
    policy: WipePolicy,
    plan: Vec<PassSpec>,
    phase: Phase,
    pass: u32,
    offset: u64,
    attempts: u32,
    bytes_written: u128,
    holds_target: bool,
    error: Option<WipeError>,
    verification: Option<VerificationResult>,
    hidden_area: Option<HiddenAreaOutcome>,
}

impl View for WipeJob {
    type V = JobState;

    closed spec fn view(&self) -> JobState {
        JobState {
            target: self.target@,
            policy: self.policy,
            plan: self.plan@,
            phase: self.phase,
            pass: self.pass as nat,
            offset: self.offset as nat,
            attempts: self.attempts as nat,
            bytes_written: self.bytes_written as nat,
            holds_target: self.holds_target,
            error: self.error,
            verification: self.verification,
            hidden_area: self.hidden_area,
        }
    }
}

/// What a job has come to, for the caller to report.
#[derive(Clone, Copy, Debug, PartialEq, Eq)]
pub struct WipeReport {
    pub status: JobStatus,
    /// How many passes were written in full and made durable.
    pub passes_completed: u32,
    /// How many bytes were written, over all passes.
    pub bytes_written: u128,
    /// What the read-back showed. A failed verification is a warning: it
    /// does not undo the passes.
    pub verification: Option<VerificationResult>,
    /// How the erase of hidden areas ended. A failure is a warning too.
    pub hidden_area: Option<HiddenAreaOutcome>,
}

impl Action {
    /// Whether the action ends the caller's loop.
    pub open spec fn spec_is_final(self) -> bool {
        self is Release || self is Stop
    }

    /// See [`Action::spec_is_final`].
    #[verifier::when_used_as_spec(spec_is_final)]
    pub fn is_final(self) -> (last: bool)
        ensures
            last == self.spec_is_final(),
    {
        matches!(self, Action::Release | Action::Stop)
    }
}

impl WipeReport {
    /// The result of the overwrite, once the job has ended: neither the
    /// read-back nor the erase of hidden areas changes it.
    pub open spec fn spec_overwrite_result(self) -> Option<Result<(), WipeError>> {
        match self.status {
            JobStatus::Done => Some(Ok(())),
            JobStatus::Failed(error) => Some(Err(error)),
            _ => None,
        }
    }

    /// See [`WipeReport::spec_overwrite_result`].
    #[verifier::when_used_as_spec(spec_overwrite_result)]
    pub fn overwrite_result(self) -> (result: Option<Result<(), WipeError>>)
        ensures
            result == self.spec_overwrite_result(),
    {
        match self.status {
            JobStatus::Done => Some(Ok(())),
            JobStatus::Failed(error) => Some(Err(error)),
            _ => None,
        }
    }

    /// The exit code of a command-line run: 0 where the overwrite succeeded,
    /// whatever became of the hidden areas, and 1 otherwise.
    pub open spec fn spec_exit_code(self) -> i32 {
        if self.status is Done {
            0
        } else {
            1
        }
    }

    /// See [`WipeReport::spec_exit_code`].
    #[verifier::when_used_as_spec(spec_exit_code)]
    pub fn exit_code(self) -> (code: i32)
        ensures
            code == self.spec_exit_code(),
    {
        match self.status {
            JobStatus::Done => 0,
            _ => 1,
        }
    }
}

impl JobState {
    /// The report of a job in this state.
    pub open spec fn report(self) -> WipeReport {
        WipeReport {
            status: self.status(),
            passes_completed: self.pass as u32,
            bytes_written: self.bytes_written as u128,
            verification: self.verification,
            hidden_area: self.hidden_area,
        }
    }
}

impl WipeJob {
    /// A job for `target` under `policy`, not yet started.
    pub fn new(target: StorageTarget, policy: WipePolicy) -> (job: WipeJob)
        ensures
            job@ == JobState::initial(target@, policy),
            job@.inv(),
    {
        WipeJob {
            target,
            policy,
            plan: Vec::new(),
            phase: Phase::Idle,
            pass: 0,
            offset: 0,
            attempts: 0,
            bytes_written: 0,
            holds_target: false,
            error: None,
            verification: None,
            hidden_area: None,
        }
    }

    /// The target of the job.
    pub fn target(&self) -> (target: &StorageTarget)
        ensures
            target@ == self@.target,
    {
        &self.target
    }

    /// The policy of the job.
    pub fn policy(&self) -> (policy: WipePolicy)
        ensures
            policy == self@.policy,
    {
        self.policy
    }

    /// The plan of the job; empty until the job has planned.
    pub fn plan(&self) -> (plan: &Vec<PassSpec>)
        ensures
            plan@ == self@.plan,
    {
        &self.plan
    }

    /// The phase of the job.
    pub fn phase(&self) -> (phase: Phase)
        ensures
            phase == self@.phase,
    {
        self.phase
    }

    /// Whether the caller holds the target for this job.
    pub fn holds_target(&self) -> (held: bool)
        ensures
            held == self@.holds_target,
    {
        self.holds_target
    }

    /// Whether the job has ended.
    pub fn is_terminal(&self) -> (ended: bool)
        ensures
            ended == self@.terminal(),
    {
        matches!(self.phase, Phase::Done | Phase::Failed)
    }

    /// The status of the job.
    pub fn status(&self) -> (status: JobStatus)
        ensures
            status == self@.status(),
    {
        match self.phase {
            Phase::Idle => JobStatus::Idle,
            Phase::Planning => JobStatus::Planning,
            Phase::Acquiring => JobStatus::Overwriting(0),
            Phase::Sizing => JobStatus::Overwriting(0),
            Phase::Preparing => JobStatus::Overwriting(self.pass),
            Phase::Writing => JobStatus::Overwriting(self.pass),
            Phase::Syncing => JobStatus::Overwriting(self.pass),
            Phase::Confirming => JobStatus::Overwriting(self.pass),
            Phase::VerifyStart => JobStatus::Verifying,
            Phase::Reading => JobStatus::Verifying,
            Phase::Detecting => JobStatus::ErasingHiddenAreas,
            Phase::Erasing(_) => JobStatus::ErasingHiddenAreas,
            Phase::StandingDown => JobStatus::ErasingHiddenAreas,
            Phase::Done => JobStatus::Done,
            Phase::Failed => JobStatus::Failed(
                match self.error {
                    Some(error) => error,
                    None => WipeError::Cancelled,
                },
            ),
        }
    }

    /// The report of the job as it stands.
    pub fn report(&self) -> (report: WipeReport)
        ensures
            report == self@.report(),
    {
        WipeReport {
            status: self.status(),
            passes_completed: self.pass,
            bytes_written: self.bytes_written,
            verification: self.verification,
            hidden_area: self.hidden_area,
        }
    }

    fn length(&self) -> (length: u64)
        ensures
            length == self@.length(),
    {
        match self.target.length {
            Some(n) => n,
            None => 0,
        }
    }

    fn chunk_len(&self) -> (len: usize)
        requires
            self@.offset <= self@.length(),
        ensures
            len == self@.chunk_len(),
    {
        let left: u64 = self.length() - self.offset;
        if left < self.policy.chunk_size as u64 {
            left as usize
        } else {
            self.policy.chunk_size
        }
    }

    /// The action that the job waits on: what [`WipeJob::advance`] answered
    /// last, or will answer to an event that the job does not wait for.
    pub fn pending_action(&self) -> (action: Action)
        requires
            self@.inv(),
        ensures
            action == self@.pending(),
    {
        match self.phase {
            Phase::Idle => Action::Continue,
            Phase::Planning => Action::Continue,
            Phase::Acquiring => Action::Acquire,
            Phase::Sizing => Action::ProbeSize,
            Phase::Preparing => Action::PrepareChunk {
                pattern: self.plan[self.pass as usize].pattern,
                len: self.chunk_len(),
            },
            Phase::Writing => Action::WriteChunk { offset: self.offset, len: self.chunk_len() },
            Phase::Syncing => Action::Sync,
            Phase::Confirming => Action::ProbeSize,
            Phase::VerifyStart => Action::Continue,
            Phase::Reading => Action::ReadChunk { offset: self.offset, len: self.chunk_len() },
            Phase::Detecting => Action::DetectEraseFacilities,
            Phase::Erasing(strategy) => Action::RunEraseCommand(strategy),
            Phase::StandingDown => Action::Continue,
            Phase::Done => Action::Stop,
            Phase::Failed => Action::Stop,
        }
    }

    fn fail(&mut self, error: WipeError) -> (action: Action)
        ensures
            (final(self)@, action) == old(self)@.fail(error),
    {
        let action = if self.holds_target {
            Action::Release
        } else {
            Action::Stop
        };
        self.phase = Phase::Failed;
        self.error = Some(error);
        self.holds_target = false;
        action
    }

    fn io_error(&self) -> (error: WipeError)
        ensures
            error == self@.io_error(),
    {
        WipeError::IoErrorDuringPass { pass: self.pass, offset: self.offset }
    }

    fn planned(&mut self) -> (action: Action)
        ensures
            (final(self)@, action) == old(self)@.planned(),
    {
        match build_plan(&self.target, &self.policy) {
            Ok(plan) => {
                self.plan = plan;
                self.phase = Phase::Acquiring;
                Action::Acquire
            },
            Err(_) => self.fail(WipeError::InvalidPolicy),
        }
    }

    fn begin_chunk(&mut self, cancel: bool) -> (action: Action)
        requires
            old(self)@.offset <= old(self)@.length(),
            old(self)@.pass < old(self)@.plan.len(),
        ensures
            (final(self)@, action) == old(self)@.begin_chunk(cancel),
    {
        if self.offset < self.length() {
            if cancel {
                self.fail(WipeError::Cancelled)
            } else {
                self.phase = Phase::Preparing;
                self.attempts = 0;
                Action::PrepareChunk {
                    pattern: self.plan[self.pass as usize].pattern,
                    len: self.chunk_len(),
                }
            }
        } else {
            self.phase = Phase::Syncing;
            Action::Sync
        }
    }

    fn sized(&mut self, raw: i128, cancel: bool) -> (action: Action)
        requires
            old(self)@.inv(),
            old(self)@.phase is Sizing,
        ensures
            (final(self)@, action) == old(self)@.sized(raw, cancel),
    {
        if 0 <= raw && raw <= u64::MAX as i128 {
            self.target.length = Some(raw as u64);
            self.pass = 0;
            self.offset = 0;
            self.bytes_written = 0;
            self.begin_chunk(cancel)
        } else {
            self.fail(WipeError::SizeDeterminationFailed)
        }
    }

    fn chunk_written(&mut self, cancel: bool) -> (action: Action)
        requires
            old(self)@.inv(),
            old(self)@.phase is Writing,
        ensures
            (final(self)@, action) == old(self)@.chunk_written(cancel),
    {
        let len = self.chunk_len();
        proof {
            lemma_written_bound(self@.pass, self@.length(), (self@.offset + len) as nat);
        }
        self.offset = self.offset + len as u64;
        self.bytes_written = self.bytes_written + len as u128;
        self.begin_chunk(cancel)
    }

    fn chunk_failed(&mut self) -> (action: Action)
        requires
            old(self)@.inv(),
            old(self)@.phase is Writing,
        ensures
            (final(self)@, action) == old(self)@.chunk_failed(),
    {
        if self.attempts < MAX_WRITE_RETRIES {
            self.attempts = self.attempts + 1;
            Action::WriteChunk { offset: self.offset, len: self.chunk_len() }
        } else {
            let error = self.io_error();
            self.fail(error)
        }
    }

    fn confirmed(&mut self, raw: i128, cancel: bool) -> (action: Action)
        requires
            old(self)@.inv(),
            old(self)@.phase is Confirming,
        ensures
            (final(self)@, action) == old(self)@.confirmed(raw, cancel),
    {
        if raw == self.length() as i128 {
            self.pass = self.pass + 1;
            self.offset = 0;
            if self.pass < self.policy.passes {
                self.begin_chunk(cancel)
            } else {
                self.phase = Phase::VerifyStart;
                Action::Continue
            }
        } else {
            self.fail(WipeError::SizeDeterminationFailed)
        }
    }

    fn verified(&mut self, result: VerificationResult) -> (action: Action)
        ensures
            (final(self)@, action) == old(self)@.verified(result),
    {
        self.phase = Phase::Detecting;
        self.verification = Some(result);
        Action::DetectEraseFacilities
    }

    fn stand_down(&mut self) -> (action: Action)
        ensures
            (final(self)@, action) == old(self)@.stand_down(),
    {
        self.phase = Phase::StandingDown;
        self.verification = Some(
            VerificationResult { passed: false, first_mismatch: None, bytes_sampled: self.offset },
        );
        Action::Continue
    }

    fn terminal_byte(&self) -> (byte: Option<u8>)
        requires
            self@.policy.passes >= 1,
        ensures
            byte == self@.terminal_byte(),
    {
        self.policy.pattern_for(self.policy.passes - 1).expected_byte()
    }

    fn begin_read(&mut self, cancel: bool) -> (action: Action)
        requires
            old(self)@.inv(),
            old(self)@.phase is VerifyStart,
        ensures
            (final(self)@, action) == old(self)@.begin_read(cancel),
    {
        if self.terminal_byte().is_none() || self.length() == 0 {
            self.verified(
                VerificationResult { passed: true, first_mismatch: None, bytes_sampled: 0 },
            )
        } else if cancel {
            self.stand_down()
        } else {
            self.phase = Phase::Reading;
            Action::ReadChunk { offset: self.offset, len: self.chunk_len() }
        }
    }

    fn chunk_read(&mut self, data: &[u8], cancel: bool) -> (action: Action)
        requires
            old(self)@.inv(),
            old(self)@.phase is Reading,
        ensures
            (final(self)@, action) == old(self)@.chunk_read(data@, cancel),
    {
        let len = self.chunk_len();
        let byte = match self.terminal_byte() {
            Some(byte) => byte,
            None => 0,
        };
        let good = scan_chunk(data, len, byte);
        proof {
            crate::readback::lemma_matching_prefix_bounded(counted(data@, len as nat), byte);
        }
        if good == len {
            self.offset = self.offset + len as u64;
            if self.offset == self.length() {
                let length = self.length();
                self.verified(
                    VerificationResult {
                        passed: true,
                        first_mismatch: None,
                        bytes_sampled: length,
                    },
                )
            } else if cancel {
                self.stand_down()
            } else {
                Action::ReadChunk { offset: self.offset, len: self.chunk_len() }
            }
        } else {
            let seen: usize = if data.len() <= len {
                data.len()
            } else {
                len
            };
            let at: u64 = self.offset + good as u64;
            let sampled: u64 = if good < seen {
                at + 1
            } else {
                at
            };
            self.verified(
                VerificationResult {
                    passed: false,
                    first_mismatch: Some(at),
                    bytes_sampled: sampled,
                },
            )
        }
    }

    fn finish(&mut self, outcome: Option<HiddenAreaOutcome>) -> (action: Action)
        ensures
            (final(self)@, action) == old(self)@.finish(outcome),
    {
        self.phase = Phase::Done;
        self.hidden_area = outcome;
        self.holds_target = false;
        Action::Release
    }

    fn facilities_detected(&mut self, facilities: EraseFacilities) -> (action: Action)
        ensures
            (final(self)@, action) == old(self)@.facilities_detected(facilities),
    {
        match plan_erase(facilities) {
            ErasePlan::Settled(outcome) => self.finish(Some(outcome)),
            ErasePlan::Invoke(strategy) => {
                self.phase = Phase::Erasing(strategy);
                Action::RunEraseCommand(strategy)
            },
        }
    }

    /// Takes the job one step on: `event` is what came of the action that
    /// the job handed out last, `cancel` the cancellation flag as it stands.
    /// The answer is the action to perform next.
    pub fn advance(&mut self, event: Event, cancel: bool) -> (action: Action)
        requires
            old(self)@.inv(),
        ensures
            (final(self)@, action) == next(old(self)@, event, cancel),
            final(self)@.inv(),
    {
        proof {
            lemma_next_keeps_inv(self@, event, cancel);
        }
        match (self.phase, event) {
            (Phase::Idle, Event::Continue) => {
                self.phase = Phase::Planning;
                Action::Continue
            },
            (Phase::Planning, Event::Continue) => self.planned(),
            (Phase::Acquiring, Event::Acquired) => {
                self.phase = Phase::Sizing;
                self.holds_target = true;
                Action::ProbeSize
            },
            (Phase::Acquiring, Event::AcquireFailed(failure)) => self.fail(
                acquire_error(failure),
            ),
            (Phase::Sizing, Event::SizeProbed(raw)) => self.sized(raw, cancel),
            (Phase::Sizing, Event::SizeProbeFailed) => self.fail(
                WipeError::SizeDeterminationFailed,
            ),
            (Phase::Preparing, Event::ChunkPrepared) => {
                self.phase = Phase::Writing;
                Action::WriteChunk { offset: self.offset, len: self.chunk_len() }
            },
            (Phase::Preparing, Event::ChunkPreparationFailed) => {
                let error = self.io_error();
                self.fail(error)
            },
            (Phase::Writing, Event::ChunkWritten) => self.chunk_written(cancel),
            (Phase::Writing, Event::ChunkFailed) => self.chunk_failed(),
            (Phase::Syncing, Event::Synced) => {
                self.phase = Phase::Confirming;
                Action::ProbeSize
            },
            (Phase::Syncing, Event::SyncFailed) => {
                let error = self.io_error();
                self.fail(error)
            },
            (Phase::Confirming, Event::SizeProbed(raw)) => self.confirmed(raw, cancel),
            (Phase::Confirming, Event::SizeProbeFailed) => self.fail(
                WipeError::SizeDeterminationFailed,
            ),
            (Phase::VerifyStart, Event::Continue) => self.begin_read(cancel),
            (Phase::Reading, Event::ChunkRead(data)) => self.chunk_read(data.as_slice(), cancel),
            (Phase::Reading, Event::ReadFailed) => {
                let nothing: Vec<u8> = Vec::new();
                self.chunk_read(nothing.as_slice(), cancel)
            },
            (Phase::Detecting, Event::FacilitiesDetected(facilities)) => self.facilities_detected(
                facilities,
            ),
            (Phase::Erasing(_), Event::EraseCommandFinished(status)) => self.finish(
                Some(outcome_of_exit(status)),
            ),
            (Phase::StandingDown, Event::Continue) => self.finish(None),
            _ => self.pending_action(),
        }
    }
}

} // verus!
