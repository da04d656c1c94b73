//! A target held in memory, and a job run on it from start to end.
//!
//! Such a target never fails a write, a sync or a read and has no hidden
//! areas, so the only thing that can go wrong after planning is the
//! generator of random data.

use crate::error::WipeError;
use crate::hidden_area::{EraseFacilities, HiddenAreaOutcome, Presence};
use crate::job::{
    lemma_next_answers_pending, lemma_next_keeps_inv, next, Action, Event, JobState, JobStatus,
    Phase, WipeReport,
};
use crate::orchestrator::{
    draws_random, lemma_step_progress, preparation, step_result, WipeOrchestrator,
};
use crate::platform::Platform;
use crate::policy::{lemma_chunk_size_bounds, WipePolicy};
use crate::readback::{counted, lemma_matching_prefix, verdict};
use crate::target::StorageTarget;
use vstd::prelude::*;
use vstd::string::*;

verus! {

/// What an in-memory target offers for the erase of hidden areas: nothing.
pub open spec fn spec_memory_facilities() -> EraseFacilities {
    EraseFacilities {
        platform: Platform::Other,
        ata_utility: false,
        native_utility: false,
        hidden_areas: Presence::Absent,
    }
}

/// `bytes` with `data` written over it from `offset` on.
pub open spec fn overwritten(bytes: Seq<u8>, offset: int, data: Seq<u8>) -> Seq<u8> {
    Seq::new(
        bytes.len(),
        |i: int|
            if offset <= i < offset + data.len() {
                data[i - offset]
            } else {
                bytes[i]
            },
    )
}

fn write_at(bytes: &mut Vec<u8>, offset: usize, data: &[u8])
    requires
        offset + data@.len() <= old(bytes)@.len(),
    ensures
        final(bytes)@ == overwritten(old(bytes)@, offset as int, data@),
{
    let total: usize = bytes.len();
    let mut i: usize = 0;
    while i < data.len()
        invariant
            i <= data@.len(),
            offset + data@.len() <= bytes@.len() == total,
            bytes@ == overwritten(old(bytes)@, offset as int, data@.take(i as int)),
        decreases data@.len() - i,
    {
        bytes[offset + i] = data[i];
        i = i + 1;
        assert(bytes@ =~= overwritten(old(bytes)@, offset as int, data@.take(i as int)));
    }
    assert(data@.take(i as int) =~= data@);
}

fn read_at(bytes: &Vec<u8>, offset: usize, len: usize) -> (data: Vec<u8>)
    requires
        offset + len <= bytes@.len(),
    ensures
        data@ == bytes@.subrange(offset as int, offset + len),
{
    let total: usize = bytes.len();
    let mut data: Vec<u8> = Vec::new();
    let mut i: usize = 0;
    while i < len
        invariant
            i <= len,
            offset + len <= bytes@.len() == total,
            data@ == bytes@.subrange(offset as int, offset + i),
        decreases len - i,
    {
        data.push(bytes[offset + i]);
        i = i + 1;
        assert(data@ =~= bytes@.subrange(offset as int, offset + i));
    }
    data
}

/// Whether `event` and `after` are what an in-memory target that holds
/// `before` makes of `action`, where `chunk` is the data of a write. Such a
/// target grants access, tells its length, takes every write, is durable as
/// it is, gives back what it holds, and offers nothing that erases hidden
/// areas.
pub open spec fn replies(
    action: Action,
    before: Seq<u8>,
    chunk: Seq<u8>,
    event: Event,
    after: Seq<u8>,
) -> bool {
    match action {
        Action::Continue => event == Event::Continue && after == before,
        Action::Acquire => event == Event::Acquired && after == before,
        Action::ProbeSize => event == Event::SizeProbed(before.len() as i128) && after == before,
        Action::WriteChunk { offset, len } => event == Event::ChunkWritten && after
            == overwritten(before, offset as int, chunk),
        Action::Sync => event == Event::Synced && after == before,
        Action::ReadChunk { offset, len } => event is ChunkRead && event->ChunkRead_0@
            == before.subrange(offset as int, offset + len) && after == before,
        Action::DetectEraseFacilities => event == Event::FacilitiesDetected(
            spec_memory_facilities(),
        ) && after == before,
        _ => event == Event::Continue && after == before,
    }
}

/// Performs `action` on the target that `bytes` holds.
fn perform(bytes: &mut Vec<u8>, action: Action, chunk: &[u8]) -> (event: Event)
    requires
        action is WriteChunk ==> action->WriteChunk_offset + chunk@.len() <= old(bytes)@.len(),
        action is ReadChunk ==> action->ReadChunk_offset + action->ReadChunk_len <= old(
            bytes,
        )@.len(),
    ensures
        replies(action, old(bytes)@, chunk@, event, final(bytes)@),
{
    let size: usize = bytes.len();
    match action {
        Action::Continue => Event::Continue,
        Action::Acquire => Event::Acquired,
        Action::ProbeSize => Event::SizeProbed(size as i128),
        Action::WriteChunk { offset, len } => {
            write_at(bytes, offset as usize, chunk);
            Event::ChunkWritten
        },
        Action::Sync => Event::Synced,
        Action::ReadChunk { offset, len } => Event::ChunkRead(
            read_at(bytes, offset as usize, len),
        ),
        Action::DetectEraseFacilities => Event::FacilitiesDetected(
            EraseFacilities {
                platform: Platform::Other,
                ata_utility: false,
                native_utility: false,
                hidden_areas: Presence::Absent,
            },
        ),
        _ => Event::Continue,
    }
}

/// How the bytes of an in-memory target stand to the job that runs on it.
/// `initial` is what the target held before the job.
pub open spec fn in_step(s: JobState, bytes: Seq<u8>, initial: Seq<u8>) -> bool {
    &&& bytes.len() == initial.len() <= usize::MAX
    &&& !(s.phase is Preparing) && !(s.phase is Erasing) && !(s.phase is StandingDown)
    &&& match s.target.length {
        Some(n) => n == bytes.len(),
        None => !s.in_pass() && !s.overwrite_complete(),
    }
    &&& (s.phase is Idle || s.phase is Planning || s.phase is Acquiring || s.phase is Sizing)
        ==> bytes == initial && s.bytes_written == 0
    &&& s.in_pass() ==> s.pattern().admits(bytes.take(s.offset as int))
    &&& s.overwrite_complete() ==> s.policy.terminal_pattern().admits(bytes)
    &&& (s.phase is Detecting || s.phase is Done) ==> s.verification == Some(
        verdict(bytes, s.policy.terminal_pattern()),
    )
    &&& s.phase is Done ==> s.hidden_area == Some(HiddenAreaOutcome::Unsupported(Platform::Other))
    &&& s.phase is Failed ==> {
        ||| !s.policy.valid() && s.error == Some(WipeError::InvalidPolicy) && bytes == initial
            && s.bytes_written == 0
        ||| s.policy.valid() && s.error == Some(s.io_error()) && s.policy.pattern_at(
            s.pass as int,
        ) is Random && s.pass < s.policy.passes && s.target.length == Some(bytes.len())
    }
}

/// What a job on an in-memory target comes to. `before` and `after` are the
/// bytes of the target before and after the job.
///
/// An invalid policy is refused and nothing is written. Under a valid
/// policy the job either succeeds or fails in a random pass, for want of
/// random data. Where it succeeds, every pass was written over the whole
/// target: the bytes written are the length times the number of passes; the
/// target holds the pattern of the last pass throughout, so zeros where
/// that pattern is zeros; the read-back says so; and the hidden areas are
/// reported as unsupported.
pub open spec fn wiped(before: Seq<u8>, after: Seq<u8>, policy: WipePolicy, report: WipeReport)
    -> bool {
    &&& after.len() == before.len()
    &&& !policy.valid() ==> {
        &&& report.status == JobStatus::Failed(WipeError::InvalidPolicy)
        &&& report.bytes_written == 0
        &&& after == before
    }
    &&& policy.valid() ==> match report.status {
        JobStatus::Done => {
            &&& report.passes_completed == policy.passes
            &&& report.bytes_written == before.len() * policy.passes
            &&& policy.terminal_pattern().admits(after)
            &&& report.verification == Some(verdict(after, policy.terminal_pattern()))
            &&& report.verification->Some_0.passed
            &&& report.hidden_area == Some(HiddenAreaOutcome::Unsupported(Platform::Other))
        },
        JobStatus::Failed(WipeError::IoErrorDuringPass { pass, offset }) => {
            &&& pass < policy.passes
            &&& policy.pattern_at(pass as int) is Random
            &&& report.passes_completed == pass
            &&& report.bytes_written == before.len() * pass + offset
        },
        _ => false,
    }
}

/// Runs a job under `policy` on the target that `bytes` holds, from start
/// to end, and reports what it came to. The job is never cancelled.
pub fn wipe_in_memory(bytes: &mut Vec<u8>, policy: WipePolicy) -> (report: WipeReport)
    ensures
        wiped(old(bytes)@, final(bytes)@, policy, report),
{
    let ghost initial = bytes@;
    let size: usize = bytes.len();
    let target = StorageTarget::new(String::from_str("memory"));
    let mut orchestrator = WipeOrchestrator::new(target, policy);
    let mut action = Action::Continue;
    while !action.is_final()
        invariant
            orchestrator.wf(),
            orchestrator@.policy == policy,
            in_step(orchestrator@, bytes@, initial),
            orchestrator@.terminal() ==> action.spec_is_final(),
            !orchestrator@.terminal() ==> action == orchestrator@.pending(),
        decreases orchestrator@.stage(), orchestrator@.remaining(), orchestrator@.substep(),
    {
        let ghost s = orchestrator@;
        let ghost held = bytes@;
        proof {
            lemma_pending_fits(s, held, initial);
        }
        let event = perform(bytes, action, orchestrator.chunk());
        proof {
            lemma_memory_step(s, orchestrator.chunk_data(), event, true, held, bytes@, initial);
            if draws_random(s, event, false) {
                lemma_memory_step(
                    s,
                    orchestrator.chunk_data(),
                    event,
                    false,
                    held,
                    bytes@,
                    initial,
                );
            }
        }
        action = orchestrator.step(event, false);
    }
    proof {
        lemma_ended(orchestrator@, bytes@, initial);
    }
    orchestrator.report()
}

/// After a job that succeeded and whose last pass writes zeros, the target
/// holds as many bytes as before, and every one of them is 0x00.
pub proof fn lemma_zero_pass_leaves_zeros(
    before: Seq<u8>,
    after: Seq<u8>,
    policy: WipePolicy,
    report: WipeReport,
)
    requires
        wiped(before, after, policy, report),
        report.status is Done,
        policy.terminal_pattern() is Zero,
    ensures
        after == Seq::new(before.len(), |i: int| 0u8),
        report.verification == Some(
            crate::readback::VerificationResult {
                passed: true,
                first_mismatch: None,
                bytes_sampled: before.len() as u64,
            },
        ),
{
    assert(after =~= Seq::new(before.len(), |i: int| 0u8));
    lemma_matching_prefix(after, 0u8, after.len());
}

/// The write or the read that a job in step with its target waits on lies
/// inside the target.
proof fn lemma_pending_fits(s: JobState, bytes: Seq<u8>, initial: Seq<u8>)
    requires
        s.inv(),
        in_step(s, bytes, initial),
    ensures
        s.pending() is WriteChunk ==> s.phase is Writing && s.pending()->WriteChunk_offset
            + s.chunk_len() <= bytes.len(),
        s.pending() is ReadChunk ==> s.pending()->ReadChunk_offset
            + s.pending()->ReadChunk_len <= bytes.len(),
{
    if s.policy.valid() {
        lemma_chunk_size_bounds(s.policy);
    }
}

/// A step on the reply of an in-memory target keeps the bytes and the job
/// in step and brings the job nearer to its end.
proof fn lemma_memory_step(
    s: JobState,
    chunk: Seq<u8>,
    event: Event,
    prepared: bool,
    before: Seq<u8>,
    after: Seq<u8>,
    initial: Seq<u8>,
)
    requires
        s.inv(),
        !s.terminal(),
        in_step(s, before, initial),
        s.phase is Writing ==> chunk.len() == s.chunk_len() && s.pattern().admits(chunk),
        replies(s.pending(), before, chunk, event, after),
        prepared || draws_random(s, event, false),
    ensures
        step_result(s, event, false, prepared).0.inv(),
        step_result(s, event, false, prepared).0.policy == s.policy,
        step_result(s, event, false, prepared).0.nearer_than(s),
        in_step(step_result(s, event, false, prepared).0, after, initial),
        !step_result(s, event, false, prepared).0.terminal() ==> step_result(
            s,
            event,
            false,
            prepared,
        ).1 == step_result(s, event, false, prepared).0.pending(),
        step_result(s, event, false, prepared).0.terminal() ==> step_result(
            s,
            event,
            false,
            prepared,
        ).1.spec_is_final(),
{
    let first = next(s, event, false);
    let t = step_result(s, event, false, prepared).0;
    if s.policy.valid() {
        lemma_chunk_size_bounds(s.policy);
    }
    lemma_step_progress(s, event, false, prepared);
    lemma_next_keeps_inv(s, event, false);
    lemma_next_answers_pending(s, event, false);
    lemma_next_answers_pending(first.0, preparation(prepared), false);
    assert(after.take(0) =~= Seq::<u8>::empty());
    match s.phase {
        Phase::Writing => {
            let end = s.offset + s.chunk_len();
            if s.pattern().spec_expected_byte() is Some {
                let byte = s.pattern().spec_expected_byte()->Some_0;
                assert forall|i: int| 0 <= i < end implies after.take(end as int)[i] == byte by {
                    if i < s.offset {
                        assert(before.take(s.offset as int)[i] == before[i]);
                    } else {
                        assert(after[i] == chunk[i - s.offset]);
                    }
                }
            }
            assert(after.take(s.length() as int) =~= after);
            assert(in_step(t, after, initial));
        },
        Phase::Confirming => {
            assert(before.take(s.length() as int) =~= before);
            assert(in_step(t, after, initial));
        },
        Phase::Reading => {
            let data = event->ChunkRead_0@;
            let byte = s.terminal_byte()->Some_0;
            assert forall|i: int| 0 <= i < data.len() implies data[i] == byte by {
                assert(data[i] == before[s.offset + i]);
            }
            lemma_matching_prefix(counted(data, s.chunk_len()), byte, s.chunk_len());
            lemma_matching_prefix(before, byte, before.len());
            assert(in_step(t, after, initial));
        },
        Phase::VerifyStart => {
            if s.terminal_byte() is Some {
                lemma_matching_prefix(before, s.terminal_byte()->Some_0, before.len());
            }
            assert(in_step(t, after, initial));
        },
        Phase::Idle => assert(in_step(t, after, initial)),
        Phase::Planning => assert(in_step(t, after, initial)),
        Phase::Acquiring => assert(in_step(t, after, initial)),
        Phase::Sizing => assert(in_step(t, after, initial)),
        Phase::Syncing => assert(in_step(t, after, initial)),
        Phase::Detecting => assert(in_step(t, after, initial)),
        _ => {},
    }
}

/// A job that has ended in step with its target has wiped it, or says why
/// not.
proof fn lemma_ended(s: JobState, bytes: Seq<u8>, initial: Seq<u8>)
    requires
        s.inv(),
        s.terminal(),
        in_step(s, bytes, initial),
    ensures
        wiped(initial, bytes, s.policy, s.report()),
{
    if s.phase is Done {
        if s.terminal_byte() is Some {
            lemma_matching_prefix(bytes, s.terminal_byte()->Some_0, bytes.len());
        }
        assert(s.bytes_written == bytes.len() * s.policy.passes) by (nonlinear_arith)
            requires
                s.bytes_written == s.policy.passes * s.length(),
                s.length() == bytes.len(),
        ;
        crate::job::lemma_written_bound(s.policy.passes as nat, s.length(), 0);
    } else if s.policy.valid() {
        assert(s.pass * s.length() == bytes.len() * s.pass) by (nonlinear_arith)
            requires
                s.length() == bytes.len(),
        ;
        crate::job::lemma_written_bound(s.pass, s.length(), s.offset);
    }
}

} // verus!
