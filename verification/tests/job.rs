use secure_wipe::error::WipeError;
use secure_wipe::hidden_area::{EraseFacilities, EraseStrategy, HiddenAreaOutcome, Presence};
use secure_wipe::job::{
    acquire_error, AcquireFailure, Action, Event, JobStatus, Phase, WipeJob, MAX_WRITE_RETRIES,
};
use secure_wipe::orchestrator::WipeOrchestrator;
use secure_wipe::platform::Platform;
use secure_wipe::policy::{PatternKind, WipePolicy};
use secure_wipe::readback::VerificationResult;
use secure_wipe::target::StorageTarget;

fn orchestrator(passes: u32, chunk: usize) -> WipeOrchestrator {
    WipeOrchestrator::new(
        StorageTarget::new("/dev/mock".to_string()),
        WipePolicy::new(passes).with_chunk_size(chunk),
    )
}

fn no_facility() -> EraseFacilities {
    EraseFacilities {
        platform: Platform::Linux,
        ata_utility: false,
        native_utility: false,
        hidden_areas: Presence::Unknown,
    }
}

/// Takes an orchestrator to the first write of pass 0 on a target of `size`
/// bytes and returns that action.
fn start(orchestrator: &mut WipeOrchestrator, size: i128) -> Action {
    assert_eq!(orchestrator.step(Event::Continue, false), Action::Continue);
    assert_eq!(orchestrator.step(Event::Continue, false), Action::Acquire);
    assert_eq!(orchestrator.step(Event::Acquired, false), Action::ProbeSize);
    orchestrator.step(Event::SizeProbed(size), false)
}

/// Writes every chunk of the current pass and syncs it; returns the answer
/// to the probe after the pass.
fn write_pass(orchestrator: &mut WipeOrchestrator, first: Action, size: i128) -> Action {
    let mut action = first;
    while let Action::WriteChunk { .. } = action {
        action = orchestrator.step(Event::ChunkWritten, false);
    }
    assert_eq!(action, Action::Sync);
    assert_eq!(orchestrator.step(Event::Synced, false), Action::ProbeSize);
    orchestrator.step(Event::SizeProbed(size), false)
}

#[test]
fn a_job_goes_through_every_status_in_order() {
    let mut o = orchestrator(2, 8);
    let mut seen: Vec<JobStatus> = vec![o.job().status()];
    let mut bytes: Vec<u8> = vec![0x42; 20];
    let mut action = Action::Continue;
    while !action.is_final() {
        let event = match action {
            Action::Continue => Event::Continue,
            Action::Acquire => Event::Acquired,
            Action::ProbeSize => Event::SizeProbed(bytes.len() as i128),
            Action::WriteChunk { offset, len } => {
                let at = offset as usize;
                bytes[at..at + len].copy_from_slice(o.chunk());
                Event::ChunkWritten
            }
            Action::Sync => Event::Synced,
            Action::ReadChunk { offset, len } => {
                let at = offset as usize;
                Event::ChunkRead(bytes[at..at + len].to_vec())
            }
            Action::DetectEraseFacilities => Event::FacilitiesDetected(no_facility()),
            other => panic!("unexpected action {:?}", other),
        };
        action = o.step(event, false);
        if seen.last() != Some(&o.job().status()) {
            seen.push(o.job().status());
        }
    }
    assert_eq!(action, Action::Release);
    assert_eq!(
        seen,
        vec![
            JobStatus::Idle,
            JobStatus::Planning,
            JobStatus::Overwriting(0),
            JobStatus::Overwriting(1),
            JobStatus::Verifying,
            JobStatus::ErasingHiddenAreas,
            JobStatus::Done,
        ]
    );
    assert_eq!(bytes, vec![0u8; 20]);
    let report = o.report();
    assert_eq!(report.bytes_written, 40);
    assert_eq!(report.passes_completed, 2);
    assert_eq!(report.hidden_area, Some(HiddenAreaOutcome::Unsupported(Platform::Linux)));
    assert_eq!(o.job().target().length, Some(20));
    assert!(!o.job().holds_target());
    assert!(o.job().is_terminal());
}

#[test]
fn the_last_chunk_is_cut_to_what_is_left() {
    let mut o = orchestrator(1, 8);
    let first = start(&mut o, 22);
    assert_eq!(first, Action::WriteChunk { offset: 0, len: 8 });
    assert_eq!(o.chunk(), &[0u8; 8][..]);
    assert_eq!(o.step(Event::ChunkWritten, false), Action::WriteChunk { offset: 8, len: 8 });
    assert_eq!(o.step(Event::ChunkWritten, false), Action::WriteChunk { offset: 16, len: 6 });
    assert_eq!(o.chunk(), &[0u8; 6][..]);
    assert_eq!(o.step(Event::ChunkWritten, false), Action::Sync);
    assert_eq!(o.report().bytes_written, 22);
}

#[test]
fn a_missing_target_gives_device_not_found_and_no_write() {
    let mut o = orchestrator(3, 8);
    assert_eq!(o.step(Event::Continue, false), Action::Continue);
    assert_eq!(o.step(Event::Continue, false), Action::Acquire);
    let action = o.step(Event::AcquireFailed(AcquireFailure::NotFound), false);
    assert_eq!(action, Action::Stop);
    let report = o.report();
    assert_eq!(report.status, JobStatus::Failed(WipeError::DeviceNotFound));
    assert_eq!(report.bytes_written, 0);
    assert_eq!(report.passes_completed, 0);
    assert_eq!(report.exit_code(), 1);
    assert!(!o.job().holds_target());
}

#[test]
fn a_held_target_gives_device_busy_and_no_write() {
    let mut o = orchestrator(1, 8);
    o.step(Event::Continue, false);
    o.step(Event::Continue, false);
    let action = o.step(Event::AcquireFailed(AcquireFailure::Busy), false);
    assert_eq!(action, Action::Stop);
    assert_eq!(o.report().status, JobStatus::Failed(WipeError::DeviceBusy));
    assert_eq!(o.report().bytes_written, 0);
}

#[test]
fn a_refused_target_gives_permission_denied() {
    let mut o = orchestrator(1, 8);
    o.step(Event::Continue, false);
    o.step(Event::Continue, false);
    let action = o.step(Event::AcquireFailed(AcquireFailure::PermissionDenied), false);
    assert_eq!(action, Action::Stop);
    assert_eq!(o.report().status, JobStatus::Failed(WipeError::PermissionDenied));
    assert_eq!(acquire_error(AcquireFailure::NotFound), WipeError::DeviceNotFound);
    assert_eq!(acquire_error(AcquireFailure::Busy), WipeError::DeviceBusy);
}

#[test]
fn zero_passes_fail_planning_before_the_target_is_asked_for() {
    let mut o = orchestrator(0, 8);
    assert_eq!(o.job().status(), JobStatus::Idle);
    assert_eq!(o.step(Event::Continue, false), Action::Continue);
    assert_eq!(o.job().status(), JobStatus::Planning);
    assert_eq!(o.step(Event::Continue, false), Action::Stop);
    assert_eq!(o.report().status, JobStatus::Failed(WipeError::InvalidPolicy));
    assert_eq!(o.report().bytes_written, 0);
    assert!(o.job().plan().is_empty());
}

#[test]
fn a_failed_or_implausible_probe_fails_the_job_and_releases_the_target() {
    let probes: Vec<Event> = vec![
        Event::SizeProbeFailed,
        Event::SizeProbed(-1),
        Event::SizeProbed(i128::MIN),
        Event::SizeProbed(u64::MAX as i128 + 1),
    ];
    for probe in probes {
        let mut o = orchestrator(1, 8);
        o.step(Event::Continue, false);
        o.step(Event::Continue, false);
        o.step(Event::Acquired, false);
        assert!(o.job().holds_target());
        assert_eq!(o.step(probe, false), Action::Release);
        assert_eq!(o.report().status, JobStatus::Failed(WipeError::SizeDeterminationFailed));
        assert!(!o.job().holds_target());
    }
}

#[test]
fn the_largest_length_is_taken() {
    let mut o = orchestrator(1, 1 << 30);
    let first = start(&mut o, u64::MAX as i128);
    assert_eq!(first, Action::WriteChunk { offset: 0, len: 1 << 30 });
    assert_eq!(o.job().target().length, Some(u64::MAX));
}

#[test]
fn a_failed_write_is_tried_again_at_once() {
    assert_eq!(MAX_WRITE_RETRIES, 3);
    let mut o = orchestrator(1, 8);
    let first = start(&mut o, 20);
    assert_eq!(first, Action::WriteChunk { offset: 0, len: 8 });
    o.step(Event::ChunkWritten, false);
    for _ in 0..3 {
        assert_eq!(o.step(Event::ChunkFailed, false), Action::WriteChunk { offset: 8, len: 8 });
    }
    assert_eq!(o.step(Event::ChunkWritten, false), Action::WriteChunk { offset: 16, len: 4 });
    // The count starts anew for every chunk.
    for _ in 0..3 {
        assert_eq!(o.step(Event::ChunkFailed, false), Action::WriteChunk { offset: 16, len: 4 });
    }
    assert_eq!(o.step(Event::ChunkWritten, false), Action::Sync);
    assert_eq!(o.report().bytes_written, 20);
}

#[test]
fn a_write_that_keeps_failing_fails_the_job_at_its_offset() {
    let mut o = orchestrator(3, 8);
    let first = start(&mut o, 20);
    let second_pass = write_pass(&mut o, first, 20);
    assert_eq!(second_pass, Action::WriteChunk { offset: 0, len: 8 });
    assert_eq!(o.step(Event::ChunkWritten, false), Action::WriteChunk { offset: 8, len: 8 });
    for _ in 0..3 {
        assert_eq!(o.step(Event::ChunkFailed, false), Action::WriteChunk { offset: 8, len: 8 });
    }
    assert_eq!(o.step(Event::ChunkFailed, false), Action::Release);
    let report = o.report();
    assert_eq!(
        report.status,
        JobStatus::Failed(WipeError::IoErrorDuringPass { pass: 1, offset: 8 })
    );
    assert_eq!(report.passes_completed, 1);
    assert_eq!(report.bytes_written, 28);
    assert_eq!(report.verification, None);
    assert_eq!(report.hidden_area, None);
    // No later pass runs.
    assert_eq!(o.step(Event::ChunkWritten, false), Action::Stop);
    assert_eq!(o.step(Event::Continue, false), Action::Stop);
    assert_eq!(o.report(), report);
}

#[test]
fn a_failed_sync_fails_the_job_at_the_end_of_the_pass() {
    let mut o = orchestrator(2, 8);
    let mut action = start(&mut o, 10);
    while let Action::WriteChunk { .. } = action {
        action = o.step(Event::ChunkWritten, false);
    }
    assert_eq!(action, Action::Sync);
    assert_eq!(o.step(Event::SyncFailed, false), Action::Release);
    assert_eq!(
        o.report().status,
        JobStatus::Failed(WipeError::IoErrorDuringPass { pass: 0, offset: 10 })
    );
    assert_eq!(o.report().passes_completed, 0);
}

#[test]
fn a_target_that_changes_its_length_fails_the_job() {
    let mut o = orchestrator(2, 8);
    let first = start(&mut o, 10);
    let mut action = first;
    while let Action::WriteChunk { .. } = action {
        action = o.step(Event::ChunkWritten, false);
    }
    assert_eq!(o.step(Event::Synced, false), Action::ProbeSize);
    assert_eq!(o.step(Event::SizeProbed(12), false), Action::Release);
    assert_eq!(o.report().status, JobStatus::Failed(WipeError::SizeDeterminationFailed));
    assert_eq!(o.job().target().length, Some(10));
}

#[test]
fn cancellation_is_honoured_before_the_next_chunk() {
    let mut o = orchestrator(2, 8);
    let first = start(&mut o, 20);
    assert_eq!(first, Action::WriteChunk { offset: 0, len: 8 });
    // A failed write is tried again even under cancellation: the chunk is
    // not given up half way.
    assert_eq!(o.step(Event::ChunkFailed, true), Action::WriteChunk { offset: 0, len: 8 });
    assert_eq!(o.step(Event::ChunkWritten, true), Action::Release);
    let report = o.report();
    assert_eq!(report.status, JobStatus::Failed(WipeError::Cancelled));
    assert_eq!(report.bytes_written, 8);
    assert_eq!(report.passes_completed, 0);
    assert!(!o.job().holds_target());
}

#[test]
fn cancellation_before_the_first_chunk_writes_nothing() {
    let mut o = orchestrator(1, 8);
    o.step(Event::Continue, true);
    o.step(Event::Continue, true);
    assert_eq!(o.step(Event::Acquired, true), Action::ProbeSize);
    assert_eq!(o.step(Event::SizeProbed(20), true), Action::Release);
    assert_eq!(o.report().status, JobStatus::Failed(WipeError::Cancelled));
    assert_eq!(o.report().bytes_written, 0);
}

#[test]
fn cancellation_after_the_last_chunk_lets_the_pass_end() {
    let mut o = orchestrator(1, 8);
    let first = start(&mut o, 8);
    assert_eq!(first, Action::WriteChunk { offset: 0, len: 8 });
    assert_eq!(o.step(Event::ChunkWritten, true), Action::Sync);
    assert_eq!(o.step(Event::Synced, true), Action::ProbeSize);
    assert_eq!(o.step(Event::SizeProbed(8), true), Action::Continue);
    assert_eq!(o.job().status(), JobStatus::Verifying);
    // The read-back is then cut short, and nothing is invoked after it.
    assert_eq!(o.step(Event::Continue, true), Action::Continue);
    assert_eq!(o.job().status(), JobStatus::ErasingHiddenAreas);
    assert_eq!(o.job().phase(), Phase::StandingDown);
    assert_eq!(o.step(Event::Continue, true), Action::Release);
    let report = o.report();
    assert_eq!(report.status, JobStatus::Done);
    assert_eq!(report.bytes_written, 8);
    assert_eq!(
        report.verification,
        Some(VerificationResult { passed: false, first_mismatch: None, bytes_sampled: 0 })
    );
    assert_eq!(report.verification.unwrap().error(), Some(WipeError::Cancelled));
    assert_eq!(report.hidden_area, None);
}

#[test]
fn cancellation_between_two_reads_cuts_the_read_back_short() {
    let mut o = orchestrator(1, 8);
    let first = start(&mut o, 20);
    assert_eq!(write_pass(&mut o, first, 20), Action::Continue);
    assert_eq!(o.step(Event::Continue, false), Action::ReadChunk { offset: 0, len: 8 });
    assert_eq!(o.step(Event::ChunkRead(vec![0; 8]), true), Action::Continue);
    assert_eq!(o.step(Event::Continue, false), Action::Release);
    assert_eq!(
        o.report().verification,
        Some(VerificationResult { passed: false, first_mismatch: None, bytes_sampled: 8 })
    );
    assert_eq!(o.report().status, JobStatus::Done);
}

#[test]
fn a_mismatch_is_reported_and_the_job_is_done_all_the_same() {
    let mut o = orchestrator(1, 8);
    let first = start(&mut o, 20);
    assert_eq!(write_pass(&mut o, first, 20), Action::Continue);
    assert_eq!(o.step(Event::Continue, false), Action::ReadChunk { offset: 0, len: 8 });
    assert_eq!(
        o.step(Event::ChunkRead(vec![0; 8]), false),
        Action::ReadChunk { offset: 8, len: 8 }
    );
    let action = o.step(Event::ChunkRead(vec![0, 0, 0, 9, 0, 9, 0, 0]), false);
    assert_eq!(action, Action::DetectEraseFacilities);
    assert_eq!(o.job().status(), JobStatus::ErasingHiddenAreas);
    assert_eq!(o.step(Event::FacilitiesDetected(no_facility()), false), Action::Release);
    let report = o.report();
    assert_eq!(report.status, JobStatus::Done);
    assert_eq!(report.passes_completed, 1);
    assert_eq!(report.bytes_written, 20);
    let verification = report.verification.unwrap();
    assert_eq!(
        verification,
        VerificationResult { passed: false, first_mismatch: Some(11), bytes_sampled: 12 }
    );
    assert_eq!(verification.error(), Some(WipeError::VerificationMismatch(11)));
    assert!(verification.remapping_caveat());
    assert_eq!(report.exit_code(), 0);
}

#[test]
fn a_short_or_failed_read_is_a_mismatch_at_the_first_missing_byte() {
    let mut o = orchestrator(1, 8);
    let first = start(&mut o, 20);
    write_pass(&mut o, first, 20);
    o.step(Event::Continue, false);
    assert_eq!(o.step(Event::ChunkRead(vec![0; 5]), false), Action::DetectEraseFacilities);
    assert_eq!(
        o.job().report().verification,
        Some(VerificationResult { passed: false, first_mismatch: Some(5), bytes_sampled: 5 })
    );

    let mut o = orchestrator(1, 8);
    let first = start(&mut o, 20);
    write_pass(&mut o, first, 20);
    o.step(Event::Continue, false);
    o.step(Event::ChunkRead(vec![0; 8]), false);
    assert_eq!(o.step(Event::ReadFailed, false), Action::DetectEraseFacilities);
    assert_eq!(
        o.job().report().verification,
        Some(VerificationResult { passed: false, first_mismatch: Some(8), bytes_sampled: 8 })
    );
}

#[test]
fn bytes_beyond_the_chunk_do_not_count() {
    let mut o = orchestrator(1, 8);
    let first = start(&mut o, 4);
    write_pass(&mut o, first, 4);
    assert_eq!(o.step(Event::Continue, false), Action::ReadChunk { offset: 0, len: 4 });
    let action = o.step(Event::ChunkRead(vec![0, 0, 0, 0, 1, 1]), false);
    assert_eq!(action, Action::DetectEraseFacilities);
    assert_eq!(
        o.report().verification,
        Some(VerificationResult { passed: true, first_mismatch: None, bytes_sampled: 4 })
    );
}

#[test]
fn an_event_that_the_job_does_not_wait_for_changes_nothing() {
    let mut o = orchestrator(1, 8);
    let first = start(&mut o, 20);
    assert_eq!(first, Action::WriteChunk { offset: 0, len: 8 });
    let before = o.report();
    let strays: Vec<Event> = vec![
        Event::Continue,
        Event::Acquired,
        Event::AcquireFailed(AcquireFailure::NotFound),
        Event::SizeProbed(1),
        Event::SizeProbeFailed,
        Event::ChunkPrepared,
        Event::ChunkPreparationFailed,
        Event::Synced,
        Event::SyncFailed,
        Event::ChunkRead(vec![1]),
        Event::ReadFailed,
        Event::FacilitiesDetected(no_facility()),
        Event::EraseCommandFinished(Some(0)),
    ];
    for stray in strays {
        assert_eq!(o.step(stray, true), first);
        assert_eq!(o.report(), before);
        assert_eq!(o.job().pending_action(), first);
    }
}

#[test]
fn the_erase_of_hidden_areas_follows_the_facilities() {
    let run = |facilities: EraseFacilities| -> WipeOrchestrator {
        let mut o = orchestrator(1, 8);
        let first = start(&mut o, 4);
        write_pass(&mut o, first, 4);
        o.step(Event::Continue, false);
        assert_eq!(o.step(Event::ChunkRead(vec![0; 4]), false), Action::DetectEraseFacilities);
        let action = o.step(Event::FacilitiesDetected(facilities), false);
        if facilities.ata_utility && facilities.hidden_areas != Presence::Absent {
            assert_eq!(action, Action::RunEraseCommand(EraseStrategy::AtaSecurityErase));
        }
        o
    };
    let ata = EraseFacilities {
        platform: Platform::Linux,
        ata_utility: true,
        native_utility: false,
        hidden_areas: Presence::Present,
    };

    let mut o = run(ata);
    assert_eq!(o.job().phase(), Phase::Erasing(EraseStrategy::AtaSecurityErase));
    assert_eq!(o.step(Event::EraseCommandFinished(Some(0)), false), Action::Release);
    assert_eq!(o.report().hidden_area, Some(HiddenAreaOutcome::Erased));
    assert_eq!(o.report().status, JobStatus::Done);

    let mut o = run(ata);
    assert_eq!(o.step(Event::EraseCommandFinished(Some(5)), false), Action::Release);
    assert_eq!(o.report().hidden_area, Some(HiddenAreaOutcome::Failed(Some(5))));
    assert_eq!(o.report().status, JobStatus::Done);
    assert_eq!(o.report().exit_code(), 0);

    let mut o = run(ata);
    assert_eq!(o.step(Event::EraseCommandFinished(None), false), Action::Release);
    assert_eq!(o.report().hidden_area, Some(HiddenAreaOutcome::Failed(None)));

    let o = run(EraseFacilities { hidden_areas: Presence::Absent, ..ata });
    assert_eq!(o.report().hidden_area, Some(HiddenAreaOutcome::NotPresent));
    assert_eq!(o.report().status, JobStatus::Done);

    let o = run(EraseFacilities { ata_utility: false, platform: Platform::Windows, ..ata });
    assert_eq!(o.report().hidden_area, Some(HiddenAreaOutcome::Unsupported(Platform::Windows)));
    assert_eq!(o.report().status, JobStatus::Done);

    let mut o = run(EraseFacilities { ata_utility: false, native_utility: true, ..ata });
    assert_eq!(o.job().pending_action(), Action::RunEraseCommand(EraseStrategy::NativeSecureErase));
    assert_eq!(o.step(Event::EraseCommandFinished(Some(0)), false), Action::Release);
    assert_eq!(o.report().hidden_area, Some(HiddenAreaOutcome::Erased));
}

#[test]
fn a_random_chunk_is_drawn_afresh_for_every_write() {
    let mut o = orchestrator(3, 4096);
    let first = start(&mut o, 8192);
    assert_eq!(o.chunk(), &vec![0u8; 4096][..]);
    let second_pass = write_pass(&mut o, first, 8192);
    assert_eq!(o.job().status(), JobStatus::Overwriting(1));
    assert_eq!(second_pass, Action::WriteChunk { offset: 0, len: 4096 });
    let one: Vec<u8> = o.chunk().to_vec();
    assert_eq!(one.len(), 4096);
    // 4096 random bytes are not all zero.
    assert!(one.iter().any(|&b| b != 0));
    // A retry writes the same data again.
    assert_eq!(o.step(Event::ChunkFailed, false), second_pass);
    assert_eq!(o.chunk(), &one[..]);
    assert_eq!(o.step(Event::ChunkWritten, false), Action::WriteChunk { offset: 4096, len: 4096 });
    let two: Vec<u8> = o.chunk().to_vec();
    assert_eq!(two.len(), 4096);
    assert_ne!(one, two);
    let third_pass = write_pass(&mut o, Action::WriteChunk { offset: 4096, len: 4096 }, 8192);
    assert_eq!(third_pass, Action::WriteChunk { offset: 0, len: 4096 });
    assert_eq!(o.chunk(), &vec![0u8; 4096][..]);
}

#[test]
fn the_complement_byte_fills_the_chunks_of_its_pass() {
    let mut o = orchestrator(4, 8);
    let mut action = start(&mut o, 12);
    action = write_pass(&mut o, action, 12);
    action = write_pass(&mut o, action, 12);
    assert_eq!(o.job().status(), JobStatus::Overwriting(2));
    assert_eq!(o.job().plan()[2].pattern, PatternKind::Fixed(0xFF));
    assert_eq!(action, Action::WriteChunk { offset: 0, len: 8 });
    assert_eq!(o.chunk(), &[0xFFu8; 8][..]);
    assert_eq!(o.step(Event::ChunkWritten, false), Action::WriteChunk { offset: 8, len: 4 });
    assert_eq!(o.chunk(), &[0xFFu8; 4][..]);
}

#[test]
fn a_job_asks_for_the_data_of_a_chunk_before_it_asks_for_the_write() {
    let mut job = WipeJob::new(
        StorageTarget::new("/dev/mock".to_string()),
        WipePolicy::new(2).with_chunk_size(16),
    );
    assert_eq!(job.pending_action(), Action::Continue);
    assert_eq!(job.advance(Event::Continue, false), Action::Continue);
    assert_eq!(job.advance(Event::Continue, false), Action::Acquire);
    assert_eq!(job.plan().len(), 2);
    assert_eq!(job.policy(), WipePolicy::new(2).with_chunk_size(16));
    assert_eq!(job.advance(Event::Acquired, false), Action::ProbeSize);
    assert_eq!(
        job.advance(Event::SizeProbed(20), false),
        Action::PrepareChunk { pattern: PatternKind::Zero, len: 16 }
    );
    assert_eq!(job.phase(), Phase::Preparing);
    assert_eq!(job.advance(Event::ChunkPrepared, false), Action::WriteChunk { offset: 0, len: 16 });
    assert_eq!(
        job.advance(Event::ChunkWritten, false),
        Action::PrepareChunk { pattern: PatternKind::Zero, len: 4 }
    );
    assert_eq!(job.advance(Event::ChunkPreparationFailed, false), Action::Release);
    assert_eq!(
        job.status(),
        JobStatus::Failed(WipeError::IoErrorDuringPass { pass: 0, offset: 16 })
    );
    assert_eq!(job.report().bytes_written, 16);
}

#[test]
fn an_empty_target_is_synced_once_for_every_pass() {
    let mut o = orchestrator(2, 8);
    assert_eq!(start(&mut o, 0), Action::Sync);
    assert_eq!(o.step(Event::Synced, false), Action::ProbeSize);
    assert_eq!(o.step(Event::SizeProbed(0), false), Action::Sync);
    assert_eq!(o.job().status(), JobStatus::Overwriting(1));
    assert_eq!(o.step(Event::Synced, false), Action::ProbeSize);
    assert_eq!(o.step(Event::SizeProbed(0), false), Action::Continue);
    assert_eq!(o.step(Event::Continue, false), Action::DetectEraseFacilities);
    assert_eq!(
        o.report().verification,
        Some(VerificationResult { passed: true, first_mismatch: None, bytes_sampled: 0 })
    );
}

#[test]
fn the_report_of_a_running_job_has_no_result_yet() {
    let mut o = orchestrator(1, 8);
    assert_eq!(o.report().overwrite_result(), None);
    start(&mut o, 8);
    assert_eq!(o.report().overwrite_result(), None);
    assert_eq!(o.report().status, JobStatus::Overwriting(0));
    assert_eq!(o.report().exit_code(), 1);
}
