use secure_wipe::error::WipeError;
use secure_wipe::policy::{
    build_plan, PassSpec, PatternKind, WipePolicy, COMPLEMENT_BYTE, DEFAULT_CHUNK_SIZE,
    MAX_CHUNK_SIZE,
};
use secure_wipe::target::StorageTarget;

fn target() -> StorageTarget {
    StorageTarget::new("/dev/sdx".to_string())
}

fn patterns(policy: &WipePolicy) -> Vec<PatternKind> {
    build_plan(&target(), policy).unwrap().iter().map(|pass| pass.pattern).collect()
}

#[test]
fn the_default_policy_ends_on_zeros_in_chunks_of_64_kib() {
    let policy = WipePolicy::new(3);
    assert_eq!(policy.passes, 3);
    assert_eq!(policy.final_pattern, PatternKind::Zero);
    assert_eq!(policy.chunk_size, 65536);
    assert_eq!(DEFAULT_CHUNK_SIZE, 65536);
    assert_eq!(MAX_CHUNK_SIZE, 1 << 30);
    assert!(policy.is_valid());
}

#[test]
fn a_plan_of_no_pass_is_refused() {
    let policy = WipePolicy::new(0);
    assert!(!policy.is_valid());
    assert_eq!(build_plan(&target(), &policy), Err(WipeError::InvalidPolicy));
}

#[test]
fn one_pass_is_zeros() {
    assert_eq!(patterns(&WipePolicy::new(1)), vec![PatternKind::Zero]);
}

#[test]
fn two_passes_are_zeros_twice() {
    assert_eq!(patterns(&WipePolicy::new(2)), vec![PatternKind::Zero, PatternKind::Zero]);
}

#[test]
fn three_passes_are_zero_random_zero() {
    assert_eq!(
        build_plan(&target(), &WipePolicy::new(3)),
        Ok(vec![
            PassSpec { index: 0, pattern: PatternKind::Zero },
            PassSpec { index: 1, pattern: PatternKind::Random },
            PassSpec { index: 2, pattern: PatternKind::Zero },
        ])
    );
}

#[test]
fn the_middle_passes_alternate_random_and_the_complement_byte() {
    assert_eq!(COMPLEMENT_BYTE, 0xFF);
    assert_eq!(
        patterns(&WipePolicy::new(7)),
        vec![
            PatternKind::Zero,
            PatternKind::Random,
            PatternKind::Fixed(0xFF),
            PatternKind::Random,
            PatternKind::Fixed(0xFF),
            PatternKind::Random,
            PatternKind::Zero,
        ]
    );
}

#[test]
fn the_last_pass_follows_the_policy() {
    let policy = WipePolicy::new(4).with_final_pattern(PatternKind::Fixed(0x5A));
    assert_eq!(
        patterns(&policy),
        vec![
            PatternKind::Zero,
            PatternKind::Random,
            PatternKind::Fixed(0xFF),
            PatternKind::Fixed(0x5A),
        ]
    );
    let policy = WipePolicy::new(2).with_final_pattern(PatternKind::Random);
    assert_eq!(patterns(&policy), vec![PatternKind::Zero, PatternKind::Random]);
}

#[test]
fn the_first_pass_is_zeros_even_where_it_is_the_last() {
    let policy = WipePolicy::new(1).with_final_pattern(PatternKind::Random);
    assert_eq!(patterns(&policy), vec![PatternKind::Zero]);
    assert_eq!(policy.pattern_for(0), PatternKind::Zero);
}

#[test]
fn pass_indices_count_from_zero() {
    let plan = build_plan(&target(), &WipePolicy::new(5)).unwrap();
    let indices: Vec<u32> = plan.iter().map(|pass| pass.index).collect();
    assert_eq!(indices, vec![0, 1, 2, 3, 4]);
}

#[test]
fn chunk_sizes_are_powers_of_two_up_to_one_gib() {
    let mut size: usize = 1;
    while size <= MAX_CHUNK_SIZE {
        assert!(WipePolicy::new(1).with_chunk_size(size).is_valid(), "size {}", size);
        size *= 2;
    }
    let refused: [usize; 8] = [0, 3, 5, 12, 1000, 65535, 65537, (1 << 30) + 1];
    for size in refused {
        let policy = WipePolicy::new(1).with_chunk_size(size);
        assert!(!policy.is_valid(), "size {}", size);
        assert_eq!(build_plan(&target(), &policy), Err(WipeError::InvalidPolicy));
    }
    if usize::BITS > 32 {
        assert!(!WipePolicy::new(1).with_chunk_size(1 << 31).is_valid());
    }
}

#[test]
fn the_plan_does_not_depend_on_the_target() {
    let small = StorageTarget { path: "a".to_string(), length: Some(10), mount_label: None };
    let large =
        StorageTarget { path: "b".to_string(), length: Some(u64::MAX), mount_label: None };
    let policy = WipePolicy::new(3);
    assert_eq!(build_plan(&small, &policy), build_plan(&large, &policy));
}

#[test]
fn expected_bytes_of_the_patterns() {
    assert_eq!(PatternKind::Zero.expected_byte(), Some(0));
    assert_eq!(PatternKind::Fixed(0x7E).expected_byte(), Some(0x7E));
    assert_eq!(PatternKind::Random.expected_byte(), None);
}
