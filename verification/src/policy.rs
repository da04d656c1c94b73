//! Wipe policies and the plans made from them.

use crate::error::WipeError;
use crate::target::StorageTarget;
use vstd::arithmetic::power2::{lemma2_to64, lemma_pow2_strictly_increases, pow2};
use vstd::prelude::*;

verus! {

/// The chunk size of a policy that names none: 64 KiB.
pub const DEFAULT_CHUNK_SIZE: usize = 65536;

/// The largest chunk size a policy may ask for: 1 GiB.
pub const MAX_CHUNK_SIZE: usize = 1073741824;

/// The fixed byte that alternates with random data in the middle passes.
pub const COMPLEMENT_BYTE: u8 = 0xFF;

/// What a pass writes.
#[derive(Clone, Copy, Debug, PartialEq, Eq)]
pub enum PatternKind {
    /// Every byte 0x00.
    Zero,
    /// Fresh random bytes for every chunk.
    Random,
    /// Every byte the given one.
    Fixed(u8),
}

impl PatternKind {
    /// The byte that a read-back must show everywhere after a pass of this
    /// pattern; `None` for random data, of which nothing can be expected.
    pub open spec fn spec_expected_byte(self) -> Option<u8> {
        match self {
            PatternKind::Zero => Some(0u8),
            PatternKind::Random => None,
            PatternKind::Fixed(byte) => Some(byte),
        }
    }

    /// See [`PatternKind::spec_expected_byte`].
    #[verifier::when_used_as_spec(spec_expected_byte)]
    pub fn expected_byte(self) -> (byte: Option<u8>)
        ensures
            byte == self.spec_expected_byte(),
    {
        match self {
            PatternKind::Zero => Some(0u8),
            PatternKind::Random => None,
            PatternKind::Fixed(byte) => Some(byte),
        }
    }

    /// Whether `data` is something this pattern may write: any bytes for
    /// random data, else the pattern's byte throughout.
    pub open spec fn admits(self, data: Seq<u8>) -> bool {
        match self.spec_expected_byte() {
            Some(byte) => forall|i: int| 0 <= i < data.len() ==> data[i] == byte,
            None => true,
        }
    }
}

/// One pass of a plan.
#[derive(Clone, Copy, Debug, PartialEq, Eq)]
pub struct PassSpec {
    /// The position of the pass in its plan, from 0.
    pub index: u32,
    /// What the pass writes.
    pub pattern: PatternKind,
}

/// What the caller asks of a job.
#[derive(Clone, Copy, Debug, PartialEq, Eq)]
pub struct WipePolicy {
    /// How many passes to make; at least one.
    pub passes: u32,
    /// What the last pass writes, where the job has more than one pass.
    pub final_pattern: PatternKind,
    /// How many bytes one write covers at most: a power of two, and no more
    /// than [`MAX_CHUNK_SIZE`].
    pub chunk_size: usize,
}

/// Whether `n` is a power of two that does not exceed [`MAX_CHUNK_SIZE`].
pub open spec fn is_chunk_size(n: nat) -> bool {
    exists|k: nat| k <= 30 && n == #[trigger] pow2(k)
}

impl WipePolicy {
    /// The policy of `passes` passes that ends on zeros and writes chunks of
    /// [`DEFAULT_CHUNK_SIZE`] bytes.
    pub fn new(passes: u32) -> (policy: WipePolicy)
        ensures
            policy == (WipePolicy {
                passes,
                final_pattern: PatternKind::Zero,
                chunk_size: DEFAULT_CHUNK_SIZE,
            }),
            policy.valid() <==> passes >= 1,
    {
        proof {
            lemma2_to64();
            assert(DEFAULT_CHUNK_SIZE as nat == pow2(16));
        }
        WipePolicy { passes, final_pattern: PatternKind::Zero, chunk_size: DEFAULT_CHUNK_SIZE }
    }

    /// This policy with another pattern for its last pass.
    pub fn with_final_pattern(self, pattern: PatternKind) -> (policy: WipePolicy)
        ensures
            policy == (WipePolicy { final_pattern: pattern, ..self }),
    {
        WipePolicy { final_pattern: pattern, ..self }
    }

    /// This policy with another chunk size.
    pub fn with_chunk_size(self, chunk_size: usize) -> (policy: WipePolicy)
        ensures
            policy == (WipePolicy { chunk_size, ..self }),
    {
        WipePolicy { chunk_size, ..self }
    }

    /// A policy is valid when it asks for at least one pass and its chunk
    /// size is a power of two within the limit.
    pub open spec fn valid(self) -> bool {
        self.passes >= 1 && is_chunk_size(self.chunk_size as nat)
    }

    /// Decides [`WipePolicy::valid`].
    pub fn is_valid(&self) -> (ok: bool)
        ensures
            ok == self.valid(),
    {
        let size: usize = self.chunk_size;
        let mut candidate: usize = 1;
        let mut exponent: u32 = 0;
        proof {
            lemma2_to64();
        }
        while exponent < 30 && candidate < size
            invariant
                exponent <= 30,
                candidate == pow2(exponent as nat),
                candidate <= pow2(30),
                pow2(30) == 0x40000000,
                forall|k: nat| k < exponent ==> #[trigger] pow2(k) < size,
            decreases 30 - exponent,
        {
            proof {
                vstd::arithmetic::power2::lemma_pow2_unfold((exponent + 1) as nat);
                if exponent + 1 < 30 {
                    lemma_pow2_strictly_increases((exponent + 1) as nat, 30);
                }
            }
            candidate = candidate * 2;
            exponent = exponent + 1;
        }
        proof {
            if candidate != size {
                assert forall|k: nat| k <= 30 implies size as nat != #[trigger] pow2(k) by {
                    if k > exponent {
                        lemma_pow2_strictly_increases(exponent as nat, k);
                    }
                }
            }
        }
        self.passes >= 1 && candidate == size
    }

    /// The pattern of pass `i`. The first pass writes zeros, whatever else
    /// the policy says; the last pass writes the policy's final pattern; the
    /// passes between them alternate random data and [`COMPLEMENT_BYTE`],
    /// random first.
    pub open spec fn pattern_at(self, i: int) -> PatternKind {
        if i == 0 {
            PatternKind::Zero
        } else if i == self.passes - 1 {
            self.final_pattern
        } else if i % 2 == 1 {
            PatternKind::Random
        } else {
            PatternKind::Fixed(COMPLEMENT_BYTE)
        }
    }

    /// Computes [`WipePolicy::pattern_at`].
    pub fn pattern_for(&self, i: u32) -> (pattern: PatternKind)
        ensures
            pattern == self.pattern_at(i as int),
    {
        if i == 0 {
            PatternKind::Zero
        } else if self.passes >= 1 && i == self.passes - 1 {
            self.final_pattern
        } else if i % 2 == 1 {
            PatternKind::Random
        } else {
            PatternKind::Fixed(COMPLEMENT_BYTE)
        }
    }

    /// The passes of this policy, in the order in which they run.
    pub open spec fn plan(self) -> Seq<PassSpec> {
        Seq::new(
            self.passes as nat,
            |i: int| PassSpec { index: i as u32, pattern: self.pattern_at(i) },
        )
    }

    /// The pattern of the last pass, which a read-back is held against.
    pub open spec fn terminal_pattern(self) -> PatternKind {
        self.pattern_at(self.passes - 1)
    }
}

/// The chunk size of a valid policy is at least 1 and at most
/// [`MAX_CHUNK_SIZE`].
pub proof fn lemma_chunk_size_bounds(policy: WipePolicy)
    requires
        policy.valid(),
    ensures
        1 <= policy.chunk_size <= MAX_CHUNK_SIZE,
{
    let k = choose|k: nat| k <= 30 && policy.chunk_size as nat == #[trigger] pow2(k);
    lemma2_to64();
    vstd::arithmetic::power2::lemma_pow2_pos(k);
    if k < 30 {
        lemma_pow2_strictly_increases(k, 30);
    }
}

/// Builds the plan of `policy` for `target`. The plan depends on the policy
/// alone: a chunk size is fixed by the policy and never derived from the
/// target's length. An invalid policy is refused with
/// [`WipeError::InvalidPolicy`].
pub fn build_plan(target: &StorageTarget, policy: &WipePolicy) -> (result: Result<
    Vec<PassSpec>,
    WipeError,
>)
    ensures
        policy.valid() ==> result is Ok && result->Ok_0@ == policy.plan(),
        !policy.valid() ==> result == Err::<Vec<PassSpec>, WipeError>(WipeError::InvalidPolicy),
{
    if !policy.is_valid() {
        return Err(WipeError::InvalidPolicy);
    }
    let mut plan: Vec<PassSpec> = Vec::new();
    let mut i: u32 = 0;
    while i < policy.passes
        invariant
            i <= policy.passes,
            plan@.len() == i,
            forall|j: int|
                0 <= j < i ==> #[trigger] plan@[j] == (PassSpec {
                    index: j as u32,
                    pattern: policy.pattern_at(j),
                }),
        decreases policy.passes - i,
    {
        plan.push(PassSpec { index: i, pattern: policy.pattern_for(i) });
        i = i + 1;
    }
    assert(plan@ =~= policy.plan());
    Ok(plan)
}

} // verus!
