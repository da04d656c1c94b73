//! Judging a read-back against the terminal pattern.

use crate::error::WipeError;
use crate::policy::PatternKind;
use vstd::prelude::*;

verus! {

/// What the read-back after the last pass showed.
///
/// A failed verification describes what the device gives back now. On flash
/// media a controller may remap blocks, so a mismatch need not mean that a
/// pass was not written: see [`VerificationResult::remapping_caveat`].
#[derive(Clone, Copy, Debug, PartialEq, Eq)]
pub struct VerificationResult {
    /// Whether every byte that was asked for came back as expected.
    pub passed: bool,
    /// The offset of the first byte that differs from the expected one or
    /// that the device did not give back.
    pub first_mismatch: Option<u64>,
    /// How many bytes were held against the expected one.
    pub bytes_sampled: u64,
}

impl VerificationResult {
    /// Whether the result carries the caveat that the mismatch may come from
    /// the device's remapping and not from the engine: every result that
    /// names a mismatch does.
    pub open spec fn spec_remapping_caveat(self) -> bool {
        self.first_mismatch is Some
    }

    /// See [`VerificationResult::spec_remapping_caveat`].
    #[verifier::when_used_as_spec(spec_remapping_caveat)]
    pub fn remapping_caveat(self) -> (caveat: bool)
        ensures
            caveat == self.spec_remapping_caveat(),
    {
        self.first_mismatch.is_some()
    }

    /// The error that a caller is told of: none for a verification that
    /// passed, the mismatch where one was found, and
    /// [`WipeError::Cancelled`] where the read-back was cut short.
    pub open spec fn spec_error(self) -> Option<WipeError> {
        if self.passed {
            None
        } else {
            match self.first_mismatch {
                Some(offset) => Some(WipeError::VerificationMismatch(offset)),
                None => Some(WipeError::Cancelled),
            }
        }
    }

    /// See [`VerificationResult::spec_error`].
    #[verifier::when_used_as_spec(spec_error)]
    pub fn error(self) -> (error: Option<WipeError>)
        ensures
            error == self.spec_error(),
    {
        if self.passed {
            None
        } else {
            match self.first_mismatch {
                Some(offset) => Some(WipeError::VerificationMismatch(offset)),
                None => Some(WipeError::Cancelled),
            }
        }
    }
}

/// How many bytes at the start of `data` equal `byte`, up to the first one
/// that does not.
pub open spec fn matching_prefix(data: Seq<u8>, byte: u8) -> nat
    decreases data.len(),
{
    if data.len() > 0 && data.first() == byte {
        1 + matching_prefix(data.drop_first(), byte)
    } else {
        0
    }
}

/// `matching_prefix` is the one index before which every byte matches and at
/// which, if it lies inside `data`, the byte does not.
pub proof fn lemma_matching_prefix(data: Seq<u8>, byte: u8, n: nat)
    ensures
        matching_prefix(data, byte) == n <==> {
            &&& n <= data.len()
            &&& forall|i: int| 0 <= i < n ==> data[i] == byte
            &&& n < data.len() ==> data[n as int] != byte
        },
    decreases data.len(),
{
    if data.len() > 0 && data.first() == byte {
        let rest = data.drop_first();
        if 0 < n <= data.len() {
            lemma_matching_prefix(rest, byte, (n - 1) as nat);
            assert forall|i: int| 0 <= i < rest.len() implies rest[i] == data[i + 1] by {}
            if matching_prefix(rest, byte) == n - 1 {
                assert forall|i: int| 0 <= i < n implies data[i] == byte by {
                    if i > 0 {
                        assert(rest[i - 1] == data[i]);
                    }
                }
                if n < data.len() {
                    assert(rest[n - 1] == data[n as int]);
                }
            }
            if (forall|i: int| 0 <= i < n ==> data[i] == byte) && (n < data.len() ==> data[n as int]
                != byte) {
                assert forall|i: int| 0 <= i < n - 1 implies rest[i] == byte by {
                    assert(rest[i] == data[i + 1]);
                }
                if n - 1 < rest.len() {
                    assert(rest[n - 1] == data[n as int]);
                }
            }
        } else if n > data.len() {
            lemma_matching_prefix_bounded(data, byte);
        }
    } else if 0 < n <= data.len() {
        if forall|i: int| 0 <= i < n ==> data[i] == byte {
            assert(data[0] == byte);
        }
    }
}

/// The matching prefix is no longer than the data.
pub proof fn lemma_matching_prefix_bounded(data: Seq<u8>, byte: u8)
    ensures
        matching_prefix(data, byte) <= data.len(),
    decreases data.len(),
{
    if data.len() > 0 && data.first() == byte {
        lemma_matching_prefix_bounded(data.drop_first(), byte);
    }
}

/// Reading in chunks loses nothing: the matching prefix of the whole is that
/// of the first `k` bytes where they hold a mismatch, and else `k` more than
/// that of the rest.
pub proof fn lemma_matching_prefix_splits(data: Seq<u8>, byte: u8, k: nat)
    requires
        k <= data.len(),
    ensures
        matching_prefix(data, byte) == if matching_prefix(data.take(k as int), byte) == k {
            k + matching_prefix(data.skip(k as int), byte)
        } else {
            matching_prefix(data.take(k as int), byte)
        },
{
    let head = data.take(k as int);
    let tail = data.skip(k as int);
    let h = matching_prefix(head, byte);
    let t = matching_prefix(tail, byte);
    lemma_matching_prefix(head, byte, h);
    lemma_matching_prefix(tail, byte, t);
    if h == k {
        assert forall|i: int| 0 <= i < k + t implies data[i] == byte by {
            if i < k {
                assert(head[i] == data[i]);
            } else {
                assert(tail[i - k] == data[i]);
            }
        }
        if k + t < data.len() {
            assert(tail[t as int] == data[(k + t) as int]);
        }
        lemma_matching_prefix(data, byte, k + t);
    } else {
        assert forall|i: int| 0 <= i < h implies data[i] == byte by {
            assert(head[i] == data[i]);
        }
        assert(head[h as int] == data[h as int]);
        lemma_matching_prefix(data, byte, h);
    }
}

/// The verdict on a whole extent. Nothing is read where the pattern leaves
/// nothing to expect.
pub open spec fn verdict(data: Seq<u8>, pattern: PatternKind) -> VerificationResult {
    match pattern.spec_expected_byte() {
        None => VerificationResult { passed: true, first_mismatch: None, bytes_sampled: 0 },
        Some(byte) => {
            let good = matching_prefix(data, byte);
            if good == data.len() {
                VerificationResult {
                    passed: true,
                    first_mismatch: None,
                    bytes_sampled: data.len() as u64,
                }
            } else {
                VerificationResult {
                    passed: false,
                    first_mismatch: Some(good as u64),
                    bytes_sampled: (good + 1) as u64,
                }
            }
        },
    }
}

/// The part of a delivered chunk that counts: at most `limit` bytes.
pub open spec fn counted(data: Seq<u8>, limit: nat) -> Seq<u8> {
    if data.len() <= limit {
        data
    } else {
        data.take(limit as int)
    }
}

/// Counts how many of the first `limit` bytes of `data` equal `byte` before
/// the first one that does not.
pub fn scan_chunk(data: &[u8], limit: usize, byte: u8) -> (good: usize)
    ensures
        good == matching_prefix(counted(data@, limit as nat), byte),
{
    let end: usize = if data.len() <= limit {
        data.len()
    } else {
        limit
    };
    let mut i: usize = 0;
    while i < end && data[i] == byte
        invariant
            i <= end <= data@.len(),
            forall|j: int| 0 <= j < i ==> data@[j] == byte,
        decreases end - i,
    {
        i = i + 1;
    }
    proof {
        lemma_matching_prefix(counted(data@, limit as nat), byte, i as nat);
    }
    i
}

/// Holds a whole read-back against the pattern of the last pass.
pub fn verify_extent(data: &[u8], pattern: PatternKind) -> (result: VerificationResult)
    ensures
        result == verdict(data@, pattern),
{
    match pattern.expected_byte() {
        None => VerificationResult { passed: true, first_mismatch: None, bytes_sampled: 0 },
        Some(byte) => {
            let good = scan_chunk(data, data.len(), byte);
            if good == data.len() {
                VerificationResult {
                    passed: true,
                    first_mismatch: None,
                    bytes_sampled: data.len() as u64,
                }
            } else {
                proof {
                    lemma_matching_prefix(data@, byte, good as nat);
                }
                VerificationResult {
                    passed: false,
                    first_mismatch: Some(good as u64),
                    bytes_sampled: (good + 1) as u64,
                }
            }
        },
    }
}

} // verus!
