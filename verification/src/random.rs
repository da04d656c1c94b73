//! The data of a chunk: constant bytes, or random ones from a generator
//! that lives as long as the job.

use crate::policy::PatternKind;
use rand::{Rng, SeedableRng};
use vstd::prelude::*;

verus! {

/// `rand::rngs::StdRng`, the cryptographically strong generator of the
/// `rand` crate. Nothing is known of what it holds.
#[verifier::external_type_specification]
#[verifier::external_body]
pub struct ExStdRng(rand::rngs::StdRng);

/// `rand::Error`, the error of a generator. Nothing is known of what it
/// holds.
#[verifier::external_type_specification]
#[verifier::external_body]
pub struct ExRandError(rand::Error);

/// Calls `StdRng::from_rng` of the trait `rand::SeedableRng` on
/// `rand::rngs::OsRng`: a new generator, seeded from the operating system,
/// or the error with which the system refused the seed. Nothing is claimed
/// of either.
#[verifier::external_body]
fn seed_generator() -> (result: Result<rand::rngs::StdRng, rand::Error>) {
    rand::rngs::StdRng::from_rng(rand::rngs::OsRng)
}

/// Calls `try_fill` of the trait `rand::Rng` on the bytes of `dest`. The
/// call overwrites bytes in place, so `dest` keeps its length; which bytes it
/// holds afterwards is left open, and so is whether the call succeeds.
#[verifier::external_body]
fn draw_bytes(generator: &mut rand::rngs::StdRng, dest: &mut Vec<u8>) -> (result: Result<
    (),
    rand::Error,
>)
    ensures
        final(dest)@.len() == old(dest)@.len(),
{
    generator.try_fill(dest.as_mut_slice())
}

/// Where the data of the chunks comes from. The generator is made when the
/// first random chunk is asked for and then kept: every random chunk is
/// drawn afresh from the same generator.
#[derive(Debug)]
pub(crate) struct PatternSource {
    generator: Option<rand::rngs::StdRng>,
}

impl PatternSource {
    /// A source that has drawn nothing yet: it has no generator.
    pub(crate) fn new() -> (source: PatternSource)
        ensures
            !source.seeded(),
    {
        PatternSource { generator: None }
    }

    /// Puts `len` bytes of `pattern` into `buffer`, in place of what it
    /// held. A constant pattern always succeeds and needs no generator. A
    /// random one fails where the generator cannot be seeded or refuses to
    /// draw; `buffer` then holds nothing of use. A generator, once made, is
    /// kept, and random bytes come from none but it.
    pub(crate) fn fill(&mut self, pattern: PatternKind, len: usize, buffer: &mut Vec<u8>) -> (filled:
        bool)
        ensures
            filled ==> final(buffer)@.len() == len && pattern.admits(final(buffer)@),
            pattern.spec_expected_byte() is Some ==> filled && final(self).seeded() == old(
                self,
            ).seeded(),
            old(self).seeded() ==> final(self).seeded(),
            filled && pattern.spec_expected_byte() is None ==> final(self).seeded(),
    {
        buffer.clear();
        match pattern.expected_byte() {
            Some(byte) => {
                let mut i: usize = 0;
                while i < len
                    invariant
                        i <= len,
                        buffer@.len() == i,
                        forall|j: int| 0 <= j < i ==> buffer@[j] == byte,
                    decreases len - i,
                {
                    buffer.push(byte);
                    i = i + 1;
                }
                true
            },
            None => {
                buffer.resize(len, 0u8);
                if self.generator.is_none() {
                    match seed_generator() {
                        Ok(generator) => {
                            self.generator = Some(generator);
                        },
                        Err(_) => {
                            return false;
                        },
                    }
                }
                match &mut self.generator {
                    Some(generator) => draw_bytes(generator, buffer).is_ok(),
                    None => false,
                }
            },
        }
    }

    /// Whether the source has its generator.
    pub(crate) closed spec fn seeded(&self) -> bool {
        self.generator is Some
    }
}

} // verus!
