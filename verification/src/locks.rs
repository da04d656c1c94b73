//! The locks that keep two jobs from one target.
//!
//! The canonical path of a target is the unit of exclusion. A request for a
//! path that is held is refused at once; nothing queues.

use crate::error::WipeError;
use vstd::prelude::*;
use vstd::string::*;

verus! {

/// The paths that jobs hold.
#[derive(Debug)]
pub struct TargetLocks {
    held: Vec<String>,
}

impl View for TargetLocks {
    type V = Set<Seq<char>>;

    closed spec fn view(&self) -> Set<Seq<char>> {
        Set::new(|path: Seq<char>| exists|i: int| 0 <= i < self.held@.len() && self.held@[i]@ == path)
    }
}

/// What becomes of the held paths when `path` is asked for, and the answer:
/// a path that is held is refused with [`WipeError::DeviceBusy`] and nothing
/// changes; any other is held from then on.
pub open spec fn acquired(held: Set<Seq<char>>, path: Seq<char>) -> (
    Set<Seq<char>>,
    Result<(), WipeError>,
) {
    if held.contains(path) {
        (held, Err(WipeError::DeviceBusy))
    } else {
        (held.insert(path), Ok(()))
    }
}

/// What becomes of the held paths when `path` is given up.
pub open spec fn released(held: Set<Seq<char>>, path: Seq<char>) -> Set<Seq<char>> {
    held.remove(path)
}

impl TargetLocks {
    /// No path occurs twice among the held ones.
    pub closed spec fn wf(&self) -> bool {
        forall|i: int, j: int|
            0 <= i < j < self.held@.len() ==> (#[trigger] self.held@[i])@ != (
            #[trigger] self.held@[j])@
    }

    /// No lock is held.
    pub fn new() -> (locks: TargetLocks)
        ensures
            locks.wf(),
            locks@ == Set::<Seq<char>>::empty(),
    {
        let locks = TargetLocks { held: Vec::new() };
        assert(locks@ =~= Set::<Seq<char>>::empty());
        locks
    }

    fn position(&self, path: &String) -> (found: Option<usize>)
        ensures
            match found {
                Some(i) => i < self.held@.len() && self.held@[i as int]@ == path@,
                None => !self@.contains(path@),
            },
    {
        let mut i: usize = 0;
        while i < self.held.len()
            invariant
                i <= self.held@.len(),
                forall|j: int| 0 <= j < i ==> self.held@[j]@ != path@,
            decreases self.held@.len() - i,
        {
            if self.held[i] == *path {
                return Some(i);
            }
            i = i + 1;
        }
        None
    }

    /// Whether a job holds `path`.
    pub fn is_held(&self, path: &str) -> (held: bool)
        ensures
            held == self@.contains(path@),
    {
        let wanted = String::from_str(path);
        let found = self.position(&wanted);
        proof {
            if let Some(i) = found {
                assert(self.held@[i as int]@ == path@);
            }
        }
        found.is_some()
    }

    /// Asks for the lock on `path`.
    pub fn try_acquire(&mut self, path: &str) -> (result: Result<(), WipeError>)
        requires
            old(self).wf(),
        ensures
            final(self).wf(),
            (final(self)@, result) == acquired(old(self)@, path@),
    {
        let wanted = String::from_str(path);
        match self.position(&wanted) {
            Some(i) => {
                assert(self.held@[i as int]@ == path@);
                Err(WipeError::DeviceBusy)
            },
            None => {
                let ghost before = self.held@;
                self.held.push(wanted);
                proof {
                    assert forall|p: Seq<char>| self@.contains(p) <==> old(self)@.insert(
                        path@,
                    ).contains(p) by {
                        if self@.contains(p) {
                            let i = choose|i: int|
                                0 <= i < self.held@.len() && self.held@[i]@ == p;
                            if i < before.len() {
                                assert(before[i]@ == p);
                            }
                        }
                        if old(self)@.contains(p) {
                            let i = choose|i: int| 0 <= i < before.len() && before[i]@ == p;
                            assert(self.held@[i]@ == p);
                        }
                        if p == path@ {
                            assert(self.held@[before.len() as int]@ == p);
                        }
                    }
                    assert(self@ =~= old(self)@.insert(path@));
                    assert forall|i: int, j: int| 0 <= i < j < self.held@.len() implies (
                    #[trigger] self.held@[i])@ != (#[trigger] self.held@[j])@ by {
                        if j < before.len() {
                            assert(before[i]@ != before[j]@);
                        } else {
                            assert(before[i]@ == self.held@[i]@);
                            assert(!old(self)@.contains(path@));
                        }
                    }
                }
                Ok(())
            },
        }
    }

    /// Gives up the lock on `path`, and says whether it was held.
    pub fn release(&mut self, path: &str) -> (was_held: bool)
        requires
            old(self).wf(),
        ensures
            final(self).wf(),
            final(self)@ == released(old(self)@, path@),
            was_held == old(self)@.contains(path@),
    {
        let wanted = String::from_str(path);
        match self.position(&wanted) {
            Some(i) => {
                let ghost before = self.held@;
                assert(before[i as int]@ == path@);
                self.held.remove(i);
                proof {
                    assert forall|p: Seq<char>| self@.contains(p) <==> old(self)@.remove(
                        path@,
                    ).contains(p) by {
                        if self@.contains(p) {
                            let k = choose|k: int|
                                0 <= k < self.held@.len() && self.held@[k]@ == p;
                            if k < i {
                                assert(before[k]@ == p);
                            } else {
                                assert(before[k + 1]@ == p);
                            }
                        }
                        if old(self)@.contains(p) && p != path@ {
                            let k = choose|k: int| 0 <= k < before.len() && before[k]@ == p;
                            if k < i {
                                assert(self.held@[k]@ == p);
                            } else {
                                assert(self.held@[k - 1]@ == p);
                            }
                        }
                    }
                    assert(self@ =~= old(self)@.remove(path@));
                    assert forall|a: int, b: int| 0 <= a < b < self.held@.len() implies (
                    #[trigger] self.held@[a])@ != (#[trigger] self.held@[b])@ by {
                        let a0 = if a < i { a } else { a + 1 };
                        let b0 = if b < i { b } else { b + 1 };
                        assert(before[a0]@ != before[b0]@);
                    }
                }
                true
            },
            None => {
                assert(self@ =~= old(self)@.remove(path@));
                false
            },
        }
    }
}

/// Two requests for one path never both succeed: while the first holds the
/// path, the second is refused with [`WipeError::DeviceBusy`] and changes
/// nothing; once the path is given up it can be had again.
pub proof fn lemma_second_request_is_refused(held: Set<Seq<char>>, path: Seq<char>)
    requires
        acquired(held, path).1 is Ok,
    ensures
        acquired(acquired(held, path).0, path) == (
            acquired(held, path).0,
            Err::<(), WipeError>(WipeError::DeviceBusy),
        ),
        acquired(released(acquired(held, path).0, path), path).1 is Ok,
        released(acquired(held, path).0, path) == held,
{
    assert(released(acquired(held, path).0, path) =~= held);
}

/// A request for one path leaves every other path as it was.
pub proof fn lemma_locks_are_per_path(held: Set<Seq<char>>, path: Seq<char>, other: Seq<char>)
    requires
        other != path,
    ensures
        acquired(held, path).0.contains(other) == held.contains(other),
        released(held, path).contains(other) == held.contains(other),
{
}

} // verus!
