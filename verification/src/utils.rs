//! The process generation counter.
//!
//! A generation is the number of forks that lie between the process image in
//! which the counter was first read and the current one. The counter is plain
//! data. The code that owns the process-wide instance registers
//! [`update_generations`] as the child-side fork handler when
//! [`GenerationCounter::is_installed`] turns true, which is at the first
//! read, and hands the generation it reads to the primitives of this crate as
//! an ordinary `u64`.

use crate::epoch::should_wipe;
use vstd::prelude::*;

verus! {

/// The generation a counter reports when it is read: zero on the first read,
/// the stored value afterwards.
pub open spec fn reading(counter: Option<u64>) -> u64 {
    match counter {
        Some(g) => g,
        None => 0,
    }
}

/// Counts the forks in this process's lineage since the counter was first
/// read.
///
/// Its view is `None` until the first read and `Some(g)` afterwards, where
/// `g` is the current generation.
#[derive(Debug)]
pub struct GenerationCounter {
    value: Option<u64>,
    installed: bool,
}

impl View for GenerationCounter {
    type V = Option<u64>;

    closed spec fn view(&self) -> Option<u64> {
        self.value
    }
}

impl Clone for GenerationCounter {
    /// A copy of the counter as a forked child would inherit it, before its
    /// fork handler has run.
    fn clone(&self) -> (copy: Self)
        ensures
            copy@ == self@,
    {
        proof {
            use_type_invariant(self);
        }
        GenerationCounter { value: self.value, installed: self.installed }
    }
}

impl GenerationCounter {
    #[verifier::type_invariant]
    spec fn installed_iff_started(self) -> bool {
        self.installed == self.value.is_some()
    }

    /// A counter that has not been read yet.
    pub fn new() -> (counter: Self)
        ensures
            counter@ is None,
    {
        GenerationCounter { value: None, installed: false }
    }

    /// Whether the fork handler has been installed, which is the case exactly
    /// from the first read on.
    pub fn is_installed(&self) -> (installed: bool)
        ensures
            installed == (self@ is Some),
    {
        proof {
            use_type_invariant(self);
        }
        self.installed
    }

    /// Reads the current generation. The first read starts the counter at
    /// zero and marks the fork handler as installed; later reads leave the
    /// counter as it is.
    pub fn get(&mut self) -> (generation: u64)
        ensures
            generation == reading(old(self)@),
            final(self)@ == Some(generation),
    {
        match self.value {
            Some(generation) => generation,
            None => {
                *self = GenerationCounter { value: Some(0u64), installed: true };
                0u64
            },
        }
    }
}

/// The child-side fork handler: moves a started counter on by one generation.
///
/// The counter has to have been read before, since the handler is installed
/// by the first read, and it must not have run out of generations.
pub fn update_generations(counter: &mut GenerationCounter)
    requires
        old(counter)@ matches Some(g) && g < u64::MAX,
    ensures
        final(counter)@ == Some((old(counter)@->0 + 1) as u64),
{
    match counter.value {
        Some(generation) => {
            *counter = GenerationCounter { value: Some(generation + 1), installed: true };
        },
        None => vstd::pervasive::unreached(),
    }
}

/// A fork always changes the generation: the child's is the parent's plus
/// one, so whatever was stamped in the parent is stale in the child, and
/// stays current in the parent.
pub proof fn lemma_fork_makes_parent_stamps_stale(parent: u64)
    requires
        parent < u64::MAX,
    ensures
        (parent + 1) as u64 != parent,
        should_wipe(Some(parent), (parent + 1) as u64),
        !should_wipe(Some(parent), parent),
{
}

} // verus!
