//! A write-once cell built on the once-state machine, emptied by a fork.

use crate::epoch::{filled, live, slot_mut, wiped, Stamped};
use crate::once::{State, WipeOnForkOnce, WipeOnForkOnceState};
use crate::once_cell::same_content;
use vstd::pervasive::cloned;
use vstd::prelude::*;
use vstd::std_specs::cmp::PartialEqSpec;

verus! {

/// A cell that can be written once per generation. Whether it has been
/// written is decided by a [`WipeOnForkOnce`].
///
/// The view of a lock is the value it holds together with the generation in
/// which it was written, if it holds one. A failed initializer leaves the
/// once poisoned and the lock empty; the next initializer is let in
/// regardless.
#[derive(Debug)]
pub struct WipeOnForkOnceLock<T> {
    once: WipeOnForkOnce,
    value: Option<T>,
}

impl<T> View for WipeOnForkOnceLock<T> {
    type V = Option<Stamped<T>>;

    closed spec fn view(&self) -> Option<Stamped<T>> {
        match (self.once@.state, self.once@.stamp, self.value) {
            (State::Complete, Some(stamp), Some(value)) => Some(Stamped { stamp, value }),
            _ => None,
        }
    }
}

impl<T> WipeOnForkOnceLock<T> {
    #[verifier::type_invariant]
    spec fn complete_implies_written(self) -> bool {
        &&& self.once@.wf()
        &&& self.once@.state != State::Running
        &&& self.once@.state == State::Complete ==> self.value is Some
    }

    /// The wipe protocol: a value written in another generation is dropped
    /// and the once is made fresh.
    fn wipe_if_should_wipe(&mut self, generation: u64)
        ensures
            final(self)@ == wiped(old(self)@, generation),
            final(self).once@ == old(self).once@.observed(generation),
    {
        proof {
            use_type_invariant(&*self);
        }
        if self.once.check_if_should_wipe(generation) {
            *self = WipeOnForkOnceLock { once: WipeOnForkOnce::new(), value: None };
        }
    }

    /// What a caller in `generation` may observe, without touching the lock.
    fn peek(&self, generation: u64) -> (value: Option<&T>)
        ensures
            match live(self@, generation) {
                Some(held) => value == Some(&held),
                None => value is None,
            },
    {
        proof {
            use_type_invariant(self);
        }
        let mut once = self.once.clone();
        if once.is_completed(generation) {
            self.value.as_ref()
        } else {
            None
        }
    }

    /// An empty lock.
    #[must_use]
    pub fn new() -> (lock: WipeOnForkOnceLock<T>)
        ensures
            lock@ is None,
    {
        WipeOnForkOnceLock { once: WipeOnForkOnce::new(), value: None }
    }

    /// A lock that holds `value`, written in `generation`.
    pub fn from(generation: u64, value: T) -> (lock: Self)
        ensures
            lock@ == Some(Stamped { stamp: generation, value }),
    {
        let mut lock = WipeOnForkOnceLock::new();
        match lock.set(generation, value) {
            Ok(()) => lock,
            Err(_) => vstd::pervasive::unreached(),
        }
    }

    /// The value of the lock, if one was written in `generation`.
    pub fn get(&mut self, generation: u64) -> (value: Option<&T>)
        ensures
            final(self)@ == wiped(old(self)@, generation),
            match live(old(self)@, generation) {
                Some(held) => value == Some(&held),
                None => value is None,
            },
    {
        if self.is_initialized(generation) {
            Some(self.get_unchecked(generation))
        } else {
            None
        }
    }

    /// The value of the lock for writing, if one was written in
    /// `generation`. The lock keeps its stamp and holds what the borrower
    /// leaves.
    pub fn get_mut(&mut self, generation: u64) -> (value: Option<&mut T>)
        ensures
            match live(old(self)@, generation) {
                Some(held) => {
                    &&& value matches Some(r)
                    &&& *r == held
                    &&& final(self)@ == Some(Stamped { stamp: generation, value: *final(r) })
                },
                None => value is None && final(self)@ is None,
            },
    {
        if self.is_initialized(generation) {
            Some(self.get_unchecked_mut(generation))
        } else {
            None
        }
    }

    /// Writes `value` unless the lock already holds a value from
    /// `generation`, in which case the lock is left as it is and `value`
    /// comes back.
    pub fn set(&mut self, generation: u64, value: T) -> (done: Result<(), T>)
        ensures
            match live(old(self)@, generation) {
                Some(held) => done == Err::<(), T>(value) && final(self)@ == old(self)@,
                None => done is Ok && final(self)@ == Some(Stamped { stamp: generation, value }),
            },
    {
        match self.try_insert(generation, value) {
            Ok(_) => Ok(()),
            Err((_, value)) => Err(value),
        }
    }

    /// Writes `value` and returns the value the lock now holds, unless the
    /// lock already holds a value from `generation`, in which case the lock
    /// is left as it is and both values come back.
    pub fn try_insert(&mut self, generation: u64, value: T) -> (inserted: Result<&T, (&T, T)>)
        ensures
            match live(old(self)@, generation) {
                Some(held) => inserted == Err::<&T, (&T, T)>((&held, value)) && final(self)@
                    == old(self)@,
                None => inserted == Ok::<&T, (&T, T)>(&value) && final(self)@ == Some(
                    Stamped { stamp: generation, value },
                ),
            },
    {
        if self.is_initialized(generation) {
            Err((self.get_unchecked(generation), value))
        } else {
            let hand_over = || -> (made: T)
                ensures
                    made == value,
                { value };
            Ok(self.get_or_init(generation, hand_over))
        }
    }

    /// The value of the lock in `generation`: the one it holds if it was
    /// written in this generation, the one that `f` returns otherwise.
    ///
    /// The initializer has to be callable only where it is called: when the
    /// lock holds no value from this generation.
    pub fn get_or_init<F>(&mut self, generation: u64, f: F) -> (value: &T) where F: FnOnce() -> T
        requires
            live(old(self)@, generation) is None ==> f.requires(()),
        ensures
            final(self)@ == filled(old(self)@, generation, *value),
            match live(old(self)@, generation) {
                Some(held) => *value == held,
                None => f.ensures((), *value),
            },
    {
        let wrapped = || -> (made: Result<T, ()>)
            requires
                f.requires(()),
            ensures
                made matches Ok(v) && f.ensures((), v),
            { Ok(f()) };
        match self.get_or_try_init(generation, wrapped) {
            Ok(val) => val,
            Err(_) => vstd::pervasive::unreached(),
        }
    }

    /// The value of the lock in `generation`: the one it holds if it was
    /// written in this generation, the one that `f` returns otherwise. If
    /// `f` fails, the lock stays empty and the error comes back.
    ///
    /// The initializer has to be callable only where it is called: when the
    /// lock holds no value from this generation.
    pub fn get_or_try_init<F, E>(&mut self, generation: u64, f: F) -> (value: Result<
        &T,
        E,
    >) where F: FnOnce() -> Result<T, E>
        requires
            live(old(self)@, generation) is None ==> f.requires(()),
        ensures
            match live(old(self)@, generation) {
                Some(held) => value == Ok::<&T, E>(&held) && final(self)@ == old(self)@,
                None => match value {
                    Ok(made) => f.ensures((), Ok(*made)) && final(self)@ == Some(
                        Stamped { stamp: generation, value: *made },
                    ),
                    Err(e) => f.ensures((), Err(e)) && final(self)@ is None,
                },
            },
    {
        if self.is_initialized(generation) {
            return Ok(self.get_unchecked(generation));
        }
        self._initialize(generation, f)?;
        Ok(self.get_unchecked(generation))
    }

    /// Takes the lock apart: the value if one was written in `generation`.
    pub fn into_inner(self, generation: u64) -> (value: Option<T>)
        ensures
            value == live(self@, generation),
    {
        let mut lock = self;
        lock.take(generation)
    }

    /// Empties the lock and returns the value if one was written in
    /// `generation`.
    pub fn take(&mut self, generation: u64) -> (value: Option<T>)
        ensures
            value == live(old(self)@, generation),
            final(self)@ is None,
    {
        if self.is_initialized(generation) {
            let mut taken = WipeOnForkOnceLock::new();
            core::mem::swap(self, &mut taken);
            proof {
                use_type_invariant(&taken);
            }
            taken.value
        } else {
            None
        }
    }

    /// Returns `true` if the lock holds a value that was written in
    /// `generation`.
    pub fn is_initialized(&mut self, generation: u64) -> (initialized: bool)
        ensures
            initialized == (live(old(self)@, generation) is Some),
            final(self)@ == wiped(old(self)@, generation),
    {
        self.wipe_if_should_wipe(generation);
        proof {
            use_type_invariant(&*self);
        }
        self.once.is_completed(generation)
    }

    /// Runs `f` on a lock that holds no value from `generation` and writes
    /// what it returns. If `f` fails, the once is left poisoned, which the
    /// next initializer ignores.
    pub fn _initialize<F, E>(&mut self, generation: u64, f: F) -> (done: Result<(), E>) where
        F: FnOnce() -> Result<T, E>,

        requires
            live(old(self)@, generation) is None ==> f.requires(()),
        ensures
            match live(old(self)@, generation) {
                Some(held) => done is Ok && final(self)@ == old(self)@,
                None => match done {
                    Ok(_) => final(self)@ matches Some(held) && held.stamp == generation
                        && f.ensures((), Ok(held.value)),
                    Err(e) => f.ensures((), Err(e)) && final(self)@ is None,
                },
            },
    {
        self.wipe_if_should_wipe(generation);
        proof {
            use_type_invariant(&*self);
        }
        let mut once = self.once.clone();
        let run = |p: &mut WipeOnForkOnceState| -> (made: Result<T, E>)
            requires
                f.requires(()),
            ensures
                f.ensures((), made),
                made is Ok ==> *final(p) == *old(p),
                made is Err ==> final(p).will_poison(),
            {
                match f() {
                    Ok(value) => Ok(value),
                    Err(e) => {
                        p.poison();
                        Err(e)
                    },
                }
            };
        match once.call_once_force(generation, run) {
            Some(Ok(value)) => {
                self.value = Some(value);
                self.once = once;
                Ok(())
            },
            Some(Err(e)) => {
                self.once = once;
                Err(e)
            },
            None => Ok(()),
        }
    }

    /// The value of a lock that holds one from `generation`.
    pub fn get_unchecked(&self, generation: u64) -> (value: &T)
        requires
            live(self@, generation) is Some,
        ensures
            Some(*value) == live(self@, generation),
    {
        match self.peek(generation) {
            Some(value) => value,
            None => vstd::pervasive::unreached(),
        }
    }

    /// The value of a lock that holds one from `generation`, for writing.
    /// The lock keeps its stamp and holds what the borrower leaves.
    pub fn get_unchecked_mut(&mut self, generation: u64) -> (value: &mut T)
        requires
            live(old(self)@, generation) is Some,
        ensures
            Some(*value) == live(old(self)@, generation),
            final(self)@ == Some(Stamped { stamp: generation, value: *final(value) }),
    {
        self.wipe_if_should_wipe(generation);
        match slot_mut(&mut self.value) {
            Some(value) => value,
            None => vstd::pervasive::unreached(),
        }
    }

    /// Whether two locks hold equal values as seen from `generation`.
    pub fn eq(&self, other: &WipeOnForkOnceLock<T>, generation: u64) -> (equal: bool) where
        T: PartialEq,

        ensures
            T::obeys_eq_spec() ==> equal == same_content(
                live(self@, generation),
                live(other@, generation),
            ),
    {
        match (self.peek(generation), other.peek(generation)) {
            (Some(a), Some(b)) => *a == *b,
            (None, None) => true,
            _ => false,
        }
    }
}

impl<T> Default for WipeOnForkOnceLock<T> {
    fn default() -> (lock: WipeOnForkOnceLock<T>)
        ensures
            lock@ is None,
    {
        WipeOnForkOnceLock::new()
    }
}

impl<T: Clone> Clone for WipeOnForkOnceLock<T> {
    /// A lock with a clone of the value and the same stamp, so that both
    /// are wiped by the same forks.
    fn clone(&self) -> (copy: WipeOnForkOnceLock<T>)
        ensures
            match self@ {
                Some(held) => copy@ matches Some(c) && c.stamp == held.stamp && cloned(
                    held.value,
                    c.value,
                ),
                None => copy@ is None,
            },
    {
        proof {
            use_type_invariant(self);
        }
        match &self.value {
            Some(value) => WipeOnForkOnceLock {
                once: self.once.clone(),
                value: Some(value.clone()),
            },
            None => WipeOnForkOnceLock { once: self.once.clone(), value: None },
        }
    }
}

} // verus!
