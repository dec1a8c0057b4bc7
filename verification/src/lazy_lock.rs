//! A lazily computed value built on the once-state machine, recomputed after
//! a fork.

use crate::epoch::{filled, live, wiped, Stamped};
use crate::once::{CompletionGuard, ExclusiveState, State, WipeOnForkOnce};
use vstd::prelude::*;

verus! {

/// A value that is computed by its initializer on first use, cached, and
/// computed again on the first use in every later generation. Whether the
/// value is there is decided by a [`WipeOnForkOnce`].
///
/// The view of a lock is the cached value with the generation that computed
/// it, if there is one. The initializer is taken out of the lock while it
/// runs and put back when it returns; a lock whose initializer did not
/// return has none and is poisoned for good.
#[derive(Debug)]
pub struct WipeOnForkLazyLock<T, F = fn() -> T> {
    once: WipeOnForkOnce,
    func: Option<F>,
    data: Option<T>,
}

impl<T, F> View for WipeOnForkLazyLock<T, F> {
    type V = Option<Stamped<T>>;

    closed spec fn view(&self) -> Option<Stamped<T>> {
        match (self.once@.state, self.once@.stamp, self.data) {
            (State::Complete, Some(stamp), Some(value)) => Some(Stamped { stamp, value }),
            _ => None,
        }
    }
}

impl<T, F> WipeOnForkLazyLock<T, F> {
    #[verifier::type_invariant]
    spec fn complete_implies_computed(self) -> bool {
        &&& self.once@.wf()
        &&& self.once@.state != State::Running
        &&& self.once@.state == State::Complete ==> self.data is Some
        &&& self.once@.state == State::Poisoned <==> self.func is None
    }

    /// Whether an initializer of this lock did not return. Such a lock holds
    /// neither a value nor an initializer, and no operation that needs
    /// either accepts it.
    pub closed spec fn poisoned(&self) -> bool {
        self.func is None
    }

    /// The initializer of a lock that is not poisoned.
    pub closed spec fn initializer(&self) -> F {
        match self.func {
            Some(f) => f,
            None => arbitrary(),
        }
    }

    /// Returns `true` if an initializer of this lock did not return.
    pub fn is_poisoned(&self) -> (poisoned: bool)
        ensures
            poisoned == self.poisoned(),
    {
        self.func.is_none()
    }

    /// The wipe protocol: a value computed in another generation is dropped
    /// and the once is made fresh. A poisoned lock holds nothing to drop and
    /// stays as it is.
    fn wipe_if_should_wipe(&mut self, generation: u64)
        ensures
            final(self)@ == wiped(old(self)@, generation),
            final(self).initializer() == old(self).initializer(),
            final(self).poisoned() == old(self).poisoned(),
            !old(self).poisoned() ==> final(self).once@ == old(self).once@.observed(generation),
    {
        proof {
            use_type_invariant(&*self);
        }
        if self.func.is_some() && self.once.check_if_should_wipe(generation) {
            self.once = WipeOnForkOnce::new();
            self.data = None;
        }
    }

    /// The cached value, if it was computed in `generation`.
    pub fn get(&mut self, generation: u64) -> (value: Option<&T>)
        ensures
            final(self)@ == wiped(old(self)@, generation),
            final(self).initializer() == old(self).initializer(),
            final(self).poisoned() == old(self).poisoned(),
            match live(old(self)@, generation) {
                Some(cached) => value == Some(&cached),
                None => value is None,
            },
    {
        self.wipe_if_should_wipe(generation);
        proof {
            use_type_invariant(&*self);
        }
        let mut once = self.once.clone();
        if once.is_completed(generation) {
            self.data.as_ref()
        } else {
            None
        }
    }
}

impl<T, F: FnMut() -> T> WipeOnForkLazyLock<T, F> {
    /// A lock that will compute its value with `f`.
    pub fn new(f: F) -> (lock: WipeOnForkLazyLock<T, F>)
        ensures
            lock@ is None,
            lock.initializer() == f,
            !lock.poisoned(),
    {
        WipeOnForkLazyLock { once: WipeOnForkOnce::new(), func: Some(f), data: None }
    }

    /// Takes the lock apart: the value if one was computed in `generation`,
    /// the initializer otherwise.
    pub fn into_inner(this: Self, generation: u64) -> (inner: Result<T, F>)
        requires
            !this.poisoned(),
        ensures
            match live(this@, generation) {
                Some(cached) => inner == Ok::<T, F>(cached),
                None => inner == Err::<T, F>(this.initializer()),
            },
    {
        let mut this = this;
        this.wipe_if_should_wipe(generation);
        proof {
            use_type_invariant(&this);
        }
        let mut once = this.once.clone();
        match once.state(generation) {
            ExclusiveState::Incomplete => match this.func {
                Some(f) => Err(f),
                None => vstd::pervasive::unreached(),
            },
            ExclusiveState::Complete => Ok(this.data.unwrap()),
            ExclusiveState::Poisoned => vstd::pervasive::unreached(),
        }
    }

    /// The value of the lock in `generation`: the cached one if it was
    /// computed in this generation, a newly computed one otherwise.
    ///
    /// The initializer has to be callable only where it is called: when no
    /// value from this generation is cached.
    pub fn force(this: &mut WipeOnForkLazyLock<T, F>, generation: u64) -> (value: &T)
        requires
            !old(this).poisoned(),
            live(old(this)@, generation) is None ==> old(this).initializer().requires(()),
        ensures
            !final(this).poisoned(),
            final(this).initializer() == old(this).initializer(),
            final(this)@ == filled(old(this)@, generation, *value),
            match live(old(this)@, generation) {
                Some(cached) => *value == cached,
                None => old(this).initializer().ensures((), *value),
            },
    {
        this.wipe_if_should_wipe(generation);
        proof {
            use_type_invariant(&*this);
        }
        let mut once = this.once.clone();
        match once.begin(generation, false) {
            Ok(Some(f_state)) => {
                // An initializer that unwinds never comes back here, so what
                // it leaves behind is written before it runs: a poisoned
                // lock without its initializer.
                let mut unfinished = WipeOnForkOnce::new();
                CompletionGuard::new(generation).release(&mut unfinished);
                let mut running = WipeOnForkLazyLock { once: unfinished, func: None, data: None };
                core::mem::swap(this, &mut running);
                match running.func {
                    Some(mut f) => {
                        let value = f();
                        let mut guard = CompletionGuard::new(generation);
                        guard.complete(&f_state);
                        guard.release(&mut once);
                        *this = WipeOnForkLazyLock { once, func: Some(f), data: Some(value) };
                    },
                    None => {},
                }
            },
            _ => {},
        }
        proof {
            use_type_invariant(&*this);
        }
        this.data.as_ref().unwrap()
    }
}

} // verus!
