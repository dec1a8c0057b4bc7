//! A lazily computed value for a single owner, recomputed after a fork.

use crate::epoch::{filled, live, should_wipe, stamp_of, wiped, Stamped};
use core::marker::PhantomData;
use std::rc::Rc;
use vstd::prelude::*;

verus! {

#[derive(Debug)]
enum State<T, F> {
    Uninit(F),
    Init(T, F),
    Poisoned,
}

/// A value that is computed by its initializer on first use, cached, and
/// computed again on the first use in every later generation.
///
/// The view of a cell is the cached value with the generation that computed
/// it, if there is one. The initializer is kept for as long as the cell
/// lives, since any fork may make it necessary again.
///
/// The cell is for one thread: it is neither `Send` nor `Sync`.
#[derive(Debug)]
pub struct WipeOnForkLazyCell<T, F = fn() -> T> {
    generation_id: Option<u64>,
    state: State<T, F>,
    _not_send_sync: PhantomData<Rc<()>>,
}

impl<T, F> View for WipeOnForkLazyCell<T, F> {
    type V = Option<Stamped<T>>;

    closed spec fn view(&self) -> Option<Stamped<T>> {
        match (self.generation_id, self.state) {
            (Some(stamp), State::Init(value, _)) => Some(Stamped { stamp, value }),
            _ => None,
        }
    }
}

impl<T, F> WipeOnForkLazyCell<T, F> {
    #[verifier::type_invariant]
    spec fn stamped_iff_init(self) -> bool {
        self.generation_id is Some <==> self.state is Init
    }

    /// Whether an initializer was interrupted in the middle of a run. Such a
    /// cell holds neither a value nor an initializer, and no operation
    /// accepts it.
    pub closed spec fn poisoned(&self) -> bool {
        self.state is Poisoned
    }

    /// The initializer of a cell that is not poisoned.
    pub closed spec fn initializer(&self) -> F {
        match self.state {
            State::Uninit(f) => f,
            State::Init(_, f) => f,
            State::Poisoned => arbitrary(),
        }
    }

    /// Returns `true` if an initializer was interrupted in the middle of a
    /// run.
    pub fn is_poisoned(&self) -> (poisoned: bool)
        ensures
            poisoned == self.poisoned(),
    {
        match &self.state {
            State::Poisoned => true,
            _ => false,
        }
    }

    /// Whether the cached value, if any, was computed in a generation other
    /// than `generation`.
    pub fn check_if_should_wipe(&self, generation: u64) -> (stale: bool)
        ensures
            stale == should_wipe(stamp_of(self@), generation),
    {
        proof {
            use_type_invariant(self);
        }
        match self.generation_id {
            None => false,
            Some(generation_id) => generation_id != generation,
        }
    }

    /// The wipe protocol: a value cached in another generation is dropped
    /// and the cell goes back to holding only its initializer.
    pub fn wipe_if_should_wipe(&mut self, generation: u64)
        ensures
            final(self)@ == wiped(old(self)@, generation),
            final(self).initializer() == old(self).initializer(),
            final(self).poisoned() == old(self).poisoned(),
    {
        proof {
            use_type_invariant(&*self);
        }
        if self.check_if_should_wipe(generation) {
            let mut stale = WipeOnForkLazyCell {
                generation_id: None,
                state: State::Poisoned,
                _not_send_sync: PhantomData,
            };
            core::mem::swap(self, &mut stale);
            match stale.state {
                State::Init(_, f) => {
                    *self = WipeOnForkLazyCell {
                        generation_id: None,
                        state: State::Uninit(f),
                        _not_send_sync: PhantomData,
                    };
                },
                State::Uninit(f) => {
                    *self = WipeOnForkLazyCell {
                        generation_id: None,
                        state: State::Uninit(f),
                        _not_send_sync: PhantomData,
                    };
                },
                State::Poisoned => {},
            }
        }
    }

    /// The cached value, if it was computed in `generation`.
    pub fn get(&mut self, generation: u64) -> (value: Option<&T>)
        ensures
            final(self)@ == wiped(old(self)@, generation),
            final(self).initializer() == old(self).initializer(),
            final(self).poisoned() == old(self).poisoned(),
            match live(old(self)@, generation) {
                Some(cached) => value == Some(&cached),
                None => value is None,
            },
    {
        self.wipe_if_should_wipe(generation);
        proof {
            use_type_invariant(&*self);
        }
        match &self.state {
            State::Init(data, _) => Some(data),
            _ => None,
        }
    }
}

impl<T, F: FnMut() -> T> WipeOnForkLazyCell<T, F> {
    /// A cell that will compute its value with `f`.
    pub fn new(f: F) -> (cell: Self)
        ensures
            cell@ is None,
            cell.initializer() == f,
            !cell.poisoned(),
    {
        WipeOnForkLazyCell {
            generation_id: None,
            state: State::Uninit(f),
            _not_send_sync: PhantomData,
        }
    }

    /// Takes the cell apart: the value if one was computed in `generation`,
    /// the initializer otherwise.
    pub fn into_inner(this: Self, generation: u64) -> (inner: Result<T, F>)
        requires
            !this.poisoned(),
        ensures
            match live(this@, generation) {
                Some(cached) => inner == Ok::<T, F>(cached),
                None => inner == Err::<T, F>(this.initializer()),
            },
    {
        let mut this = this;
        this.wipe_if_should_wipe(generation);
        proof {
            use_type_invariant(&this);
        }
        match this.state {
            State::Uninit(f) => Err(f),
            State::Init(data, _) => Ok(data),
            State::Poisoned => vstd::pervasive::unreached(),
        }
    }

    /// The value of the cell in `generation`: the cached one if it was
    /// computed in this generation, a newly computed one otherwise.
    ///
    /// The initializer has to be callable only where it is called: when no
    /// value from this generation is cached.
    pub fn force(this: &mut WipeOnForkLazyCell<T, F>, generation: u64) -> (value: &T)
        requires
            !old(this).poisoned(),
            live(old(this)@, generation) is None ==> old(this).initializer().requires(()),
        ensures
            !final(this).poisoned(),
            final(this).initializer() == old(this).initializer(),
            final(this)@ == filled(old(this)@, generation, *value),
            match live(old(this)@, generation) {
                Some(cached) => *value == cached,
                None => old(this).initializer().ensures((), *value),
            },
    {
        this.wipe_if_should_wipe(generation);
        proof {
            use_type_invariant(&*this);
        }
        let cached = match &this.state {
            State::Init(_, _) => true,
            _ => false,
        };
        if cached {
            match &this.state {
                State::Init(data, _) => data,
                _ => vstd::pervasive::unreached(),
            }
        } else {
            WipeOnForkLazyCell::really_init(this, generation)
        }
    }

    /// Runs the initializer of a cell that holds no value. While the
    /// initializer runs the cell is poisoned, so that an initializer that
    /// does not return leaves it so.
    fn really_init(this: &mut WipeOnForkLazyCell<T, F>, generation: u64) -> (value: &T)
        requires
            !old(this).poisoned(),
            old(this)@ is None,
            old(this).initializer().requires(()),
        ensures
            !final(this).poisoned(),
            final(this).initializer() == old(this).initializer(),
            final(this)@ == Some(Stamped { stamp: generation, value: *value }),
            old(this).initializer().ensures((), *value),
    {
        proof {
            use_type_invariant(&*this);
        }
        let mut running = WipeOnForkLazyCell {
            generation_id: None,
            state: State::Poisoned,
            _not_send_sync: PhantomData,
        };
        core::mem::swap(this, &mut running);
        match running.state {
            State::Uninit(mut f) => {
                let data = f();
                *this = WipeOnForkLazyCell {
                    generation_id: Some(generation),
                    state: State::Init(data, f),
                    _not_send_sync: PhantomData,
                };
            },
            _ => {},
        }
        match &this.state {
            State::Init(data, _) => data,
            _ => vstd::pervasive::unreached(),
        }
    }
}

} // verus!
