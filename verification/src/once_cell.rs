//! A write-once cell for a single owner, emptied by a fork.

use crate::epoch::{filled, live, should_wipe, slot_mut, stamp_of, wiped, Stamped};
use core::marker::PhantomData;
use std::rc::Rc;
use vstd::pervasive::cloned;
use vstd::prelude::*;
use vstd::std_specs::cmp::PartialEqSpec;

verus! {

/// A cell that can be written once per generation.
///
/// The view of a cell is the value it holds together with the generation in
/// which it was written, if it holds one. A value written in another
/// generation is dropped by whichever operation touches the cell first.
///
/// The cell is for one thread: it is neither `Send` nor `Sync`.
#[derive(Debug)]
pub struct WipeOnForkOnceCell<T> {
    stamp: Option<u64>,
    inner: Option<T>,
    _not_send_sync: PhantomData<Rc<()>>,
}

impl<T> View for WipeOnForkOnceCell<T> {
    type V = Option<Stamped<T>>;

    closed spec fn view(&self) -> Option<Stamped<T>> {
        match (self.stamp, self.inner) {
            (Some(stamp), Some(value)) => Some(Stamped { stamp, value }),
            _ => None,
        }
    }
}

/// Equality of what two callers may observe, as [`WipeOnForkOnceCell::eq`]
/// and its counterpart for the lock decide it.
pub open spec fn same_content<T: PartialEq>(a: Option<T>, b: Option<T>) -> bool {
    match (a, b) {
        (Some(x), Some(y)) => x.eq_spec(&y),
        (None, None) => true,
        _ => false,
    }
}

impl<T> WipeOnForkOnceCell<T> {
    #[verifier::type_invariant]
    spec fn stamped_iff_filled(self) -> bool {
        self.stamp is Some <==> self.inner is Some
    }

    /// Whether the cell holds a value that was written in a generation other
    /// than `generation`.
    pub fn check_if_should_wipe(&self, generation: u64) -> (stale: bool)
        ensures
            stale == should_wipe(stamp_of(self@), generation),
    {
        proof {
            use_type_invariant(self);
        }
        match self.stamp {
            None => false,
            Some(stamp) => stamp != generation,
        }
    }

    /// The wipe protocol: a value written in another generation is dropped.
    pub fn wipe_if_should_wipe(&mut self, generation: u64)
        ensures
            final(self)@ == wiped(old(self)@, generation),
    {
        proof {
            use_type_invariant(&*self);
        }
        if self.check_if_should_wipe(generation) {
            *self = WipeOnForkOnceCell::new();
        }
    }

    /// What a caller in `generation` may observe, without touching the cell.
    fn peek(&self, generation: u64) -> (value: Option<&T>)
        ensures
            match live(self@, generation) {
                Some(held) => value == Some(&held),
                None => value is None,
            },
    {
        proof {
            use_type_invariant(self);
        }
        if self.check_if_should_wipe(generation) {
            None
        } else {
            self.inner.as_ref()
        }
    }

    /// An empty cell.
    #[must_use]
    pub fn new() -> (cell: Self)
        ensures
            cell@ is None,
    {
        WipeOnForkOnceCell { stamp: None, inner: None, _not_send_sync: PhantomData }
    }

    /// A cell that holds `value`, written in `generation`.
    pub fn from(generation: u64, value: T) -> (cell: Self)
        ensures
            cell@ == Some(Stamped { stamp: generation, value }),
    {
        WipeOnForkOnceCell {
            stamp: Some(generation),
            inner: Some(value),
            _not_send_sync: PhantomData,
        }
    }

    /// The value of the cell, if one was written in `generation`.
    pub fn get(&mut self, generation: u64) -> (value: Option<&T>)
        ensures
            final(self)@ == wiped(old(self)@, generation),
            match live(old(self)@, generation) {
                Some(held) => value == Some(&held),
                None => value is None,
            },
    {
        self.wipe_if_should_wipe(generation);
        proof {
            use_type_invariant(&*self);
        }
        self.inner.as_ref()
    }

    /// The value of the cell for writing, if one was written in `generation`.
    /// The cell keeps its stamp and holds what the borrower leaves.
    pub fn get_mut(&mut self, generation: u64) -> (value: Option<&mut T>)
        ensures
            match live(old(self)@, generation) {
                Some(held) => {
                    &&& value matches Some(r)
                    &&& *r == held
                    &&& final(self)@ == Some(Stamped { stamp: generation, value: *final(r) })
                },
                None => value is None && final(self)@ is None,
            },
    {
        self.wipe_if_should_wipe(generation);
        proof {
            use_type_invariant(&*self);
        }
        slot_mut(&mut self.inner)
    }

    /// Writes `value` unless the cell already holds a value from
    /// `generation`, in which case the cell is left as it is and `value`
    /// comes back.
    pub fn set(&mut self, generation: u64, value: T) -> (done: Result<(), T>)
        ensures
            match live(old(self)@, generation) {
                Some(held) => done == Err::<(), T>(value) && final(self)@ == old(self)@,
                None => done is Ok && final(self)@ == Some(Stamped { stamp: generation, value }),
            },
    {
        self.wipe_if_should_wipe(generation);
        match self.try_insert(generation, value) {
            Ok(_) => Ok(()),
            Err((_, value)) => Err(value),
        }
    }

    /// Writes `value` and returns the value the cell now holds, unless the
    /// cell already holds a value from `generation`, in which case the cell
    /// is left as it is and both values come back.
    pub fn try_insert(&mut self, generation: u64, value: T) -> (inserted: Result<&T, (&T, T)>)
        ensures
            match live(old(self)@, generation) {
                Some(held) => inserted == Err::<&T, (&T, T)>((&held, value)) && final(self)@
                    == old(self)@,
                None => inserted == Ok::<&T, (&T, T)>(&value) && final(self)@ == Some(
                    Stamped { stamp: generation, value },
                ),
            },
    {
        self.wipe_if_should_wipe(generation);
        proof {
            use_type_invariant(&*self);
        }
        if self.inner.is_some() {
            return Err((self.inner.as_ref().unwrap(), value));
        }
        *self = WipeOnForkOnceCell::from(generation, value);
        Ok(self.inner.as_ref().unwrap())
    }

    /// The value of the cell in `generation`: the one it holds if it was
    /// written in this generation, the one that `f` returns otherwise.
    ///
    /// The initializer has to be callable only where it is called: when the
    /// cell holds no value from this generation.
    pub fn get_or_init<F>(&mut self, generation: u64, f: F) -> (value: &T) where F: FnOnce() -> T
        requires
            live(old(self)@, generation) is None ==> f.requires(()),
        ensures
            final(self)@ == filled(old(self)@, generation, *value),
            match live(old(self)@, generation) {
                Some(held) => *value == held,
                None => f.ensures((), *value),
            },
    {
        let wrapped = || -> (made: Result<T, ()>)
            requires
                f.requires(()),
            ensures
                made matches Ok(v) && f.ensures((), v),
            { Ok(f()) };
        match self.get_or_try_init(generation, wrapped) {
            Ok(val) => val,
            Err(_) => vstd::pervasive::unreached(),
        }
    }

    /// The value of the cell in `generation`: the one it holds if it was
    /// written in this generation, the one that `f` returns otherwise. If
    /// `f` fails, the cell stays empty and the error comes back.
    ///
    /// The initializer has to be callable only where it is called: when the
    /// cell holds no value from this generation.
    pub fn get_or_try_init<F, E>(&mut self, generation: u64, f: F) -> (value: Result<
        &T,
        E,
    >) where F: FnOnce() -> Result<T, E>
        requires
            live(old(self)@, generation) is None ==> f.requires(()),
        ensures
            match live(old(self)@, generation) {
                Some(held) => value == Ok::<&T, E>(&held) && final(self)@ == old(self)@,
                None => match value {
                    Ok(made) => f.ensures((), Ok(*made)) && final(self)@ == Some(
                        Stamped { stamp: generation, value: *made },
                    ),
                    Err(e) => f.ensures((), Err(e)) && final(self)@ is None,
                },
            },
    {
        self.wipe_if_should_wipe(generation);
        proof {
            use_type_invariant(&*self);
        }
        if self.inner.is_some() {
            return Ok(self.inner.as_ref().unwrap());
        }
        let val = f()?;
        match self.try_insert(generation, val) {
            Ok(val) => Ok(val),
            Err(_) => vstd::pervasive::unreached(),
        }
    }

    /// Takes the cell apart: the value if one was written in `generation`.
    pub fn into_inner(self, generation: u64) -> (value: Option<T>)
        ensures
            value == live(self@, generation),
    {
        let mut cell = self;
        cell.wipe_if_should_wipe(generation);
        proof {
            use_type_invariant(&cell);
        }
        cell.inner
    }

    /// Empties the cell and returns the value if one was written in
    /// `generation`.
    pub fn take(&mut self, generation: u64) -> (value: Option<T>)
        ensures
            value == live(old(self)@, generation),
            final(self)@ is None,
    {
        let mut taken = WipeOnForkOnceCell::new();
        core::mem::swap(self, &mut taken);
        taken.into_inner(generation)
    }

    /// Whether two cells hold equal values as seen from `generation`.
    pub fn eq(&self, other: &Self, generation: u64) -> (equal: bool) where T: PartialEq
        ensures
            T::obeys_eq_spec() ==> equal == same_content(
                live(self@, generation),
                live(other@, generation),
            ),
    {
        match (self.peek(generation), other.peek(generation)) {
            (Some(a), Some(b)) => *a == *b,
            (None, None) => true,
            _ => false,
        }
    }
}

impl<T> Default for WipeOnForkOnceCell<T> {
    fn default() -> (cell: Self)
        ensures
            cell@ is None,
    {
        WipeOnForkOnceCell::new()
    }
}

impl<T: Clone> Clone for WipeOnForkOnceCell<T> {
    /// A cell with a clone of the value and the same stamp, so that both
    /// are wiped by the same forks.
    fn clone(&self) -> (copy: WipeOnForkOnceCell<T>)
        ensures
            match self@ {
                Some(held) => copy@ matches Some(c) && c.stamp == held.stamp && cloned(
                    held.value,
                    c.value,
                ),
                None => copy@ is None,
            },
    {
        proof {
            use_type_invariant(self);
        }
        match &self.inner {
            Some(value) => WipeOnForkOnceCell {
                stamp: self.stamp,
                inner: Some(value.clone()),
                _not_send_sync: PhantomData,
            },
            None => WipeOnForkOnceCell::new(),
        }
    }
}

} // verus!
