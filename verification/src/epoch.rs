//! The fork epoch stamp and the wipe protocol.
//!
//! Every primitive of this crate stamps what it caches with the generation
//! in which it was produced, and treats a stamp from any other generation as
//! proof that the value was inherited across a fork and has to be thrown
//! away. This module holds the mathematical model of that rule, over which
//! the primitives state their contracts, and what follows from it.

use vstd::prelude::*;

verus! {

/// A value together with the generation in which it was produced.
pub struct Stamped<T> {
    pub stamp: u64,
    pub value: T,
}

/// A stamp is stale when it was set in a generation other than the current
/// one. An absent stamp is never stale: there is nothing to wipe.
pub open spec fn should_wipe(stamp: Option<u64>, generation: u64) -> bool {
    stamp matches Some(g) && g != generation
}

/// The stamp of a slot: the generation in which its value was produced, if
/// it holds one.
pub open spec fn stamp_of<T>(slot: Option<Stamped<T>>) -> Option<u64> {
    match slot {
        Some(s) => Some(s.stamp),
        None => None,
    }
}

/// What is left of a slot once the wipe protocol has run in `generation`:
/// nothing if its stamp is stale, the slot itself otherwise.
pub open spec fn wiped<T>(slot: Option<Stamped<T>>, generation: u64) -> Option<Stamped<T>> {
    if should_wipe(stamp_of(slot), generation) {
        None
    } else {
        slot
    }
}

/// The value a caller in `generation` is allowed to observe in a slot: the
/// one that the wipe protocol leaves there.
pub open spec fn live<T>(slot: Option<Stamped<T>>, generation: u64) -> Option<T> {
    match wiped(slot, generation) {
        Some(s) => Some(s.value),
        None => None,
    }
}

/// A slot after a caller in `generation` has asked for its value with an
/// initializer at hand: the slot as the wipe protocol leaves it, if that
/// still holds a value; otherwise `made`, the value the initializer returned,
/// stamped with `generation`.
pub open spec fn filled<T>(slot: Option<Stamped<T>>, generation: u64, made: T) -> Option<
    Stamped<T>,
> {
    match live(slot, generation) {
        Some(_) => slot,
        None => Some(Stamped { stamp: generation, value: made }),
    }
}

/// How many initializers run when one caller after the other asks a slot
/// for its value in `generation`, the i-th of them with an initializer that
/// would return `made[i]`.
pub open spec fn initializations<T>(slot: Option<Stamped<T>>, generation: u64, made: Seq<T>) -> nat
    decreases made.len(),
{
    if made.len() == 0 {
        0
    } else {
        let first: nat = if live(slot, generation) is None {
            1
        } else {
            0
        };
        first + initializations(filled(slot, generation, made[0]), generation, made.drop_first())
    }
}

/// Borrows the content of a slot for writing. The slot stays filled exactly
/// if it was filled, and holds whatever the borrower leaves in it.
pub(crate) fn slot_mut<T>(slot: &mut Option<T>) -> (content: Option<&mut T>)
    ensures
        match *old(slot) {
            Some(value) => content matches Some(r) && *r == value && *final(slot) == Some(
                *final(r),
            ),
            None => content is None && *final(slot) is None,
        },
    no_unwind
{
    match slot {
        Some(value) => Some(value),
        None => None,
    }
}

/// A value cached in the parent is never seen in the child, whose generation
/// is another one: there the slot holds nothing, so the first access runs
/// the initializer again and caches what it makes. The parent goes on seeing
/// the value it cached, and the wipe protocol leaves its slot untouched.
pub proof fn lemma_fork_wipes_child_keeps_parent<T>(
    slot: Option<Stamped<T>>,
    parent: u64,
    child: u64,
    value: T,
)
    requires
        child != parent,
        live(slot, parent) == Some(value),
    ensures
        live(slot, child) is None,
        wiped(slot, child) is None,
        forall|made: T| #[trigger]
            filled(slot, child, made) == Some(Stamped { stamp: child, value: made }),
        wiped(slot, parent) == slot,
        forall|made: T| #[trigger] filled(slot, parent, made) == slot,
{
}

/// Within one generation an initializer runs at most once: whatever a first
/// access leaves in the slot, a second access in the same generation finds a
/// value there, returns it, and leaves the slot as it is, whatever its own
/// initializer would have made.
pub proof fn lemma_second_access_reuses_first<T>(
    slot: Option<Stamped<T>>,
    generation: u64,
    first: T,
    second: T,
)
    ensures
        live(filled(slot, generation, first), generation) is Some,
        live(slot, generation) is None ==> live(filled(slot, generation, first), generation)
            == Some(first),
        live(slot, generation) is Some ==> live(filled(slot, generation, first), generation)
            == live(slot, generation),
        filled(filled(slot, generation, first), generation, second) == filled(
            slot,
            generation,
            first,
        ),
{
}

/// Between two forks an initializer runs at most once, however often the
/// slot is asked: once if the slot holds nothing from this generation when
/// the first caller arrives, never otherwise.
pub proof fn lemma_one_initialization_per_generation<T>(
    slot: Option<Stamped<T>>,
    generation: u64,
    made: Seq<T>,
)
    ensures
        initializations(slot, generation, made) == (if made.len() > 0 && live(slot, generation)
            is None {
            1nat
        } else {
            0nat
        }),
        initializations(slot, generation, made) <= 1,
    decreases made.len(),
{
    if made.len() > 0 {
        lemma_one_initialization_per_generation(
            filled(slot, generation, made[0]),
            generation,
            made.drop_first(),
        );
    }
}

/// The wipe protocol is idempotent, and it never changes what a caller in the
/// same generation observes.
pub proof fn lemma_wipe_is_idempotent<T>(slot: Option<Stamped<T>>, generation: u64)
    ensures
        wiped(wiped(slot, generation), generation) == wiped(slot, generation),
        live(wiped(slot, generation), generation) == live(slot, generation),
{
}

} // verus!
