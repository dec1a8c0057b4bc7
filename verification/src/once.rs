//! The once-state machine: `Incomplete -> Running -> Complete | Poisoned`,
//! reset to `Incomplete` by the wipe protocol whenever it is entered in a
//! generation other than the one that stamped it.
//!
//! [`WipeOnForkOnce`] is plain data behind exclusive access. Callers that
//! share one instance between threads keep it behind their own lock and drive
//! it through [`WipeOnForkOnce::arrive`] and [`CompletionGuard`], so that the
//! initializer runs with the lock released; callers that own the instance use
//! [`WipeOnForkOnce::call_once`] and [`WipeOnForkOnce::call_once_force`].
//!
//! A once refuses a caller when it is poisoned or when it is entered again
//! while its initializer runs. The functions that take an initializer do not
//! admit such a once. [`WipeOnForkOnce::begin`] and
//! [`WipeOnForkOnce::arrive`] are the decisions: they hand the refusal to the
//! caller as a value, and the caller fails on it.

use crate::epoch::should_wipe;
use vstd::prelude::*;

verus! {

/// What a caller with exclusive access can find a once in.
#[derive(Clone, Copy, PartialEq, Eq, Debug, Structural)]
pub enum ExclusiveState {
    Incomplete,
    Poisoned,
    Complete,
}

/// The four states of the once-state machine.
#[derive(Clone, Copy, PartialEq, Eq, Debug, Structural)]
pub enum State {
    Incomplete,
    Poisoned,
    Running,
    Complete,
}

/// Why a once refuses a caller.
#[derive(Clone, Copy, PartialEq, Eq, Debug, Structural)]
pub enum OnceError {
    /// An earlier initializer failed and the caller did not ask to ignore it.
    Poisoned,
    /// The once is entered again while its initializer is still running.
    Recursive,
}

/// What a caller that shares a once with other threads does on arrival.
#[derive(Debug)]
pub enum Arrival {
    /// Run the initializer with this handle, then settle the run.
    Run(WipeOnForkOnceState),
    /// The once is complete: return.
    Done,
    /// Another caller's initializer is running: wait until its run is
    /// settled, then arrive again.
    Wait,
    /// Fail: the once refuses this caller.
    Refused(OnceError),
}

/// The mathematical model of a [`WipeOnForkOnce`]: its state, and the
/// generation in which that state was reached.
pub struct OnceView {
    pub stamp: Option<u64>,
    pub state: State,
}

impl OnceView {
    /// A once that nothing has happened to.
    pub open spec fn fresh() -> OnceView {
        OnceView { stamp: None, state: State::Incomplete }
    }

    /// Settled states carry the generation that settled them, so that a fork
    /// can invalidate them; an untouched once carries none.
    pub open spec fn wf(self) -> bool {
        &&& self.state == State::Complete || self.state == State::Poisoned
            ==> self.stamp is Some
        &&& self.state == State::Incomplete ==> self.stamp is None
    }

    /// The once as a caller in `generation` finds it, that is, after the wipe
    /// protocol has run: fresh if its stamp is from another generation,
    /// unchanged otherwise.
    pub open spec fn observed(self, generation: u64) -> OnceView {
        if should_wipe(self.stamp, generation) {
            OnceView::fresh()
        } else {
            self
        }
    }

    /// What happens to a caller that arrives in `generation` with an
    /// initializer: `Ok(true)` if the initializer runs, `Ok(false)` if the
    /// once is already complete, and the error if it is refused.
    pub open spec fn entry(self, generation: u64, ignore_poisoning: bool) -> Result<
        bool,
        OnceError,
    > {
        match self.observed(generation).state {
            State::Complete => Ok(false),
            State::Running => Err(OnceError::Recursive),
            State::Poisoned => if ignore_poisoning {
                Ok(true)
            } else {
                Err(OnceError::Poisoned)
            },
            State::Incomplete => Ok(true),
        }
    }

    /// Whether the handle given to an initializer entering in `generation`
    /// reports earlier poisoning.
    pub open spec fn poisoned_at(self, generation: u64) -> bool {
        self.observed(generation).state == State::Poisoned
    }

    /// The once while its initializer runs.
    pub open spec fn started(self) -> OnceView {
        OnceView { stamp: self.stamp, state: State::Running }
    }

    /// The once after a run that began in `generation` has ended in `verdict`.
    pub open spec fn settled(generation: u64, verdict: State) -> OnceView {
        OnceView { stamp: Some(generation), state: verdict }
    }

    /// The once after a whole call in `generation` whose initializer, if it
    /// ran, ended in `verdict`.
    pub open spec fn after_call(
        self,
        generation: u64,
        ignore_poisoning: bool,
        verdict: State,
    ) -> OnceView {
        if self.entry(generation, ignore_poisoning) == Ok::<bool, OnceError>(true) {
            OnceView::settled(generation, verdict)
        } else {
            self.observed(generation)
        }
    }

    /// How many of `n` successive callers in `generation`, each with an
    /// initializer that returns, run their initializer. A caller that the
    /// once refuses runs nothing.
    pub open spec fn runs(self, generation: u64, n: nat) -> nat
        decreases n,
    {
        if n == 0 {
            0
        } else {
            let first: nat = if self.entry(generation, false) == Ok::<bool, OnceError>(true) {
                1
            } else {
                0
            };
            first + self.after_call(generation, false, State::Complete).runs(
                generation,
                (n - 1) as nat,
            )
        }
    }
}

/// A once-state machine that forgets what it has done when it is entered in
/// another generation.
#[derive(Debug)]
pub struct WipeOnForkOnce {
    stamp: Option<u64>,
    state: State,
}

/// The handle an initializer is given by [`WipeOnForkOnce::call_once_force`].
/// It tells whether the once was poisoned when the run began, and lets the
/// initializer leave it poisoned although it returns.
#[derive(Debug)]
pub struct WipeOnForkOnceState {
    poisoned: bool,
    set_state_to: State,
}

/// Holds what a run will leave behind in its once. A new guard holds
/// `Poisoned`: that is what a run leaves unless the guard is told, through
/// [`CompletionGuard::complete`], that the initializer returned.
#[derive(Debug)]
pub struct CompletionGuard {
    set_state_on_drop_to: State,
    set_stamp_on_drop_to: u64,
}

impl View for WipeOnForkOnce {
    type V = OnceView;

    closed spec fn view(&self) -> OnceView {
        OnceView { stamp: self.stamp, state: self.state }
    }
}

impl View for CompletionGuard {
    type V = OnceView;

    /// The once as the guard will leave it.
    closed spec fn view(&self) -> OnceView {
        OnceView::settled(self.set_stamp_on_drop_to, self.set_state_on_drop_to)
    }
}

impl WipeOnForkOnceState {
    #[verifier::type_invariant]
    spec fn verdict_is_final(self) -> bool {
        self.set_state_to == State::Complete || self.set_state_to == State::Poisoned
    }

    /// Whether the once was poisoned when this run began.
    pub closed spec fn was_poisoned(&self) -> bool {
        self.poisoned
    }

    /// Whether this run will leave the once poisoned.
    pub closed spec fn will_poison(&self) -> bool {
        self.set_state_to == State::Poisoned
    }

    /// The state this run will leave the once in.
    pub open spec fn verdict(&self) -> State {
        if self.will_poison() {
            State::Poisoned
        } else {
            State::Complete
        }
    }

    /// Returns `true` if the once was poisoned when this run began.
    pub fn is_poisoned(&self) -> (poisoned: bool)
        ensures
            poisoned == self.was_poisoned(),
    {
        self.poisoned
    }

    /// Leaves the once poisoned although the initializer returns.
    pub fn poison(&mut self)
        ensures
            final(self).will_poison(),
            final(self).was_poisoned() == old(self).was_poisoned(),
    {
        self.set_state_to = State::Poisoned;
    }
}

impl CompletionGuard {
    #[verifier::type_invariant]
    spec fn verdict_is_final(self) -> bool {
        self.set_state_on_drop_to == State::Complete || self.set_state_on_drop_to
            == State::Poisoned
    }

    /// The guard of a run that began in `generation`. Until it is told
    /// otherwise it leaves the once poisoned.
    pub fn new(generation: u64) -> (guard: Self)
        ensures
            guard@ == OnceView::settled(generation, State::Poisoned),
    {
        CompletionGuard { set_state_on_drop_to: State::Poisoned, set_stamp_on_drop_to: generation }
    }

    /// Records that the initializer returned: the once will be left in the
    /// state that the initializer's handle asks for.
    pub fn complete(&mut self, f_state: &WipeOnForkOnceState)
        ensures
            final(self)@ == (OnceView { stamp: old(self)@.stamp, state: f_state.verdict() }),
    {
        proof {
            use_type_invariant(f_state);
        }
        self.set_state_on_drop_to = f_state.set_state_to;
    }

    /// Ends the run: writes what the guard holds into `once`.
    pub fn release(self, once: &mut WipeOnForkOnce)
        ensures
            final(once)@ == self@,
            final(once)@.wf(),
    {
        proof {
            use_type_invariant(&self);
        }
        *once = WipeOnForkOnce {
            stamp: Some(self.set_stamp_on_drop_to),
            state: self.set_state_on_drop_to,
        };
    }
}

impl Clone for WipeOnForkOnce {
    /// A copy of the once as a forked child would inherit it.
    fn clone(&self) -> (copy: Self)
        ensures
            copy@ == self@,
    {
        proof {
            use_type_invariant(self);
        }
        WipeOnForkOnce { stamp: self.stamp, state: self.state }
    }
}

impl WipeOnForkOnce {
    #[verifier::type_invariant]
    spec fn well_formed(self) -> bool {
        self@.wf()
    }

    /// A once that nothing has happened to.
    pub fn new() -> (once: WipeOnForkOnce)
        ensures
            once@ == OnceView::fresh(),
    {
        WipeOnForkOnce { stamp: None, state: State::Incomplete }
    }

    /// Whether the once was stamped in a generation other than `generation`.
    pub fn check_if_should_wipe(&self, generation: u64) -> (stale: bool)
        ensures
            stale == should_wipe(self@.stamp, generation),
        no_unwind
    {
        match self.stamp {
            None => false,
            Some(stamp) => stamp != generation,
        }
    }

    /// The wipe protocol: a once that was stamped in another generation
    /// becomes fresh, any other once is left alone.
    pub fn wipe_if_should_wipe(&mut self, generation: u64)
        ensures
            final(self)@ == old(self)@.observed(generation),
            final(self)@.wf(),
        no_unwind
    {
        proof {
            use_type_invariant(&*self);
        }
        if self.check_if_should_wipe(generation) {
            *self = WipeOnForkOnce { stamp: None, state: State::Incomplete };
        }
    }

    /// Runs `f` unless the once is already complete in `generation`, and
    /// hands back what `f` returned.
    ///
    /// A once that is poisoned in `generation`, or that is entered while its
    /// initializer runs, is not admitted: [`WipeOnForkOnce::begin`] tells a
    /// caller beforehand. The initializer has to be callable only where it
    /// is called: when the once, seen from `generation`, is incomplete.
    pub fn call_once<R, F: FnOnce() -> R>(&mut self, generation: u64, f: F) -> (outcome: Option<R>)
        requires
            old(self)@.entry(generation, false) is Ok,
            old(self)@.entry(generation, false) == Ok::<bool, OnceError>(true) ==> f.requires(()),
        ensures
            final(self)@ == old(self)@.after_call(generation, false, State::Complete),
            final(self)@.wf(),
            match outcome {
                Some(r) => old(self)@.entry(generation, false) == Ok::<bool, OnceError>(true)
                    && f.ensures((), r),
                None => old(self)@.entry(generation, false) == Ok::<bool, OnceError>(false),
            },
    {
        self.wipe_if_should_wipe(generation);
        if self.is_completed(generation) {
            return None;
        }
        let wrapped = |p: &mut WipeOnForkOnceState| -> (r: R)
            requires
                f.requires(()),
            ensures
                f.ensures((), r),
                *final(p) == *old(p),
            { f() };
        self._call(generation, false, wrapped)
    }

    /// Runs `f` unless the once is already complete in `generation`, whether
    /// or not it is poisoned, and hands back what `f` returned. The handle
    /// given to `f` tells whether the once was poisoned, and the once ends up
    /// complete unless `f` poisons the handle.
    ///
    /// A once that is entered while its initializer runs is not admitted.
    pub fn call_once_force<R, F: FnOnce(&mut WipeOnForkOnceState) -> R>(
        &mut self,
        generation: u64,
        f: F,
    ) -> (outcome: Option<R>)
        requires
            old(self)@.entry(generation, true) is Ok,
            old(self)@.entry(generation, true) == Ok::<bool, OnceError>(true) ==> forall|
                p: &mut WipeOnForkOnceState,
            |
                p.was_poisoned() == old(self)@.poisoned_at(generation) && !p.will_poison()
                    ==> f.requires((p,)),
        ensures
            final(self)@.wf(),
            match outcome {
                Some(r) => old(self)@.entry(generation, true) == Ok::<bool, OnceError>(true)
                    && exists|p: &mut WipeOnForkOnceState|
                    {
                        &&& p.was_poisoned() == old(self)@.poisoned_at(generation)
                        &&& !p.will_poison()
                        &&& f.ensures((p,), r)
                        &&& final(self)@ == OnceView::settled(generation, final(p).verdict())
                    },
                None => old(self)@.entry(generation, true) == Ok::<bool, OnceError>(false)
                    && final(self)@ == old(self)@.observed(generation),
            },
    {
        self.wipe_if_should_wipe(generation);
        if self.is_completed(generation) {
            return None;
        }
        self._call(generation, true, f)
    }

    /// Returns `true` if the once is complete in `generation`.
    pub fn is_completed(&mut self, generation: u64) -> (completed: bool)
        ensures
            completed == (old(self)@.observed(generation).state == State::Complete),
            final(self)@ == old(self)@.observed(generation),
            final(self)@.wf(),
        no_unwind
    {
        self.wipe_if_should_wipe(generation);
        self.state == State::Complete
    }

    /// Returns `true` if an initializer is running in the once in
    /// `generation`.
    pub fn is_running(&mut self, generation: u64) -> (running: bool)
        ensures
            running == (old(self)@.observed(generation).state == State::Running),
            final(self)@ == old(self)@.observed(generation),
            final(self)@.wf(),
        no_unwind
    {
        self.wipe_if_should_wipe(generation);
        self.state == State::Running
    }

    /// The state of a once that no initializer is running in.
    pub fn state(&mut self, generation: u64) -> (state: ExclusiveState)
        requires
            old(self)@.observed(generation).state != State::Running,
        ensures
            final(self)@ == old(self)@.observed(generation),
            final(self)@.wf(),
            match state {
                ExclusiveState::Incomplete => final(self)@.state == State::Incomplete,
                ExclusiveState::Poisoned => final(self)@.state == State::Poisoned,
                ExclusiveState::Complete => final(self)@.state == State::Complete,
            },
    {
        self.wipe_if_should_wipe(generation);
        match self.state {
            State::Incomplete => ExclusiveState::Incomplete,
            State::Poisoned => ExclusiveState::Poisoned,
            State::Complete => ExclusiveState::Complete,
            State::Running => vstd::pervasive::unreached(),
        }
    }

    /// Enters the once in `generation` on behalf of an initializer that the
    /// caller will run itself. `Ok(Some(handle))` means that the once is now
    /// running and that the caller owes it a [`CompletionGuard::release`];
    /// `Ok(None)` means that it is already complete.
    pub fn begin(&mut self, generation: u64, ignore_poisoning: bool) -> (ticket: Result<
        Option<WipeOnForkOnceState>,
        OnceError,
    >)
        ensures
            final(self)@.wf(),
            match old(self)@.entry(generation, ignore_poisoning) {
                Ok(true) => {
                    &&& ticket matches Ok(Some(handle))
                    &&& handle.was_poisoned() == old(self)@.poisoned_at(generation)
                    &&& !handle.will_poison()
                    &&& final(self)@ == old(self)@.observed(generation).started()
                },
                Ok(false) => ticket matches Ok(None) && final(self)@ == old(self)@.observed(
                    generation,
                ),
                Err(e) => ticket matches Err(x) && x == e && final(self)@ == old(
                    self,
                )@.observed(generation),
            },
        no_unwind
    {
        self.wipe_if_should_wipe(generation);
        let cur_state: State = self.state;
        match cur_state {
            State::Poisoned => {
                if !ignore_poisoning {
                    return Err(OnceError::Poisoned);
                }
            },
            State::Running => {
                return Err(OnceError::Recursive);
            },
            State::Complete => {
                return Ok(None);
            },
            State::Incomplete => {},
        }
        self.state = State::Running;
        Ok(
            Some(
                WipeOnForkOnceState {
                    poisoned: cur_state == State::Poisoned,
                    set_state_to: State::Complete,
                },
            ),
        )
    }

    /// The whole of a call: the wipe protocol, the decision whether to run,
    /// the run, and the settling of what the run leaves behind.
    ///
    /// A once that would refuse the caller is not admitted: one that is
    /// entered while its initializer runs, and one that is poisoned in
    /// `generation` unless poisoning is ignored.
    pub fn _call<R, F: FnOnce(&mut WipeOnForkOnceState) -> R>(
        &mut self,
        generation: u64,
        ignore_poisoning: bool,
        f: F,
    ) -> (outcome: Option<R>)
        requires
            old(self)@.entry(generation, ignore_poisoning) is Ok,
            old(self)@.entry(generation, ignore_poisoning) == Ok::<bool, OnceError>(true)
                ==> forall|p: &mut WipeOnForkOnceState|
                p.was_poisoned() == old(self)@.poisoned_at(generation) && !p.will_poison()
                    ==> f.requires((p,)),
        ensures
            final(self)@.wf(),
            match outcome {
                Some(r) => old(self)@.entry(generation, ignore_poisoning) == Ok::<
                    bool,
                    OnceError,
                >(true) && exists|p: &mut WipeOnForkOnceState|
                    {
                        &&& p.was_poisoned() == old(self)@.poisoned_at(generation)
                        &&& !p.will_poison()
                        &&& f.ensures((p,), r)
                        &&& final(self)@ == OnceView::settled(generation, final(p).verdict())
                    },
                None => old(self)@.entry(generation, ignore_poisoning) == Ok::<bool, OnceError>(
                    false,
                ) && final(self)@ == old(self)@.observed(generation),
            },
    {
        match self.begin(generation, ignore_poisoning) {
            Ok(Some(mut f_state)) => {
                // An initializer that unwinds never comes back here, so what
                // it leaves behind is written before it runs. Nobody can see
                // the once in the meantime: this caller has it to itself.
                CompletionGuard::new(generation).release(self);
                let r = f(&mut f_state);
                let mut guard = CompletionGuard::new(generation);
                guard.complete(&f_state);
                guard.release(self);
                Some(r)
            },
            Ok(None) => None,
            Err(_) => vstd::pervasive::unreached(),
        }
    }

    /// Decides for a caller that shares the once with other threads. A
    /// caller that is let in runs its initializer and owes the once a
    /// [`CompletionGuard::release`]. A caller that finds the once running
    /// waits for the run to be settled and arrives again, unless it is the
    /// runner itself, which may not enter its own once.
    ///
    /// `runner` is the caller whose initializer is running, if the owner of
    /// the once knows of one, and `caller` is the caller that arrives.
    pub fn arrive(
        &mut self,
        generation: u64,
        ignore_poisoning: bool,
        runner: Option<u64>,
        caller: u64,
    ) -> (arrival: Arrival)
        ensures
            final(self)@.wf(),
            final(self)@ == (if old(self)@.entry(generation, ignore_poisoning) == Ok::<
                bool,
                OnceError,
            >(true) {
                old(self)@.observed(generation).started()
            } else {
                old(self)@.observed(generation)
            }),
            match old(self)@.entry(generation, ignore_poisoning) {
                Ok(true) => {
                    &&& arrival matches Arrival::Run(handle)
                    &&& handle.was_poisoned() == old(self)@.poisoned_at(generation)
                    &&& !handle.will_poison()
                },
                Ok(false) => arrival is Done,
                Err(OnceError::Poisoned) => arrival matches Arrival::Refused(e) && e
                    == OnceError::Poisoned,
                Err(OnceError::Recursive) => if runner == Some(caller) {
                    arrival matches Arrival::Refused(e) && e == OnceError::Recursive
                } else {
                    arrival is Wait
                },
            },
        no_unwind
    {
        match self.begin(generation, ignore_poisoning) {
            Ok(Some(handle)) => Arrival::Run(handle),
            Ok(None) => Arrival::Done,
            Err(OnceError::Poisoned) => Arrival::Refused(OnceError::Poisoned),
            Err(OnceError::Recursive) => {
                let own_run = match runner {
                    Some(running) => running == caller,
                    None => false,
                };
                if own_run {
                    Arrival::Refused(OnceError::Recursive)
                } else {
                    Arrival::Wait
                }
            },
        }
    }
}

/// The wipe protocol is idempotent on a once, and a once seen from the
/// generation that stamped it is seen as it is.
pub proof fn lemma_observed_is_idempotent(once: OnceView, generation: u64)
    ensures
        once.observed(generation).observed(generation) == once.observed(generation),
        once.wf() ==> once.observed(generation).wf(),
{
}

/// A once completed in the parent is incomplete in the child, whose
/// generation is another one: the first caller there runs its initializer.
/// In the parent it stays complete: a caller there runs nothing and the once
/// is left as it is.
pub proof fn lemma_fork_resets_child_keeps_parent(once: OnceView, parent: u64, child: u64)
    requires
        once.wf(),
        child != parent,
        once.observed(parent).state == State::Complete,
    ensures
        once.observed(child) == OnceView::fresh(),
        once.entry(child, false) == Ok::<bool, OnceError>(true),
        once.after_call(child, false, State::Complete) == OnceView::settled(
            child,
            State::Complete,
        ),
        once.observed(parent) == once,
        once.entry(parent, false) == Ok::<bool, OnceError>(false),
        once.after_call(parent, false, State::Complete) == once,
{
}

/// Poisoning propagates within a generation and ends at a fork. A once whose
/// run ended without its guard being told of a success refuses every plain
/// caller in that generation: `call_once` does not admit it, and `begin`
/// answers with the refusal and leaves the once poisoned. A forcing caller
/// is let in, is told of the poisoning, and, if its initializer returns,
/// leaves the once complete for every later caller. In any other generation
/// the once is fresh again.
pub proof fn lemma_poisoning_propagates(generation: u64, child: u64)
    requires
        child != generation,
    ensures
        ({
            let poisoned = OnceView::settled(generation, State::Poisoned);
            let forced = poisoned.after_call(generation, true, State::Complete);
            &&& poisoned.wf()
            &&& poisoned.entry(generation, false) == Err::<bool, OnceError>(OnceError::Poisoned)
            &&& poisoned.after_call(generation, false, State::Complete) == poisoned
            &&& poisoned.entry(generation, true) == Ok::<bool, OnceError>(true)
            &&& poisoned.poisoned_at(generation)
            &&& forced == OnceView::settled(generation, State::Complete)
            &&& forced.entry(generation, false) == Ok::<bool, OnceError>(false)
            &&& poisoned.observed(child) == OnceView::fresh()
            &&& poisoned.entry(child, false) == Ok::<bool, OnceError>(true)
        }),
{
}

/// However many callers arrive at one once in one generation, one after the
/// other as its lock lets them in, and whatever order they arrive in, exactly
/// one of them runs its initializer if the once lets the first one in, and
/// none of them does otherwise.
pub proof fn lemma_one_run_among_many(once: OnceView, generation: u64, n: nat)
    ensures
        once.runs(generation, n) == (if n > 0 && once.entry(generation, false) == Ok::<
            bool,
            OnceError,
        >(true) {
            1nat
        } else {
            0nat
        }),
        once.runs(generation, n) <= 1,
    decreases n,
{
    if n > 0 {
        let next = once.after_call(generation, false, State::Complete);
        lemma_one_run_among_many(next, generation, (n - 1) as nat);
    }
}

} // verus!
