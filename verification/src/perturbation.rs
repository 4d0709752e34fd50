//! The one-shot flag in front of the angular perturbation.
//!
//! The perturbation is scheduled again and again by the host, at a cadence of
//! its own choosing, but may touch the bodies only once in the life of the
//! process. The flag records whether that has happened. It starts as
//! [`PerturbedFlag::NotTriggered`], the first invocation of
//! [`PerturbedFlag::trigger`] moves it to [`PerturbedFlag::Triggered`] and
//! lets the impulse through, and no operation here ever moves it back.

use vstd::prelude::*;

verus! {

/// Whether the perturbation impulse has been released yet.
#[derive(Clone, Copy, Debug, PartialEq, Eq, Structural)]
pub enum PerturbedFlag {
    /// No invocation has happened: the next one applies the impulse.
    NotTriggered,
    /// The impulse was released by an earlier invocation.
    Triggered,
}

impl PerturbedFlag {
    /// Whether an invocation that finds the flag in this state applies the
    /// impulse to the tracked bodies.
    pub open spec fn fires(self) -> bool {
        self is NotTriggered
    }

    /// The flag as one invocation leaves it, whatever it found.
    pub open spec fn after_call(self) -> Self {
        PerturbedFlag::Triggered
    }

    /// The flag after `calls` invocations in a row.
    pub open spec fn after_calls(self, calls: nat) -> Self
        decreases calls,
    {
        if calls == 0 {
            self
        } else {
            self.after_calls((calls - 1) as nat).after_call()
        }
    }

    /// How many of `calls` invocations in a row, the first of which finds
    /// this flag, apply the impulse.
    pub open spec fn applications(self, calls: nat) -> nat
        decreases calls,
    {
        if calls == 0 {
            0
        } else {
            let earlier = (calls - 1) as nat;
            let last: nat = if self.after_calls(earlier).fires() { 1 } else { 0 };
            self.applications(earlier) + last
        }
    }

    /// The flag of a process in which nothing has been perturbed yet.
    pub fn new() -> (flag: Self)
        ensures
            flag == PerturbedFlag::NotTriggered,
    {
        PerturbedFlag::NotTriggered
    }

    /// Reads the flag without changing it.
    pub fn is_triggered(&self) -> (triggered: bool)
        ensures
            triggered == (*self == PerturbedFlag::Triggered),
    {
        match self {
            PerturbedFlag::NotTriggered => false,
            PerturbedFlag::Triggered => true,
        }
    }

    /// One invocation of the perturbation trigger.
    ///
    /// Returns `true` when the caller has to apply the impulse to every
    /// tracked body, which is the case exactly when the flag was not yet
    /// triggered. The flag is triggered by the time the call returns, so the
    /// impulse is committed before any body is touched and a later invocation
    /// finds nothing left to do.
    #[must_use]
    pub fn trigger(&mut self) -> (apply: bool)
        ensures
            apply == old(self).fires(),
            *final(self) == old(self).after_call(),
    {
        match *self {
            PerturbedFlag::NotTriggered => {
                *self = PerturbedFlag::Triggered;
                true
            },
            PerturbedFlag::Triggered => false,
        }
    }
}

/// A triggered flag stays triggered: no number of further invocations
/// releases it again, and none of them changes it.
pub proof fn lemma_triggered_is_final(flag: PerturbedFlag, calls: nat)
    requires
        flag == PerturbedFlag::Triggered,
    ensures
        flag.after_calls(calls) == flag,
    decreases calls,
{
    if calls > 0 {
        lemma_triggered_is_final(flag, (calls - 1) as nat);
    }
}

/// In a run of invocations only the first can apply the impulse, and it does
/// so exactly when it finds the flag not triggered. Every invocation after
/// the first finds the flag triggered, applies nothing and leaves the flag as
/// it found it.
pub proof fn lemma_only_first_call_fires(flag: PerturbedFlag, earlier: nat)
    ensures
        flag.after_calls(earlier).fires() == (earlier == 0 && flag.fires()),
        earlier >= 1 ==> flag.after_calls(earlier) == PerturbedFlag::Triggered,
        earlier >= 1 ==> flag.after_calls(earlier + 1) == flag.after_calls(earlier),
{
    reveal_with_fuel(PerturbedFlag::after_calls, 2);
}

/// Over any run of invocations the impulse is applied at most once: once if
/// the run is not empty and starts from a flag that is not triggered, and
/// not at all otherwise.
pub proof fn lemma_impulse_applied_once(flag: PerturbedFlag, calls: nat)
    ensures
        flag.applications(calls) == if calls >= 1 && flag.fires() { 1nat } else { 0nat },
    decreases calls,
{
    if calls > 0 {
        let earlier = (calls - 1) as nat;
        lemma_impulse_applied_once(flag, earlier);
        lemma_only_first_call_fires(flag, earlier);
    }
}

} // verus!
