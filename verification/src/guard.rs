//! The guard: one optional hold and the flag that says whether it is there.

use vstd::prelude::*;
use crate::model::WakeState;
use crate::model::acquire;
use crate::model::acquire_reply;
use crate::model::release;

verus! {

/// Owns the hold that keeps the machine awake, if there is one.
///
/// `H` is whatever the platform hands out for a hold; giving the hold up is
/// dropping it, and a guard that is dropped while active gives its hold up
/// with it. Every operation takes `&mut self`, so two of them never run at
/// once on one guard: callers on several threads share a guard behind a lock.
pub struct SleepGuard<H> {
    active: bool,
    awake_guard: Option<H>,
}

impl<H> View for SleepGuard<H> {
    type V = WakeState<H>;

    closed spec fn view(&self) -> WakeState<H> {
        match self.awake_guard {
            Some(h) => WakeState::Active(h),
            None => WakeState::Idle,
        }
    }
}

impl<H> SleepGuard<H> {
    /// The flag is set exactly when a hold is owned.
    #[verifier::type_invariant]
    spec fn flag_matches_hold(&self) -> bool {
        self.active == (self.awake_guard is Some)
    }

    /// The activity flag as it is stored.
    pub closed spec fn flag(&self) -> bool {
        self.active
    }

    /// The flag and the hold agree: the flag is set exactly when the guard is
    /// in the active state.
    pub open spec fn in_sync(&self) -> bool {
        self.flag() == (self@ is Active)
    }

    /// A guard that holds nothing.
    pub fn new() -> (guard: Self)
        ensures
            guard@ == WakeState::<H>::Idle,
            guard.in_sync(),
    {
        SleepGuard { active: false, awake_guard: None }
    }

    /// Whether sleep is being held off.
    pub fn is_active(&self) -> (active: bool)
        ensures
            active == self.flag(),
            active == (self@ is Active),
    {
        proof {
            use_type_invariant(self);
        }
        self.active
    }

    /// The hold that is owned, if there is one.
    pub fn hold(&self) -> (held: Option<&H>)
        ensures
            held is Some <==> self@ is Active,
            held matches Some(hold) ==> self@ == WakeState::Active(*hold),
    {
        self.awake_guard.as_ref()
    }

    /// Finishes an acquire with the operating system's answer to the request
    /// for a hold.
    ///
    /// An idle guard takes the hold it is given and becomes active; given a
    /// refusal it stays idle and hands the reason back as it came. A guard that
    /// is already active keeps its own hold, reports success, and gives up at
    /// once a hold that it is handed on top.
    pub fn settle(&mut self, outcome: Result<H, String>) -> (reply: Result<(), String>)
        ensures
            final(self)@ == acquire(old(self)@, outcome),
            reply == acquire_reply(old(self)@, outcome),
            final(self).in_sync(),
    {
        proof {
            use_type_invariant(&*self);
        }
        if self.active {
            Ok(())
        } else {
            match outcome {
                Ok(hold) => {
                    *self = SleepGuard { active: true, awake_guard: Some(hold) };
                    Ok(())
                },
                Err(reason) => Err(reason),
            }
        }
    }

    /// Gives up the hold, if there is one, by dropping it, and leaves the guard
    /// idle. On an idle guard this does nothing. There is no failure to report
    /// either way.
    pub fn allow_sleep(&mut self)
        ensures
            final(self)@ == release(old(self)@),
            final(self).in_sync(),
    {
        proof {
            use_type_invariant(&*self);
        }
        if self.active {
            *self = SleepGuard { active: false, awake_guard: None };
        }
    }
}

} // verus!
