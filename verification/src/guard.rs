//! Single-flight admission for the capture pipeline.

use vstd::prelude::*;

verus! {

/// Admits at most one pipeline run at a time.  A trigger that arrives while a
/// run is in flight is silently ignored, never queued: the guard stays held
/// until the run that owns it calls `release` (normal completion) or `cancel`
/// (user abort).
pub struct CaptureGuard {
    held: bool,
}

impl CaptureGuard {
    /// True while some pipeline run owns the guard.
    pub closed spec fn is_held(&self) -> bool {
        self.held
    }

    /// A fresh guard is free.
    pub fn new() -> (g: CaptureGuard)
        ensures
            !g.is_held(),
    {
        CaptureGuard { held: false }
    }

    /// Compare-and-set from free to held.  Returns true exactly when the
    /// caller was admitted; afterwards the guard is held either way.
    pub fn try_acquire(&mut self) -> (admitted: bool)
        ensures
            admitted == !old(self).is_held(),
            final(self).is_held(),
            old(self).is_held() ==> *final(self) == *old(self),
    {
        let was_held = self.held;
        self.held = true;
        !was_held
    }

    /// Unconditionally frees the guard; called when a run completes.
    pub fn release(&mut self)
        ensures
            !final(self).is_held(),
    {
        self.held = false;
    }

    /// Frees the guard from the user-cancel path; same effect as `release`.
    pub fn cancel(&mut self)
        ensures
            !final(self).is_held(),
    {
        self.held = false;
    }
}

/// How many of `n` back-to-back triggers are admitted when the first of them
/// finds the guard in state `held` and no release happens in between.  Each
/// trigger performs the compare-and-set of `try_acquire`, so every trigger
/// after an admitted one finds the guard held.
pub open spec fn admitted_of_burst(held: bool, n: nat) -> nat
    decreases n,
{
    if n == 0 {
        0
    } else {
        (if held {
            0nat
        } else {
            1nat
        }) + admitted_of_burst(true, (n - 1) as nat)
    }
}

/// Law: of any burst of triggers fired while a run is in flight, none is
/// admitted; of any burst that starts with the guard free, exactly the first
/// is admitted and all others are no-ops.
pub proof fn lemma_single_flight(n: nat)
    ensures
        admitted_of_burst(true, n) == 0,
        n > 0 ==> admitted_of_burst(false, n) == 1,
    decreases n,
{
    if n > 0 {
        lemma_single_flight((n - 1) as nat);
    }
}

} // verus!
