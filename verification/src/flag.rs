//! The shared event latch and the interrupt handler's dispatch decision
//! (interrupt-driven variant).

use vstd::prelude::*;

verus! {

/// A boolean latch carrying "motion occurred" from the interrupt context to
/// the main sampling loop.
///
/// The caller is responsible for serializing access: every call on one flag
/// must happen inside the single mutual-exclusion scope shared by the
/// interrupt handler and the loop. The contracts here fix what each
/// operation does to the latch within such a scope.
pub struct SharedEventFlag {
    pending: bool,
}

impl SharedEventFlag {
    /// True when a motion event has been latched and not yet consumed.
    pub closed spec fn is_pending(self) -> bool {
        self.pending
    }

    /// A fresh flag, with no event latched.
    pub fn new() -> (flag: SharedEventFlag)
        ensures
            !flag.is_pending(),
    {
        SharedEventFlag { pending: false }
    }

    /// Latch a motion event. Firings coalesce: a second firing before the
    /// first is consumed leaves the same pending state.
    pub fn set(&mut self)
        ensures
            final(self).is_pending(),
    {
        self.pending = true;
    }

    /// Consume the latch in one step: report whether an event was pending
    /// and clear it. Reading and clearing are never split across two
    /// critical sections, so an event can be observed at most once.
    pub fn take_if_pending(&mut self) -> (was_pending: bool)
        ensures
            was_pending == old(self).is_pending(),
            !final(self).is_pending(),
    {
        let was_pending: bool = self.pending;
        self.pending = false;
        was_pending
    }
}

/// The decision the interrupt handler makes when a GPIO interrupt fires.
///
/// GPIO interrupts are shared across pins, so the handler is entered for
/// edges on unrelated pins too; `motion_is_source` is the answer to the
/// hardware query "is the motion pin's interrupt pending". Only a motion
/// interrupt latches the event, and only then must the caller clear the
/// motion pin's interrupt-pending bit — still inside the same
/// mutual-exclusion scope — which the return value signals. An interrupt
/// for a foreign pin leaves the flag exactly as it was.
pub fn on_gpio_interrupt(flag: &mut SharedEventFlag, motion_is_source: bool) -> (clear_motion_interrupt: bool)
    ensures
        clear_motion_interrupt == motion_is_source,
        motion_is_source ==> final(flag).is_pending(),
        !motion_is_source ==> *final(flag) == *old(flag),
{
    if motion_is_source {
        flag.set();
        true
    } else {
        false
    }
}

} // verus!
