use vstd::prelude::*;

verus! {

/// The period programmed into the countdown timer, in milliseconds.
pub const TIMER_PERIOD_MS: u32 = 75;

/// Model of the periodic countdown timer: the programmed period, whether the
/// update event generates an interrupt, whether the counter is running, and
/// whether an update event is pending.
#[derive(Clone, Copy, Debug, PartialEq, Eq, Structural)]
pub struct PeriodicTimer {
    pub period_ms: u32,
    pub update_irq_enabled: bool,
    pub counting: bool,
    pub update_pending: bool,
}

/// The timer with its update-pending flag acknowledged.
pub open spec fn cleared(t: PeriodicTimer) -> PeriodicTimer {
    PeriodicTimer { update_pending: false, ..t }
}

/// The timer with its update event raised by the hardware.
pub open spec fn pending_set(t: PeriodicTimer) -> PeriodicTimer {
    PeriodicTimer { update_pending: true, ..t }
}

impl PeriodicTimer {
    /// Programs the reload value so an update event is raised every
    /// `period_ms`; the counter is not started and no interrupt is generated.
    pub fn new(period_ms: u32) -> (t: Self)
        ensures
            t.period_ms == period_ms,
            !t.update_irq_enabled,
            !t.counting,
            !t.update_pending,
    {
        PeriodicTimer { period_ms, update_irq_enabled: false, counting: false, update_pending: false }
    }

    /// Enables generation of an interrupt on the update event.
    pub fn enable_update_interrupt(&mut self)
        ensures
            final(self).update_irq_enabled,
            final(self).period_ms == old(self).period_ms,
            final(self).counting == old(self).counting,
            final(self).update_pending == old(self).update_pending,
    {
        self.update_irq_enabled = true;
    }

    /// Starts the counter.
    pub fn start(&mut self)
        ensures
            final(self).counting,
            final(self).period_ms == old(self).period_ms,
            final(self).update_irq_enabled == old(self).update_irq_enabled,
            final(self).update_pending == old(self).update_pending,
    {
        self.counting = true;
    }

    /// Acknowledges a pending update event so the timer keeps firing.
    pub fn clear_update_event(&mut self)
        ensures
            *final(self) == cleared(*old(self)),
    {
        self.update_pending = false;
    }

    /// The hardware raising the update event once the reload condition is
    /// reached; only a running counter reaches it.
    pub fn hardware_update(&mut self)
        requires
            old(self).counting,
        ensures
            *final(self) == pending_set(*old(self)),
    {
        self.update_pending = true;
    }
}

} // verus!
