use vstd::prelude::*;

verus! {

/// The fatal condition classes. Every fallible step of this firmware is
/// resolved at its call site by halting, so a fault is reported once and the
/// processor then spins; no variant is ever recovered from.
#[derive(Clone, Copy, Debug, PartialEq, Eq, Structural)]
pub enum Fault {
    /// Setup failure: the peripheral ownership token was already claimed,
    /// so no valid hardware baseline can be established.
    PeripheralsAlreadyTaken,
    /// Transfer failure: the one-shot serial probe reported a bus fault.
    BusFault,
    /// Invariant violation: the timer interrupt handler ran against an
    /// empty shared cell, which denotes a construction-order bug.
    HandlerBeforeStore,
}

} // verus!
