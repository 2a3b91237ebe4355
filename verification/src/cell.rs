use vstd::prelude::*;

use crate::fault::Fault;
use crate::timer::{cleared, pending_set, PeriodicTimer};

verus! {

/// The one value shared between two execution contexts: the main context
/// writes the configured timer into the cell once during setup, and the timer
/// interrupt handler borrows it on every invocation to acknowledge the update
/// event. On hardware each access runs under a critical section (interrupts
/// globally masked); here that discipline shows up as exclusive `&mut` access.
pub struct SharedTimerCell {
    slot: Option<PeriodicTimer>,
}

impl View for SharedTimerCell {
    type V = Option<PeriodicTimer>;

    closed spec fn view(&self) -> Option<PeriodicTimer> {
        self.slot
    }
}

impl SharedTimerCell {
    /// The cell before setup: nothing stored.
    pub fn empty() -> (c: Self)
        ensures
            c@ is None,
    {
        SharedTimerCell { slot: None }
    }

    /// Moves ownership of the configured timer into the cell. The
    /// precondition is the write-once discipline: the cell is filled exactly
    /// once, by the bootstrap, and nothing ever empties it again.
    pub fn store(&mut self, timer: PeriodicTimer)
        requires
            old(self)@ is None,
        ensures
            final(self)@ == Some(timer),
    {
        self.slot = Some(timer);
    }

    /// The hardware raising the update event on the stored, running timer.
    pub fn hardware_update(&mut self)
        requires
            old(self)@ matches Some(t) && t.counting,
        ensures
            old(self)@ matches Some(t) && final(self)@ == Some(pending_set(t)),
    {
        match self.slot {
            Some(t) => {
                let mut u = t;
                u.hardware_update();
                self.slot = Some(u);
            },
            None => {},
        }
    }

    /// The timer interrupt handler's whole body: borrow the cell and clear
    /// the update-pending flag. A handler invocation that finds the cell
    /// empty fired before setup stored the timer; that is a detectable,
    /// unrecoverable construction-order fault, and the cell is left as it is.
    pub fn on_timer_interrupt(&mut self) -> (r: Result<(), Fault>)
        ensures
            old(self)@ is None ==> final(self)@ is None && r == Err::<(), Fault>(
                Fault::HandlerBeforeStore,
            ),
            old(self)@ matches Some(t) ==> final(self)@ == Some(cleared(t)) && r == Ok::<
                (),
                Fault,
            >(()),
    {
        match self.slot {
            None => Err(Fault::HandlerBeforeStore),
            Some(t) => {
                let mut u = t;
                u.clear_update_event();
                self.slot = Some(u);
                Ok(())
            },
        }
    }
}

/// One operation applied to the shared cell over the program's life.
#[derive(Clone, Copy)]
pub enum CellOp {
    /// The bootstrap moving the configured timer in.
    Store(PeriodicTimer),
    /// One invocation of the timer interrupt handler.
    TimerInterrupt,
}

/// How one operation transforms the cell's contents. A store against an
/// occupied cell is refused by `store`'s precondition; the model leaves such
/// a request without effect.
pub open spec fn cell_step(c: Option<PeriodicTimer>, op: CellOp) -> Option<PeriodicTimer> {
    match op {
        CellOp::Store(t) => match c {
            None => Some(t),
            Some(u) => Some(u),
        },
        CellOp::TimerInterrupt => match c {
            None => None,
            Some(u) => Some(cleared(u)),
        },
    }
}

/// The cell's contents after a whole run of operations, oldest first.
pub open spec fn cell_run(c: Option<PeriodicTimer>, ops: Seq<CellOp>) -> Option<PeriodicTimer>
    decreases ops.len(),
{
    if ops.len() == 0 {
        c
    } else {
        cell_run(cell_step(c, ops.first()), ops.drop_first())
    }
}

/// Splitting a run: running `a` then `b` is running `a + b`.
pub proof fn lemma_cell_run_compose(c: Option<PeriodicTimer>, a: Seq<CellOp>, b: Seq<CellOp>)
    ensures
        cell_run(c, a + b) == cell_run(cell_run(c, a), b),
    decreases a.len(),
{
    if a.len() == 0 {
        assert(a + b =~= b);
    } else {
        assert((a + b).first() == a.first());
        assert((a + b).drop_first() =~= a.drop_first() + b);
        lemma_cell_run_compose(cell_step(c, a.first()), a.drop_first(), b);
    }
}

/// An occupied cell stays occupied under every further operation: no
/// operation empties the cell again.
pub proof fn lemma_occupancy_monotone(c: Option<PeriodicTimer>, ops: Seq<CellOp>)
    requires
        c is Some,
    ensures
        cell_run(c, ops) is Some,
    decreases ops.len(),
{
    if ops.len() > 0 {
        lemma_occupancy_monotone(cell_step(c, ops.first()), ops.drop_first());
    }
}

/// The cell transitions from empty to occupied at most once along any run:
/// once some prefix of the run leaves it occupied, every longer prefix does
/// too, so the transition is a single rising edge.
pub proof fn lemma_single_transition(
    c: Option<PeriodicTimer>,
    ops: Seq<CellOp>,
    i: int,
    j: int,
)
    requires
        0 <= i <= j <= ops.len(),
        cell_run(c, ops.take(i)) is Some,
    ensures
        cell_run(c, ops.take(j)) is Some,
{
    assert(ops.take(j) =~= ops.take(i) + ops.subrange(i, j));
    lemma_cell_run_compose(c, ops.take(i), ops.subrange(i, j));
    lemma_occupancy_monotone(cell_run(c, ops.take(i)), ops.subrange(i, j));
}

/// The handler alone never fills the cell: a run of nothing but interrupt
/// handler invocations leaves an empty cell empty, and each of them observes
/// the empty cell, which `on_timer_interrupt` reports as a fault.
pub proof fn lemma_interrupts_leave_empty(ops: Seq<CellOp>)
    requires
        forall|i: int| 0 <= i < ops.len() ==> ops[i] is TimerInterrupt,
    ensures
        cell_run(None, ops) is None,
    decreases ops.len(),
{
    if ops.len() > 0 {
        assert(ops[0] is TimerInterrupt);
        assert(cell_step(None, ops.first()) is None);
        assert(forall|i: int|
            0 <= i < ops.drop_first().len() ==> #[trigger] ops.drop_first()[i] == ops[i + 1]);
        lemma_interrupts_leave_empty(ops.drop_first());
    }
}

} // verus!
