use vstd::prelude::*;

use crate::cell::SharedTimerCell;
use crate::diag::{received_entry, sent_entry, LogEntry};
use crate::fault::Fault;
use crate::pin::PinLevel;
use crate::probe::{cs_pulse_sequence, cs_pulse_view, high_byte, low_byte, probe_request};
use crate::sequencer::{low_index_of, sequencer_wf, step_view, OutputSequencer, SequencerView};
use crate::timer::{PeriodicTimer, TIMER_PERIOD_MS};

verus! {

/// Where the firmware stands in its single-entry life.
#[derive(Clone, Copy, Debug, PartialEq, Eq, Structural)]
pub enum Phase {
    /// Before the bootstrap ran.
    PowerOn,
    /// Setup done, the one-shot serial probe not performed yet.
    ProbePending,
    /// Steady state: the idle loop advancing the chase once per pass.
    Running,
}

/// The whole firmware's state: the lifecycle phase, the peripheral ownership
/// token, the interrupt controller's mask for the timer line, the shared
/// timer cell, the output sequencer, the chip-select trace and the
/// diagnostic log. The functions below are the decisions the firmware takes;
/// a thin driver performs the hardware actions and feeds outcomes back in.
pub struct Firmware {
    phase: Phase,
    periph_taken: bool,
    nvic_timer_unmasked: bool,
    cell: SharedTimerCell,
    sequencer: OutputSequencer,
    cs_trace: Vec<PinLevel>,
    log: Vec<LogEntry>,
    ticks: u64,
}

impl Firmware {
    pub closed spec fn phase_view(&self) -> Phase {
        self.phase
    }

    /// Whether the peripheral ownership token has been claimed.
    pub closed spec fn peripherals_taken(&self) -> bool {
        self.periph_taken
    }

    /// Whether the timer's line is unmasked at the interrupt controller.
    pub closed spec fn timer_irq_unmasked(&self) -> bool {
        self.nvic_timer_unmasked
    }

    pub closed spec fn cell_view(&self) -> Option<PeriodicTimer> {
        self.cell@
    }

    pub closed spec fn sequencer_view(&self) -> SequencerView {
        self.sequencer@
    }

    pub closed spec fn drives_view(&self) -> Seq<(u8, PinLevel)> {
        self.sequencer.drives_view()
    }

    pub closed spec fn cs_view(&self) -> Seq<PinLevel> {
        self.cs_trace@
    }

    pub closed spec fn log_view(&self) -> Seq<LogEntry> {
        self.log@
    }

    pub closed spec fn ticks_view(&self) -> u64 {
        self.ticks
    }

    /// What every phase guarantees: at power-on nothing has happened yet;
    /// from setup onwards the token is held, the timer line is unmasked and
    /// the cell holds the running, interrupt-enabled timer.
    pub open spec fn wf(&self) -> bool {
        &&& sequencer_wf(self.sequencer_view())
        &&& match self.phase_view() {
            Phase::PowerOn => {
                &&& self.cell_view() is None
                &&& !self.peripherals_taken()
                &&& !self.timer_irq_unmasked()
                &&& self.log_view().len() == 0
                &&& self.cs_view().len() == 0
                &&& self.drives_view().len() == 0
                &&& self.ticks_view() == 0
                &&& self.sequencer_view().pos == 0
            },
            Phase::ProbePending | Phase::Running => {
                &&& self.cell_view() matches Some(t) && t.counting && t.update_irq_enabled
                    && t.period_ms == TIMER_PERIOD_MS
                &&& self.peripherals_taken()
                &&& self.timer_irq_unmasked()
            },
        }
    }

    /// The image as it stands at reset, before the entry point runs.
    pub fn power_on() -> (fw: Self)
        ensures
            fw.wf(),
            fw.phase_view() == Phase::PowerOn,
            fw.log_view() == Seq::<LogEntry>::empty(),
            fw.cs_view() == Seq::<PinLevel>::empty(),
            fw.drives_view() == Seq::<(u8, PinLevel)>::empty(),
            fw.cell_view() is None,
            fw.ticks_view() == 0,
            fw.sequencer_view().pos == 0,
            forall|i: int| 0 <= i < 8 ==> fw.sequencer_view().lines[i] is None,
    {
        Firmware {
            phase: Phase::PowerOn,
            periph_taken: false,
            nvic_timer_unmasked: false,
            cell: SharedTimerCell::empty(),
            sequencer: OutputSequencer::power_on(),
            cs_trace: Vec::new(),
            log: Vec::new(),
            ticks: 0,
        }
    }

    /// The bootstrap, run exactly once at entry: write the startup marker,
    /// claim the peripheral ownership token, configure clocks and the timer,
    /// unmask its interrupt, arm it, move it into the shared cell, and drive
    /// the chip-select sync pulse. Claiming the token a second time is a
    /// setup failure: the marker is still written, nothing else changes.
    pub fn start(&mut self) -> (r: Result<(), Fault>)
        requires
            old(self).wf(),
        ensures
            final(self).wf(),
            final(self).log_view() == old(self).log_view() + seq![LogEntry::Sanity],
            final(self).sequencer_view() == old(self).sequencer_view(),
            final(self).drives_view() == old(self).drives_view(),
            final(self).ticks_view() == old(self).ticks_view(),
            old(self).phase_view() != Phase::PowerOn ==> {
                &&& r == Err::<(), Fault>(Fault::PeripheralsAlreadyTaken)
                &&& final(self).phase_view() == old(self).phase_view()
                &&& final(self).cell_view() == old(self).cell_view()
                &&& final(self).cs_view() == old(self).cs_view()
                &&& final(self).timer_irq_unmasked() == old(self).timer_irq_unmasked()
                &&& final(self).peripherals_taken() == old(self).peripherals_taken()
            },
            old(self).phase_view() == Phase::PowerOn ==> {
                &&& r == Ok::<(), Fault>(())
                &&& final(self).phase_view() == Phase::ProbePending
                &&& final(self).cell_view() matches Some(t) && t.period_ms == TIMER_PERIOD_MS
                    && t.update_irq_enabled && t.counting && !t.update_pending
                &&& final(self).timer_irq_unmasked()
                &&& final(self).peripherals_taken()
                &&& final(self).cs_view() == old(self).cs_view() + cs_pulse_view()
            },
    {
        self.log.push(LogEntry::Sanity);
        if self.periph_taken {
            return Err(Fault::PeripheralsAlreadyTaken);
        }
        self.periph_taken = true;
        let mut timer = PeriodicTimer::new(TIMER_PERIOD_MS);
        self.nvic_timer_unmasked = true;
        timer.enable_update_interrupt();
        timer.start();
        self.cell.store(timer);
        let mut pulse = cs_pulse_sequence();
        self.cs_trace.append(&mut pulse);
        self.phase = Phase::ProbePending;
        Ok(())
    }

    /// The one-shot serial probe. The request word and its byte split are
    /// logged before the transfer; the transfer itself is the bus's work, so
    /// its outcome comes in as an argument: the response word, or `None` for
    /// a bus fault, which is fatal and leaves the response unlogged.
    pub fn record_probe(&mut self, response: Option<u16>) -> (r: Result<(), Fault>)
        requires
            old(self).wf(),
            old(self).phase_view() == Phase::ProbePending,
        ensures
            final(self).wf(),
            response matches Some(w) ==> {
                &&& r == Ok::<(), Fault>(())
                &&& final(self).log_view() == old(self).log_view() + seq![
                    sent_entry(),
                    received_entry(w),
                ]
                &&& final(self).phase_view() == Phase::Running
            },
            response is None ==> {
                &&& r == Err::<(), Fault>(Fault::BusFault)
                &&& final(self).log_view() == old(self).log_view() + seq![sent_entry()]
                &&& final(self).phase_view() == Phase::ProbePending
            },
            final(self).cell_view() == old(self).cell_view(),
            final(self).cs_view() == old(self).cs_view(),
            final(self).sequencer_view() == old(self).sequencer_view(),
            final(self).drives_view() == old(self).drives_view(),
            final(self).ticks_view() == old(self).ticks_view(),
            final(self).timer_irq_unmasked() == old(self).timer_irq_unmasked(),
            final(self).peripherals_taken() == old(self).peripherals_taken(),
    {
        let sent_word = probe_request();
        let sent_high = high_byte(sent_word);
        let sent_low = low_byte(sent_word);
        self.log.push(LogEntry::ProbeSent { word: sent_word, high: sent_high, low: sent_low });
        match response {
            None => Err(Fault::BusFault),
            Some(w) => {
                let recv_high = high_byte(w);
                let recv_low = low_byte(w);
                self.log.push(LogEntry::ProbeReceived { word: w, high: recv_high, low: recv_low });
                self.phase = Phase::Running;
                Ok(())
            },
        }
    }

    /// One pass of the idle loop, woken by one timer tick: the hardware
    /// raises the update event, the handler acknowledges it on the shared
    /// cell, and the loop advances the chase by one step. The log is not
    /// touched in steady state.
    pub fn tick(&mut self)
        requires
            old(self).wf(),
            old(self).phase_view() == Phase::Running,
            old(self).ticks_view() < u64::MAX,
        ensures
            final(self).wf(),
            final(self).phase_view() == Phase::Running,
            final(self).sequencer_view() == step_view(old(self).sequencer_view()),
            final(self).ticks_view() == old(self).ticks_view() + 1,
            final(self).log_view() == old(self).log_view(),
            final(self).cs_view() == old(self).cs_view(),
            final(self).cell_view() matches Some(t) && !t.update_pending && t.counting
                && t.update_irq_enabled && t.period_ms == TIMER_PERIOD_MS,
            final(self).drives_view() == old(self).drives_view() + seq![
                (old(self).sequencer_view().pos as u8, PinLevel::High),
                (low_index_of(old(self).sequencer_view().pos) as u8, PinLevel::Low),
            ],
    {
        self.cell.hardware_update();
        let _ack = self.cell.on_timer_interrupt();
        self.sequencer.step();
        self.ticks = self.ticks + 1;
    }

    /// The current lifecycle phase.
    pub fn current_phase(&self) -> (p: Phase)
        ensures
            p == self.phase_view(),
    {
        self.phase
    }

    /// The diagnostic log so far, oldest record first.
    pub fn log(&self) -> (l: &Vec<LogEntry>)
        ensures
            l@ == self.log_view(),
    {
        &self.log
    }

    /// The chip-select levels driven so far, oldest first.
    pub fn chip_select_trace(&self) -> (t: &Vec<PinLevel>)
        ensures
            t@ == self.cs_view(),
    {
        &self.cs_trace
    }

    /// The sequencer's current rotation position.
    pub fn position(&self) -> (p: u8)
        ensures
            p as int == self.sequencer_view().pos,
    {
        self.sequencer.position()
    }

    /// What output line `i` is currently driven to.
    pub fn line(&self, i: usize) -> (l: Option<PinLevel>)
        requires
            i < 8,
            self.wf(),
        ensures
            l == self.sequencer_view().lines[i as int],
    {
        self.sequencer.line(i)
    }

    /// Every drive command the sequencer issued so far, oldest first.
    pub fn drive_history(&self) -> (d: &Vec<(u8, PinLevel)>)
        ensures
            d@ == self.drives_view(),
    {
        self.sequencer.drive_history()
    }

    /// How many idle-loop passes have run.
    pub fn tick_count(&self) -> (n: u64)
        ensures
            n == self.ticks_view(),
    {
        self.ticks
    }
}

} // verus!
