use vstd::prelude::*;

use vstd::pervasive::VecAdditionalExecFns;

use crate::pin::PinLevel;

verus! {

/// Number of discrete output lines the sequencer owns.
pub const LINE_COUNT: usize = 8;

/// Ghost state of the sequencer: the rotation position and what each of the
/// eight lines is currently driven to. `None` is the unspecified power-on
/// state of a line that no step has touched yet.
#[verifier::ext_equal]
pub struct SequencerView {
    pub pos: int,
    pub lines: Seq<Option<PinLevel>>,
}

pub open spec fn sequencer_wf(s: SequencerView) -> bool {
    &&& 0 <= s.pos < 8
    &&& s.lines.len() == 8
}

/// The line driven low by a step at position `p`: the counterpart four
/// positions away from the line driven high.
pub open spec fn low_index_of(p: int) -> int {
    (p + 4) % 8
}

/// One transition: drive line `pos` high and its counterpart low, leave the
/// other six lines as they were, then advance the position with wraparound.
pub open spec fn step_view(s: SequencerView) -> SequencerView {
    SequencerView {
        pos: (s.pos + 1) % 8,
        lines: s.lines.update(s.pos, Some(PinLevel::High)).update(
            low_index_of(s.pos),
            Some(PinLevel::Low),
        ),
    }
}

/// `n` transitions in a row.
pub open spec fn steps_view(s: SequencerView, n: nat) -> SequencerView
    decreases n,
{
    if n == 0 {
        s
    } else {
        step_view(steps_view(s, (n - 1) as nat))
    }
}

/// The line states one full revolution settles into, given the position the
/// revolution started from: the four lines most recently driven high are
/// high, the other four low.
pub open spec fn cycle_lines(p: int) -> Seq<Option<PinLevel>> {
    Seq::new(
        8,
        |i: int|
            if (i - p + 8) % 8 >= 4 {
                Some(PinLevel::High)
            } else {
                Some(PinLevel::Low)
            },
    )
}

/// The eight output lines and the rotating position, together with the
/// history of drive commands issued to the lines.
pub struct OutputSequencer {
    pos: u8,
    lines: Vec<Option<PinLevel>>,
    drives: Vec<(u8, PinLevel)>,
}

impl View for OutputSequencer {
    type V = SequencerView;

    closed spec fn view(&self) -> SequencerView {
        SequencerView { pos: self.pos as int, lines: self.lines@ }
    }
}

impl OutputSequencer {
    /// Every drive command issued so far, oldest first: which line, and to
    /// which level it was set.
    pub closed spec fn drives_view(&self) -> Seq<(u8, PinLevel)> {
        self.drives@
    }

    pub open spec fn wf(&self) -> bool {
        sequencer_wf(self@)
    }

    /// The sequencer as the hardware leaves it at power-on: position zero,
    /// every line in its unspecified reset state, nothing driven yet.
    pub fn power_on() -> (s: Self)
        ensures
            s.wf(),
            s@.pos == 0,
            s@.lines == Seq::new(8, |i: int| None::<PinLevel>),
            s.drives_view() == Seq::<(u8, PinLevel)>::empty(),
    {
        let mut lines: Vec<Option<PinLevel>> = Vec::new();
        let mut i: usize = 0;
        while i < 8
            invariant
                i <= 8,
                lines@.len() == i as int,
                forall|k: int| 0 <= k < i as int ==> lines@[k] is None,
            decreases 8 - i,
        {
            lines.push(None);
            i = i + 1;
        }
        let s = OutputSequencer { pos: 0, lines, drives: Vec::new() };
        proof {
            assert(s@.lines =~= Seq::new(8, |i: int| None::<PinLevel>));
        }
        s
    }

    /// The current rotation position, in `0..8`.
    pub fn position(&self) -> (p: u8)
        ensures
            p as int == self@.pos,
    {
        self.pos
    }

    /// What line `i` is currently driven to.
    pub fn line(&self, i: usize) -> (l: Option<PinLevel>)
        requires
            i < 8,
            self.wf(),
        ensures
            l == self@.lines[i as int],
    {
        self.lines[i]
    }

    /// The full history of drive commands, oldest first.
    pub fn drive_history(&self) -> (d: &Vec<(u8, PinLevel)>)
        ensures
            d@ == self.drives_view(),
    {
        &self.drives
    }

    /// One step of the chase: immediately afterwards the line at the old
    /// position is high and its counterpart four positions away is low; no
    /// other line moved, and the position advanced by one with wraparound.
    pub fn step(&mut self)
        requires
            old(self).wf(),
        ensures
            final(self).wf(),
            final(self)@ == step_view(old(self)@),
            final(self)@.pos == (old(self)@.pos + 1) % 8,
            final(self)@.lines[old(self)@.pos] == Some(PinLevel::High),
            final(self)@.lines[low_index_of(old(self)@.pos)] == Some(PinLevel::Low),
            forall|i: int|
                0 <= i < 8 && i != old(self)@.pos && i != low_index_of(old(self)@.pos)
                    ==> final(self)@.lines[i] == old(self)@.lines[i],
            final(self).drives_view() == old(self).drives_view() + seq![
                (old(self)@.pos as u8, PinLevel::High),
                (low_index_of(old(self)@.pos) as u8, PinLevel::Low),
            ],
    {
        let p: usize = self.pos as usize;
        let q: usize = (p + 4) % 8;
        self.lines.set(p, Some(PinLevel::High));
        self.drives.push((p as u8, PinLevel::High));
        self.lines.set(q, Some(PinLevel::Low));
        self.drives.push((q as u8, PinLevel::Low));
        self.pos = if self.pos == 7 {
            0
        } else {
            self.pos + 1
        };
        proof {
            assert(self@ =~= step_view(old(self)@));
            assert(self.drives_view() =~= old(self).drives_view() + seq![
                (old(self)@.pos as u8, PinLevel::High),
                (low_index_of(old(self)@.pos) as u8, PinLevel::Low),
            ]);
        }
    }
}

/// After one full revolution the position is back where it started and the
/// lines no longer depend on how they powered on: each line has been written
/// during the revolution, so they stand exactly as `cycle_lines` says.
#[verifier::rlimit(100)]
pub proof fn lemma_full_cycle(s: SequencerView)
    requires
        sequencer_wf(s),
    ensures
        steps_view(s, 8).pos == s.pos,
        steps_view(s, 8).lines =~= cycle_lines(s.pos),
{
    if s.pos == 0 {
        assert(steps_view(s, 8).pos == s.pos && steps_view(s, 8).lines =~= cycle_lines(s.pos)) by {
            reveal_with_fuel(steps_view, 9);
        }
    } else if s.pos == 1 {
        assert(steps_view(s, 8).pos == s.pos && steps_view(s, 8).lines =~= cycle_lines(s.pos)) by {
            reveal_with_fuel(steps_view, 9);
        }
    } else if s.pos == 2 {
        assert(steps_view(s, 8).pos == s.pos && steps_view(s, 8).lines =~= cycle_lines(s.pos)) by {
            reveal_with_fuel(steps_view, 9);
        }
    } else if s.pos == 3 {
        assert(steps_view(s, 8).pos == s.pos && steps_view(s, 8).lines =~= cycle_lines(s.pos)) by {
            reveal_with_fuel(steps_view, 9);
        }
    } else if s.pos == 4 {
        assert(steps_view(s, 8).pos == s.pos && steps_view(s, 8).lines =~= cycle_lines(s.pos)) by {
            reveal_with_fuel(steps_view, 9);
        }
    } else if s.pos == 5 {
        assert(steps_view(s, 8).pos == s.pos && steps_view(s, 8).lines =~= cycle_lines(s.pos)) by {
            reveal_with_fuel(steps_view, 9);
        }
    } else if s.pos == 6 {
        assert(steps_view(s, 8).pos == s.pos && steps_view(s, 8).lines =~= cycle_lines(s.pos)) by {
            reveal_with_fuel(steps_view, 9);
        }
    } else {
        assert(steps_view(s, 8).pos == s.pos && steps_view(s, 8).lines =~= cycle_lines(s.pos)) by {
            reveal_with_fuel(steps_view, 9);
        }
    }
}

/// Splitting a walk: `m` steps and then `n` more are `m + n` steps.
pub proof fn lemma_steps_compose(s: SequencerView, m: nat, n: nat)
    ensures
        steps_view(s, m + n) == steps_view(steps_view(s, m), n),
    decreases n,
{
    if n != 0 {
        lemma_steps_compose(s, m, (n - 1) as nat);
    }
}

/// The chase has cycle length eight: stepping eight more times from the end
/// of a full revolution reproduces the position and the intended line states
/// exactly.
pub proof fn lemma_cycle_period(s: SequencerView)
    requires
        sequencer_wf(s),
    ensures
        steps_view(s, 16) =~= steps_view(s, 8),
{
    lemma_steps_compose(s, 8, 8);
    lemma_full_cycle(s);
    let t = steps_view(s, 8);
    assert(sequencer_wf(t));
    lemma_full_cycle(t);
    assert(steps_view(t, 8).lines =~= t.lines);
}

/// The intended line states after a full revolution do not depend on the
/// lines' initial (power-on) states, only on the starting position.
pub proof fn lemma_cycle_independent(s: SequencerView, t: SequencerView)
    requires
        sequencer_wf(s),
        sequencer_wf(t),
        s.pos == t.pos,
    ensures
        steps_view(s, 8).lines =~= steps_view(t, 8).lines,
{
    lemma_full_cycle(s);
    lemma_full_cycle(t);
}

} // verus!
