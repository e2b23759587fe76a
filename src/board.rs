use crate::rotator::{next_index, LINE_COUNT};
use crate::signal::LedState;
use vstd::prelude::*;

verus! {

/// What the output driver does to the lines on receiving a signal.
#[derive(Clone, Copy, Debug, PartialEq, Eq, Structural)]
pub enum DriverAction {
    /// Drive all eight lines high.
    AllHigh,
    /// Drive the one given line low and leave the others as they are.
    Low(u32),
}

/// Levels of all eight lines when every one of them is high.
pub open spec fn all_high() -> Seq<bool> {
    Seq::new(8, |_i: int| true)
}

/// The driver's decision for signal `state` when the shared index reads `index`.
pub open spec fn react_spec(state: LedState, index: u32) -> DriverAction {
    match state {
        LedState::On => DriverAction::AllHigh,
        LedState::Off => DriverAction::Low(index),
    }
}

/// Line levels after `action` is performed on `lines`.
pub open spec fn apply_spec(lines: Seq<bool>, action: DriverAction) -> Seq<bool> {
    match action {
        DriverAction::AllHigh => all_high(),
        DriverAction::Low(i) => lines.update(i as int, false),
    }
}

/// Decides what the output driver does with a received signal.
pub fn react(state: LedState, index: u32) -> (r: DriverAction)
    requires
        state == LedState::Off ==> index < LINE_COUNT,
    ensures
        r == react_spec(state, index),
{
    match state {
        LedState::On => DriverAction::AllHigh,
        LedState::Off => DriverAction::Low(index),
    }
}

/// Levels of the eight output lines; `true` is high (lit).
#[derive(Clone, Copy, Debug)]
pub struct Lines {
    pub levels: [bool; 8],
}

impl View for Lines {
    type V = Seq<bool>;

    open spec fn view(&self) -> Seq<bool> {
        self.levels@
    }
}

impl Lines {
    /// All eight lines high, as they are driven at startup.
    pub fn all_high() -> (r: Lines)
        ensures
            r@ == all_high(),
    {
        let r = Lines { levels: [true; 8] };
        assert(r@ =~= all_high());
        r
    }

    /// Whether line `line` is high.
    pub fn is_high(&self, line: u32) -> (r: bool)
        requires
            line < LINE_COUNT,
        ensures
            r == self@[line as int],
    {
        self.levels[line as usize]
    }

    /// Performs `action` on the lines.
    pub fn apply(&mut self, action: DriverAction)
        requires
            action matches DriverAction::Low(i) ==> i < LINE_COUNT,
        ensures
            final(self)@ == apply_spec(old(self)@, action),
    {
        match action {
            DriverAction::AllHigh => {
                *self = Lines::all_high();
            },
            DriverAction::Low(i) => {
                self.levels[i as usize] = false;
                assert(final(self)@ =~= old(self)@.update(i as int, false));
            },
        }
    }
}

/// State seen by the second execution context: the shared line index and
/// the output lines it drives.
#[derive(Clone, Copy, Debug)]
pub struct Board {
    pub index: u32,
    pub lines: Lines,
}

impl Board {
    /// The shared index names one of the eight lines.
    pub open spec fn wf(&self) -> bool {
        self.index < LINE_COUNT
    }

    /// The state at startup: index 0, all lines high.
    pub fn new() -> (r: Board)
        ensures
            r.wf(),
            r.index == 0,
            r.lines@ == all_high(),
    {
        Board { index: 0, lines: Lines::all_high() }
    }

    /// One rotator tick: the index advances modulo 8 and no line changes.
    pub fn rotate(&mut self)
        requires
            old(self).wf(),
        ensures
            final(self).wf(),
            final(self).index == (old(self).index + 1) % 8,
            final(self).lines == old(self).lines,
    {
        self.index = next_index(self.index);
    }

    /// The output driver receives `state` and acts on it with the current index.
    pub fn receive(&mut self, state: LedState)
        requires
            old(self).wf(),
        ensures
            final(self).wf(),
            final(self).index == old(self).index,
            final(self).lines@ == apply_spec(old(self).lines@, react_spec(state, old(self).index)),
    {
        let action = react(state, self.index);
        self.lines.apply(action);
    }
}

/// A second `On` with no `Off` in between changes nothing: after either one,
/// all lines are high, whatever the index read each time.
pub proof fn lemma_on_idempotent(lines: Seq<bool>, first: u32, second: u32)
    requires
        lines.len() == 8,
    ensures
        apply_spec(apply_spec(lines, react_spec(LedState::On, first)), react_spec(LedState::On, second))
            == apply_spec(lines, react_spec(LedState::On, first)),
        apply_spec(lines, react_spec(LedState::On, first)) == all_high(),
{
}

/// An `Off` drives exactly the indexed line low and leaves the other seven
/// as they were, including lines that an earlier index had selected.
pub proof fn lemma_off_touches_one_line(lines: Seq<bool>, index: u32, line: int)
    requires
        lines.len() == 8,
        index < 8,
        0 <= line < 8,
    ensures
        apply_spec(lines, react_spec(LedState::Off, index)).len() == 8,
        apply_spec(lines, react_spec(LedState::Off, index))[line] == if line == index {
            false
        } else {
            lines[line]
        },
{
}

} // verus!
