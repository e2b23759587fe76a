use crate::board::{all_high, Board};
use crate::handoff::Handoff;
use crate::producer::{send_phase, signal_at, Emission, Producer, ProducerAction, MAX_SLOTS};
use crate::signal::LedState;
use vstd::arithmetic::div_mod::lemma_fundamental_div_mod;
use vstd::prelude::*;

verus! {

/// Half periods of the producer per rotation period.
pub const SLOTS_PER_ROTATION: u64 = 6;

/// The shared index after the first `n` half-period slots: the rotator has
/// ticked at every multiple of its period after time 0.
pub open spec fn index_after_slots(n: nat) -> nat {
    if n == 0 {
        0
    } else {
        ((n - 1) as nat / 6) % 8
    }
}

/// The line levels after the first `n` half-period slots.
pub open spec fn lines_after_slots(n: nat) -> Seq<bool> {
    if n % 2 == 1 {
        all_high()
    } else if n == 0 {
        all_high()
    } else {
        all_high().update(index_after_slots(n) as int, false)
    }
}

/// The three tasks run together on a simulated clock with an idle consumer.
///
/// Time advances in half-period slots. At the start of slot `k` (time
/// `500 * k` ms) the rotator ticks first when its period has elapsed; then
/// the producer publishes its signal, which the output driver takes from the
/// handoff queue at once; then the producer pauses until the next slot.
pub struct Timeline {
    pub slot: u64,
    pub clock_ms: u64,
    pub producer: Producer,
    pub handoff: Handoff,
    pub board: Board,
}

impl Timeline {
    /// The state between slots: the clock, the producer's phase, the board and
    /// the empty queue agree with the number of slots processed.
    pub open spec fn wf(&self) -> bool {
        &&& self.slot <= MAX_SLOTS
        &&& self.clock_ms == 500 * self.slot
        &&& self.producer.phase == send_phase(self.slot as nat)
        &&& self.handoff@.len() == 0
        &&& self.board.wf()
        &&& self.board.index == index_after_slots(self.slot as nat)
        &&& self.board.lines@ == lines_after_slots(self.slot as nat)
    }

    /// Time 0, before any task has run.
    pub fn new() -> (r: Timeline)
        ensures
            r.wf(),
            r.slot == 0,
    {
        let r = Timeline {
            slot: 0,
            clock_ms: 0,
            producer: Producer::new(),
            handoff: Handoff::new(),
            board: Board::new(),
        };
        r
    }

    /// Simulated time in milliseconds.
    pub fn now_ms(&self) -> (r: u64)
        ensures
            r == self.clock_ms,
    {
        self.clock_ms
    }

    /// Runs one slot and returns the signal published in it.
    pub fn advance(&mut self) -> (e: Emission)
        requires
            old(self).wf(),
            old(self).slot < MAX_SLOTS,
        ensures
            final(self).wf(),
            final(self).slot == old(self).slot + 1,
            e.at_ms == 500 * old(self).slot,
            e.state == signal_at(old(self).slot as nat),
    {
        let n = self.slot;
        proof {
            lemma_slot_ticks(n as nat);
        }
        if n > 0 && n % SLOTS_PER_ROTATION == 0 {
            self.board.rotate();
        }
        let at_ms = self.clock_ms;
        // Every slot starts in one of the producer's send phases.
        let state = match self.producer.action() {
            ProducerAction::Send(s) => s,
            ProducerAction::Wait(_) => {
                proof {
                    assert(false);
                }
                LedState::On
            },
        };
        self.handoff.try_send(state);
        self.producer.advance();
        match self.handoff.try_receive() {
            Some(s) => self.board.receive(s),
            None => {},
        }
        match self.producer.action() {
            ProducerAction::Wait(d) => {
                self.clock_ms = self.clock_ms + d;
            },
            ProducerAction::Send(_) => {},
        }
        self.producer.advance();
        self.slot = n + 1;
        proof {
            assert(self.board.lines@ =~= lines_after_slots(self.slot as nat));
        }
        Emission { at_ms, state }
    }
}

/// How the number of rotator ticks grows from slot `n` to slot `n + 1`.
proof fn lemma_slot_ticks(n: nat)
    ensures
        n > 0 && n % 6 == 0 ==> index_after_slots(n + 1) == (index_after_slots(n) + 1) % 8,
        !(n > 0 && n % 6 == 0) ==> index_after_slots(n + 1) == index_after_slots(n),
{
    if n > 0 {
        lemma_fundamental_div_mod(n as int, 6);
        lemma_fundamental_div_mod((n - 1) as int, 6);
    }
}

} // verus!
