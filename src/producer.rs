use crate::signal::LedState;
use vstd::prelude::*;

verus! {

/// Pause of the producer after each published signal.
pub const HALF_PERIOD_MS: u64 = 500;

/// Largest number of half periods whose simulated time in milliseconds
/// still fits in a `u64`.
pub const MAX_SLOTS: u64 = 36893488147419103;

/// What the producer does next.
#[derive(Clone, Copy, Debug, PartialEq, Eq, Structural)]
pub enum ProducerAction {
    /// Publish a signal to the handoff queue, suspending while it is full.
    Send(LedState),
    /// Sleep for the given number of milliseconds.
    Wait(u64),
}

/// Where the producer stands in its endless four-step cycle.
#[derive(Clone, Copy, Debug, PartialEq, Eq, Structural)]
pub enum Phase {
    SendOn,
    PauseAfterOn,
    SendOff,
    PauseAfterOff,
}

/// The action taken in `phase`.
pub open spec fn action_of(phase: Phase) -> ProducerAction {
    match phase {
        Phase::SendOn => ProducerAction::Send(LedState::On),
        Phase::PauseAfterOn => ProducerAction::Wait(HALF_PERIOD_MS),
        Phase::SendOff => ProducerAction::Send(LedState::Off),
        Phase::PauseAfterOff => ProducerAction::Wait(HALF_PERIOD_MS),
    }
}

/// The phase that follows `phase` once its action is complete.
pub open spec fn next_phase(phase: Phase) -> Phase {
    match phase {
        Phase::SendOn => Phase::PauseAfterOn,
        Phase::PauseAfterOn => Phase::SendOff,
        Phase::SendOff => Phase::PauseAfterOff,
        Phase::PauseAfterOff => Phase::SendOn,
    }
}

/// The signal published `k`-th (from 0) since the producer started.
pub open spec fn signal_at(k: nat) -> LedState {
    if k % 2 == 0 {
        LedState::On
    } else {
        LedState::Off
    }
}

/// The phase in which the producer publishes its `k`-th signal.
pub open spec fn send_phase(k: nat) -> Phase {
    if k % 2 == 0 {
        Phase::SendOn
    } else {
        Phase::SendOff
    }
}

/// The decision state of the signal producer.
#[derive(Clone, Copy, Debug, PartialEq, Eq, Structural)]
pub struct Producer {
    pub phase: Phase,
}

impl Producer {
    /// A producer about to publish its first `On`.
    pub fn new() -> (r: Producer)
        ensures
            r.phase == Phase::SendOn,
    {
        Producer { phase: Phase::SendOn }
    }

    /// The action to perform now.
    pub fn action(&self) -> (r: ProducerAction)
        ensures
            r == action_of(self.phase),
    {
        match self.phase {
            Phase::SendOn => ProducerAction::Send(LedState::On),
            Phase::PauseAfterOn => ProducerAction::Wait(HALF_PERIOD_MS),
            Phase::SendOff => ProducerAction::Send(LedState::Off),
            Phase::PauseAfterOff => ProducerAction::Wait(HALF_PERIOD_MS),
        }
    }

    /// Moves on once the current action has been performed.
    pub fn advance(&mut self)
        ensures
            final(self).phase == next_phase(old(self).phase),
    {
        self.phase = match self.phase {
            Phase::SendOn => Phase::PauseAfterOn,
            Phase::PauseAfterOn => Phase::SendOff,
            Phase::SendOff => Phase::PauseAfterOff,
            Phase::PauseAfterOff => Phase::SendOn,
        };
    }
}

/// Going from one send to the next takes exactly one pause of half a period,
/// and the published signals alternate, starting with `On`.
pub proof fn lemma_send_to_send(k: nat)
    ensures
        action_of(send_phase(k)) == ProducerAction::Send(signal_at(k)),
        action_of(next_phase(send_phase(k))) == ProducerAction::Wait(HALF_PERIOD_MS),
        next_phase(next_phase(send_phase(k))) == send_phase(k + 1),
        send_phase(0) == Phase::SendOn,
{
}

/// A signal published by the producer, with the simulated time of publication.
#[derive(Clone, Copy, Debug, PartialEq, Eq, Structural)]
pub struct Emission {
    pub at_ms: u64,
    pub state: LedState,
}

/// The first `count` signals of a producer whose consumer is always idle, so
/// that no send suspends: the `k`-th is published at `500 * k` ms, `On` for
/// even `k` and `Off` for odd `k`.
pub fn producer_schedule(count: u64) -> (r: Vec<Emission>)
    requires
        count <= MAX_SLOTS,
    ensures
        r@.len() == count,
        forall|k: int|
            0 <= k < count ==> (#[trigger] r@[k]).at_ms == 500 * k && r@[k].state == signal_at(
                k as nat,
            ),
{
    let mut out: Vec<Emission> = Vec::new();
    let mut producer = Producer::new();
    let mut clock: u64 = 0;
    let mut k: u64 = 0;
    while k < count
        invariant
            k <= count,
            count <= MAX_SLOTS,
            clock == 500 * k,
            producer.phase == send_phase(k as nat),
            out@.len() == k,
            forall|j: int|
                0 <= j < k ==> (#[trigger] out@[j]).at_ms == 500 * j && out@[j].state
                    == signal_at(j as nat),
        decreases count - k,
    {
        proof {
            lemma_send_to_send(k as nat);
        }
        match producer.action() {
            ProducerAction::Send(s) => {
                out.push(Emission { at_ms: clock, state: s });
            },
            ProducerAction::Wait(_) => {},
        }
        producer.advance();
        match producer.action() {
            ProducerAction::Wait(d) => {
                clock = clock + d;
            },
            ProducerAction::Send(_) => {},
        }
        producer.advance();
        k = k + 1;
    }
    out
}

} // verus!
