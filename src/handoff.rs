use crate::signal::LedState;
use vstd::prelude::*;

verus! {

/// Number of signals the handoff queue can buffer.
pub const HANDOFF_CAPACITY: usize = 1;

/// Model of the single-slot queue between the producer and the output driver.
///
/// A send succeeds only while the slot is empty; otherwise the sender has to
/// suspend until the driver has taken the buffered signal.
pub struct Handoff {
    slot: Option<LedState>,
}

impl View for Handoff {
    type V = Seq<LedState>;

    /// The signals that were sent and not yet received, oldest first.
    closed spec fn view(&self) -> Seq<LedState> {
        match self.slot {
            Some(s) => seq![s],
            None => Seq::empty(),
        }
    }
}

impl Handoff {
    /// An empty queue.
    pub fn new() -> (r: Handoff)
        ensures
            r@ == Seq::<LedState>::empty(),
    {
        Handoff { slot: None }
    }

    /// Buffers `s` when the queue is empty; reports whether it did.
    pub fn try_send(&mut self, s: LedState) -> (sent: bool)
        ensures
            sent == (old(self)@.len() < HANDOFF_CAPACITY),
            sent ==> final(self)@ == old(self)@.push(s),
            !sent ==> final(self)@ == old(self)@,
    {
        proof {
            lemma_handoff_bounded(self);
        }
        match self.slot {
            Some(_) => false,
            None => {
                self.slot = Some(s);
                proof {
                    assert(self@ =~= old(self)@.push(s));
                }
                true
            },
        }
    }

    /// Takes the oldest buffered signal, if there is one.
    pub fn try_receive(&mut self) -> (r: Option<LedState>)
        ensures
            old(self)@.len() == 0 ==> r is None && final(self)@ == old(self)@,
            old(self)@.len() > 0 ==> r == Some(old(self)@[0]) && final(self)@ == old(
                self,
            )@.drop_first(),
    {
        let r = self.slot;
        self.slot = None;
        proof {
            if old(self)@.len() > 0 {
                assert(self@ =~= old(self)@.drop_first());
            }
        }
        r
    }

    /// Whether a signal is waiting to be received.
    pub fn is_full(&self) -> (r: bool)
        ensures
            r == (self@.len() == HANDOFF_CAPACITY),
    {
        self.slot.is_some()
    }
}

/// In every state of the queue, at most one unconsumed signal is buffered.
pub proof fn lemma_handoff_bounded(h: &Handoff)
    ensures
        h@.len() <= HANDOFF_CAPACITY,
{
}

} // verus!
