use vstd::prelude::*;

verus! {

/// The logical lamp state carried from the producer to the output driver.
#[derive(Clone, Copy, Debug, PartialEq, Eq, Structural)]
pub enum LedState {
    /// Drive every output line high.
    On,
    /// Drive the line selected by the shared index low.
    Off,
}

} // verus!
