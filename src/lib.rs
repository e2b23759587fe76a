//! Signal and timing logic of a two-core lamp demonstration board.
//!
//! One execution context publishes alternating `On`/`Off` signals every half
//! second through a single-slot handoff queue; the other drives eight output
//! lines from those signals, while a rotator advances the shared line index
//! every three seconds. The decisions of each task are state machines here,
//! and `timeline` composes them on a simulated clock.
pub mod board;
pub mod handoff;
pub mod producer;
pub mod rotator;
pub mod signal;
pub mod timeline;
