use dualcore_leds::board::{react, Board, DriverAction, Lines};
use dualcore_leds::handoff::{Handoff, HANDOFF_CAPACITY};
use dualcore_leds::producer::{producer_schedule, Phase, Producer, ProducerAction, HALF_PERIOD_MS};
use dualcore_leds::rotator::{next_index, LINE_COUNT, ROTATE_PERIOD_MS};
use dualcore_leds::signal::LedState;
use dualcore_leds::timeline::Timeline;

fn levels(lines: &Lines) -> Vec<bool> {
    (0..LINE_COUNT).map(|i| lines.is_high(i)).collect()
}

fn all_high_except(low: &[usize]) -> Vec<bool> {
    (0..8).map(|i| !low.contains(&i)).collect()
}

#[test]
fn handoff_holds_at_most_one_signal() {
    let mut h = Handoff::new();
    assert!(!h.is_full());
    assert!(h.try_send(LedState::On));
    assert!(h.is_full());
    assert!(!h.try_send(LedState::Off));
    assert_eq!(h.try_receive(), Some(LedState::On));
    assert_eq!(h.try_receive(), None);
    assert!(h.try_send(LedState::Off));
    assert_eq!(h.try_receive(), Some(LedState::Off));
    assert_eq!(HANDOFF_CAPACITY, 1);
}

#[test]
fn index_wraps_after_eight_ticks() {
    let mut index: u32 = 0;
    for n in 1..=20u32 {
        index = next_index(index);
        assert!(index < 8);
        assert_eq!(index, n % 8);
    }
    assert_eq!(next_index(7), 0);
    assert_eq!(next_index(3), 4);
}

#[test]
fn producer_cycle_order() {
    let mut p = Producer::new();
    assert_eq!(p.phase, Phase::SendOn);
    let mut seen = Vec::new();
    for _ in 0..8 {
        seen.push(p.action());
        p.advance();
    }
    let cycle = [
        ProducerAction::Send(LedState::On),
        ProducerAction::Wait(500),
        ProducerAction::Send(LedState::Off),
        ProducerAction::Wait(500),
    ];
    assert_eq!(&seen[0..4], &cycle);
    assert_eq!(&seen[4..8], &cycle);
    assert_eq!(HALF_PERIOD_MS, 500);
}

#[test]
fn producer_schedule_times() {
    let s = producer_schedule(6);
    assert_eq!(s.len(), 6);
    let expected = [
        (0, LedState::On),
        (500, LedState::Off),
        (1000, LedState::On),
        (1500, LedState::Off),
        (2000, LedState::On),
        (2500, LedState::Off),
    ];
    for (e, (at, state)) in s.iter().zip(expected.iter()) {
        assert_eq!(e.at_ms, *at);
        assert_eq!(e.state, *state);
    }
    assert!(producer_schedule(0).is_empty());
}

#[test]
fn driver_decisions() {
    assert_eq!(react(LedState::On, 5), DriverAction::AllHigh);
    assert_eq!(react(LedState::Off, 5), DriverAction::Low(5));
}

#[test]
fn active_then_inactive_at_index_zero() {
    let mut b = Board::new();
    assert_eq!(b.index, 0);
    b.receive(LedState::On);
    assert_eq!(levels(&b.lines), all_high_except(&[]));
    b.receive(LedState::Off);
    assert_eq!(b.index, 0);
    assert_eq!(levels(&b.lines), all_high_except(&[0]));
}

#[test]
fn rotator_tick_changes_no_line() {
    let mut b = Board::new();
    b.receive(LedState::On);
    b.receive(LedState::Off);
    let before = levels(&b.lines);
    b.rotate();
    assert_eq!(b.index, 1);
    assert_eq!(levels(&b.lines), before);
    assert_eq!(ROTATE_PERIOD_MS, 3000);
}

#[test]
fn inactive_after_rotation_leaves_old_line() {
    let mut b = Board::new();
    b.receive(LedState::On);
    b.rotate();
    b.receive(LedState::Off);
    assert_eq!(levels(&b.lines), all_high_except(&[1]));
    assert!(b.lines.is_high(0));
}

#[test]
fn second_active_changes_nothing() {
    let mut b = Board::new();
    b.receive(LedState::Off);
    b.receive(LedState::On);
    let once = levels(&b.lines);
    b.receive(LedState::On);
    assert_eq!(levels(&b.lines), once);
    assert_eq!(once, all_high_except(&[]));
}

#[test]
fn off_on_a_later_index_accumulates() {
    let mut b = Board::new();
    b.receive(LedState::Off);
    b.rotate();
    b.receive(LedState::Off);
    assert_eq!(levels(&b.lines), all_high_except(&[0, 1]));
}

#[test]
fn timeline_first_half_second() {
    let mut t = Timeline::new();
    let e = t.advance();
    assert_eq!((e.at_ms, e.state), (0, LedState::On));
    assert_eq!(t.board.index, 0);
    assert_eq!(levels(&t.board.lines), all_high_except(&[]));
    let e = t.advance();
    assert_eq!((e.at_ms, e.state), (500, LedState::Off));
    assert_eq!(levels(&t.board.lines), all_high_except(&[0]));
    assert_eq!(t.now_ms(), 1000);
}

#[test]
fn timeline_rotation_at_three_seconds() {
    let mut t = Timeline::new();
    for _ in 0..6 {
        t.advance();
    }
    assert_eq!(t.board.index, 0);
    assert_eq!(t.now_ms(), 3000);
    let e = t.advance();
    assert_eq!((e.at_ms, e.state), (3000, LedState::On));
    assert_eq!(t.board.index, 1);
    let e = t.advance();
    assert_eq!((e.at_ms, e.state), (3500, LedState::Off));
    assert_eq!(levels(&t.board.lines), all_high_except(&[1]));
    assert!(t.board.lines.is_high(0));
}

#[test]
fn timeline_index_wraps_after_eight_rotations() {
    let mut t = Timeline::new();
    for k in 0..100u64 {
        let e = t.advance();
        assert_eq!(e.at_ms, 500 * k);
        assert_eq!(t.board.index as u64, (k / 6) % 8);
    }
    assert!(!t.handoff.is_full());
}
