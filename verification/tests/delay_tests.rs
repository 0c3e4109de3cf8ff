use worker::delay::{Delay, DelayAction};

#[test]
fn first_poll_starts_timer_then_ready() {
    let mut d = Delay::from_millis(1500);
    assert_eq!(d.on_drop(), None);
    assert_eq!(d.poll(), DelayAction::Arm { timeout_ms: 1500 });
    d.timer_started(42);
    assert_eq!(d.poll(), DelayAction::Ready);
    assert_eq!(d.poll(), DelayAction::Ready);
    assert_eq!(d.on_drop(), Some(42));
}

#[test]
fn long_durations_are_cut_to_32_bits() {
    let mut d = Delay::from_millis((1u128 << 32) + 7);
    assert_eq!(d.poll(), DelayAction::Arm { timeout_ms: 7 });
}

#[test]
fn unpolled_delay_clears_nothing() {
    let d = Delay::from_millis(0);
    assert_eq!(d.on_drop(), None);
}
