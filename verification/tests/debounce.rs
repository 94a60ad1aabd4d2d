use button_events::debounce::{LineDebounce, TimerAction};
use button_events::latch::EventLatch;
use button_events::poll::confirm_into;

#[test]
fn bounce_burst_produces_one_latch_write() {
    let mut d = LineDebounce::new(12);
    let mut l = EventLatch::new();
    for _ in 0..5 {
        let act = d.on_edge();
        assert!(matches!(act, TimerAction::Arm));
    }
    // The re-armed one-shot timer expires once for the whole burst.
    confirm_into(&mut d, &mut l);
    assert_eq!(l.read_and_advance(), Some(12));
    assert_eq!(l.read_and_advance(), None);
}

#[test]
fn spurious_expiry_confirms_nothing() {
    let mut d = LineDebounce::new(12);
    assert_eq!(d.on_expiry(), None);
    let mut l = EventLatch::new();
    confirm_into(&mut d, &mut l);
    assert_eq!(l.read_and_advance(), None);
}

#[test]
fn expiry_confirms_exactly_once_per_burst() {
    let mut d = LineDebounce::new(13);
    let _ = d.on_edge();
    assert_eq!(d.on_expiry(), Some(13));
    assert_eq!(d.on_expiry(), None);
}

#[test]
fn lines_are_independent() {
    let mut d12 = LineDebounce::new(12);
    let mut d13 = LineDebounce::new(13);
    let _ = d12.on_edge();
    assert_eq!(d13.on_expiry(), None);
    assert_eq!(d12.on_expiry(), Some(12));
}
