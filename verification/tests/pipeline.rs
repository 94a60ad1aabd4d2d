use button_events::poll::{confirm_shared, note_edge, poll_action, poll_shared, PollAction};
use button_events::debounce::TimerAction;
use button_events::shared::{SharedLatch, SharedLine};

#[test]
fn poll_action_sends_decimal_text_when_connected() {
    match poll_action(Some(12), true) {
        PollAction::Send(s) => assert_eq!(s, "12"),
        _ => panic!("expected a send"),
    }
}

#[test]
fn poll_action_discards_when_disconnected() {
    assert!(matches!(poll_action(Some(13), false), PollAction::Discard));
}

#[test]
fn poll_action_idles_on_no_event() {
    assert!(matches!(poll_action(None, true), PollAction::Idle));
    assert!(matches!(poll_action(None, false), PollAction::Idle));
}

#[test]
fn two_line_scenario() {
    let latch = SharedLatch::new();
    let line12 = SharedLine::new(12);
    let line13 = SharedLine::new(13);

    // Press line 12: the edge arms the timer, the window elapses.
    assert!(matches!(note_edge(&line12), TimerAction::Arm));
    confirm_shared(&line12, &latch);
    match poll_shared(&latch, true) {
        PollAction::Send(s) => assert_eq!(s, "12"),
        _ => panic!("expected the press of line 12 to be sent"),
    }
    // Immediately poll again: nothing new.
    assert!(matches!(poll_shared(&latch, true), PollAction::Idle));

    // Press line 13 while the sink is disconnected: the latch produces the
    // event, the sink boundary drops it, nothing crashes.
    assert!(matches!(note_edge(&line13), TimerAction::Arm));
    confirm_shared(&line13, &latch);
    assert!(matches!(poll_shared(&latch, false), PollAction::Discard));
    // The dropped event is consumed; it is not retried.
    assert!(matches!(poll_shared(&latch, true), PollAction::Idle));
}

#[test]
fn shared_bounce_burst_is_one_event() {
    let latch = SharedLatch::new();
    let line = SharedLine::new(12);
    for _ in 0..8 {
        let _ = note_edge(&line);
    }
    confirm_shared(&line, &latch);
    match poll_shared(&latch, true) {
        PollAction::Send(s) => assert_eq!(s, "12"),
        _ => panic!("expected one confirmed event"),
    }
    assert!(matches!(poll_shared(&latch, true), PollAction::Idle));
}

#[test]
fn shared_most_recent_wins() {
    let latch = SharedLatch::new();
    let line12 = SharedLine::new(12);
    let line13 = SharedLine::new(13);
    let _ = note_edge(&line12);
    confirm_shared(&line12, &latch);
    let _ = note_edge(&line13);
    confirm_shared(&line13, &latch);
    // Both lines confirmed before a poll: only the later event survives.
    match poll_shared(&latch, true) {
        PollAction::Send(s) => assert_eq!(s, "13"),
        _ => panic!("expected the later press to be sent"),
    }
    assert!(matches!(poll_shared(&latch, true), PollAction::Idle));
}

#[test]
fn spurious_shared_expiry_is_silent() {
    let latch = SharedLatch::new();
    let line = SharedLine::new(12);
    confirm_shared(&line, &latch);
    assert!(matches!(poll_shared(&latch, true), PollAction::Idle));
}
