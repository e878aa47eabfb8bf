use dweeb::session::{InputMethodSession, SessionEvent};

#[test]
fn fresh_session_is_inactive_with_serial_zero() {
    let s = InputMethodSession::new();
    assert!(!s.is_active());
    assert_eq!(s.serial(), 0);
}

#[test]
fn activate_sets_the_flag() {
    let mut s = InputMethodSession::new();
    s.handle_event(SessionEvent::Activate);
    assert!(s.is_active());
}

#[test]
fn deactivate_clears_the_flag() {
    let mut s = InputMethodSession::new();
    s.handle_event(SessionEvent::Activate);
    s.handle_event(SessionEvent::Deactivate);
    assert!(!s.is_active());
}

#[test]
fn done_advances_the_serial_and_nothing_else() {
    let mut s = InputMethodSession::new();
    s.handle_event(SessionEvent::Done);
    assert_eq!(s.serial(), 1);
    assert!(!s.is_active());
    s.handle_event(SessionEvent::Done);
    assert_eq!(s.serial(), 2);
}

#[test]
fn other_events_change_nothing() {
    let mut s = InputMethodSession::new();
    s.handle_event(SessionEvent::Activate);
    s.handle_event(SessionEvent::Done);
    s.handle_event(SessionEvent::Other);
    assert!(s.is_active());
    assert_eq!(s.serial(), 1);
}

#[test]
fn serial_never_decreases_over_a_run() {
    let mut s = InputMethodSession::new();
    let events = [
        SessionEvent::Activate,
        SessionEvent::Done,
        SessionEvent::Deactivate,
        SessionEvent::Done,
        SessionEvent::Other,
        SessionEvent::Done,
    ];
    let mut last = s.serial();
    for ev in events {
        s.handle_event(ev);
        assert!(s.serial() >= last);
        last = s.serial();
    }
    assert_eq!(s.serial(), 3);
}

#[test]
fn activation_toggles_are_edge_triggered_history() {
    let mut s = InputMethodSession::new();
    let events = [
        SessionEvent::Activate,
        SessionEvent::Activate,
        SessionEvent::Deactivate,
        SessionEvent::Activate,
    ];
    let mut history: Vec<bool> = Vec::new();
    for ev in events {
        s.handle_event(ev);
        history.push(s.is_active());
    }
    assert_eq!(history, vec![true, true, false, true]);
}
