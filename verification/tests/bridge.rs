use dweeb::bridge::{EventBridge, WakeEvent};
use dweeb::client::{BindAction, Global, ProtocolClient, ProtocolEvent};
use dweeb::injector::Request;
use dweeb::session::SessionEvent;

fn seat_advert(name: u32, version: u32) -> Global {
    Global { name, interface: "wl_seat".to_string(), version }
}

fn manager_advert(name: u32, version: u32) -> Global {
    Global { name, interface: "zwp_input_method_manager_v2".to_string(), version }
}

fn session_batch(ev: SessionEvent) -> WakeEvent {
    WakeEvent::Readable(vec![ProtocolEvent::Session(ev)])
}

/// A bridge whose client already went through binding and session creation.
fn bound_bridge() -> EventBridge {
    let mut client = ProtocolClient::new();
    client.handle_global(&seat_advert(1, 1));
    client.handle_global(&manager_advert(2, 1));
    client.handle_seat_named();
    assert!(client.has_session());
    EventBridge::new(client)
}

#[test]
fn activation_edges_are_forwarded_exactly_once() {
    let mut bridge = bound_bridge();

    let plan = bridge.step(session_batch(SessionEvent::Activate));
    assert_eq!(plan.notify, Some(true));

    let plan = bridge.step(session_batch(SessionEvent::Activate));
    assert_eq!(plan.notify, None);

    let plan = bridge.step(session_batch(SessionEvent::Deactivate));
    assert_eq!(plan.notify, Some(false));

    let plan = bridge.step(session_batch(SessionEvent::Deactivate));
    assert_eq!(plan.notify, None);
}

#[test]
fn a_drained_socket_read_is_a_no_op() {
    let mut bridge = bound_bridge();
    let plan = bridge.step(WakeEvent::Readable(Vec::new()));
    assert!(plan.requests.is_empty());
    assert!(plan.binds.is_empty());
    assert_eq!(plan.notify, None);
    assert!(!plan.exit);
}

#[test]
fn a_closed_inbound_channel_ends_the_loop_cleanly() {
    let mut bridge = bound_bridge();
    let plan = bridge.step(WakeEvent::InputClosed);
    assert!(plan.exit);
    assert!(plan.requests.is_empty());
    assert!(plan.binds.is_empty());
    assert_eq!(plan.notify, None);
}

#[test]
fn keystrokes_turn_into_requests_and_no_redundant_notification() {
    let mut bridge = bound_bridge();
    let plan = bridge.step(WakeEvent::Keystroke("k".to_string()));
    assert_eq!(
        plan.requests,
        vec![Request::CommitString("k".to_string()), Request::Commit(0)]
    );
    assert!(plan.binds.is_empty());
    assert_eq!(plan.notify, None);
    assert!(!plan.exit);
}

#[test]
fn keystrokes_without_a_session_are_silent() {
    let mut bridge = EventBridge::new(ProtocolClient::new());
    let plan = bridge.step(WakeEvent::Keystroke("k".to_string()));
    assert!(plan.requests.is_empty());
    assert_eq!(plan.notify, None);
}

#[test]
fn end_to_end_session_lifetime() {
    // Registry enumeration: seat (v1) first, then the manager (v1).
    let mut bridge = EventBridge::new(ProtocolClient::new());
    let plan = bridge.step(WakeEvent::Readable(vec![
        ProtocolEvent::Global(seat_advert(10, 1)),
        ProtocolEvent::Global(manager_advert(11, 1)),
    ]));
    assert_eq!(
        plan.binds,
        vec![
            BindAction::BindSeat { name: 10, version: 1 },
            BindAction::BindManager { name: 11, version: 1 },
        ]
    );
    assert_eq!(plan.notify, None);

    // The seat's name event arrives: the session is created.
    let plan = bridge.step(WakeEvent::Readable(vec![ProtocolEvent::SeatName]));
    assert_eq!(plan.binds, vec![BindAction::CreateSession]);
    assert_eq!(plan.notify, None);
    assert!(!bridge.is_active());

    // Activate: the UI hears `true` exactly once.
    let plan = bridge.step(session_batch(SessionEvent::Activate));
    assert_eq!(plan.notify, Some(true));
    let plan = bridge.step(session_batch(SessionEvent::Activate));
    assert_eq!(plan.notify, None);

    // Deactivate: the UI hears `false` exactly once.
    let plan = bridge.step(session_batch(SessionEvent::Deactivate));
    assert_eq!(plan.notify, Some(false));

    // Some Done events advance the serial; the next injection commits with
    // the serial current at the time of the call.
    let plan = bridge.step(WakeEvent::Readable(vec![
        ProtocolEvent::Session(SessionEvent::Done),
        ProtocolEvent::Session(SessionEvent::Done),
    ]));
    assert_eq!(plan.notify, None);
    let plan = bridge.step(WakeEvent::Keystroke("<bksp>".to_string()));
    assert_eq!(
        plan.requests,
        vec![Request::DeleteSurroundingText(1, 0), Request::Commit(2)]
    );
}

#[test]
fn emitted_booleans_are_the_value_changes_of_the_active_history() {
    let mut bridge = bound_bridge();
    let events = [
        SessionEvent::Activate,
        SessionEvent::Activate,
        SessionEvent::Deactivate,
        SessionEvent::Activate,
        SessionEvent::Done,
        SessionEvent::Deactivate,
        SessionEvent::Deactivate,
    ];
    let mut emitted: Vec<bool> = Vec::new();
    let mut history: Vec<bool> = Vec::new();
    for ev in events {
        let plan = bridge.step(session_batch(ev));
        history.push(bridge.is_active());
        if let Some(b) = plan.notify {
            emitted.push(b);
        }
    }
    // No two consecutive emitted values are equal...
    for pair in emitted.windows(2) {
        assert_ne!(pair[0], pair[1]);
    }
    // ...and the emitted sequence is the history with consecutive
    // duplicates (and the initial `false`) removed.
    let mut dedup: Vec<bool> = Vec::new();
    let mut prev = false;
    for value in history {
        if value != prev {
            dedup.push(value);
        }
        prev = value;
    }
    assert_eq!(emitted, dedup);
    assert_eq!(emitted, vec![true, false, true, false]);
}
