use dweeb::client::{BindAction, Global, ProtocolClient, ProtocolEvent};

fn seat_advert(name: u32, version: u32) -> Global {
    Global { name, interface: "wl_seat".to_string(), version }
}

fn manager_advert(name: u32, version: u32) -> Global {
    Global { name, interface: "zwp_input_method_manager_v2".to_string(), version }
}

#[test]
fn first_seat_advert_is_bound_with_its_version() {
    let mut client = ProtocolClient::new();
    let action = client.handle_global(&seat_advert(7, 4));
    assert_eq!(action, Some(BindAction::BindSeat { name: 7, version: 4 }));
}

#[test]
fn seat_binding_is_idempotent() {
    let mut client = ProtocolClient::new();
    let first = client.handle_global(&seat_advert(7, 4));
    let second = client.handle_global(&seat_advert(7, 4));
    assert_eq!(first, Some(BindAction::BindSeat { name: 7, version: 4 }));
    assert_eq!(second, None);
}

#[test]
fn a_later_seat_advert_is_ignored_too() {
    let mut client = ProtocolClient::new();
    client.handle_global(&seat_advert(7, 4));
    let other = client.handle_global(&seat_advert(9, 4));
    assert_eq!(other, None);
}

#[test]
fn manager_advert_is_bound() {
    let mut client = ProtocolClient::new();
    let action = client.handle_global(&manager_advert(3, 1));
    assert_eq!(action, Some(BindAction::BindManager { name: 3, version: 1 }));
}

#[test]
fn unknown_interfaces_are_ignored() {
    let mut client = ProtocolClient::new();
    let action = client.handle_global(&Global {
        name: 12,
        interface: "wl_output".to_string(),
        version: 2,
    });
    assert_eq!(action, None);
    assert!(!client.has_session());
}

#[test]
fn seat_named_with_manager_bound_creates_the_session() {
    let mut client = ProtocolClient::new();
    client.handle_global(&manager_advert(3, 1));
    client.handle_global(&seat_advert(7, 4));
    let action = client.handle_seat_named();
    assert_eq!(action, Some(BindAction::CreateSession));
    assert!(client.has_session());
    assert!(!client.is_active());
}

#[test]
fn seat_named_without_manager_stays_degraded() {
    let mut client = ProtocolClient::new();
    client.handle_global(&seat_advert(7, 4));
    let action = client.handle_seat_named();
    assert_eq!(action, None);
    assert!(!client.has_session());
    assert!(!client.is_active());
}

#[test]
fn binding_tolerates_manager_before_seat_and_seat_before_manager() {
    // manager first
    let mut client = ProtocolClient::new();
    client.handle_global(&manager_advert(1, 1));
    client.handle_global(&seat_advert(2, 1));
    client.handle_seat_named();
    assert!(client.has_session());

    // seat first; its name resolves only after the manager is bound
    let mut other = ProtocolClient::new();
    other.handle_global(&seat_advert(2, 1));
    other.handle_global(&manager_advert(1, 1));
    other.handle_seat_named();
    assert!(other.has_session());
}

#[test]
fn dispatch_processes_a_batch_in_order_and_counts_it() {
    let mut client = ProtocolClient::new();
    let events = vec![
        ProtocolEvent::Global(manager_advert(1, 1)),
        ProtocolEvent::Global(seat_advert(2, 1)),
        ProtocolEvent::Other,
        ProtocolEvent::SeatName,
    ];
    let (count, actions) = client.dispatch(&events);
    assert_eq!(count, 4);
    assert_eq!(
        actions,
        vec![
            BindAction::BindManager { name: 1, version: 1 },
            BindAction::BindSeat { name: 2, version: 1 },
            BindAction::CreateSession,
        ]
    );
    assert!(client.has_session());
}
