use live_server::hub::{ws_step, BroadcastHub, WsAction, WsEvent};
use live_server::registry::ConnectionRegistry;

#[test]
fn a_session_forwards_signals_drains_frames_and_stops_on_closure() {
    assert_eq!(ws_step(WsEvent::Frame), WsAction::Continue);
    assert_eq!(ws_step(WsEvent::Lagged), WsAction::Continue);
    assert_eq!(ws_step(WsEvent::Signal), WsAction::SendReload);
    assert_eq!(ws_step(WsEvent::StreamEnd), WsAction::Stop);
    assert_eq!(ws_step(WsEvent::HubClosed), WsAction::Stop);
}

#[test]
fn registry_size_tracks_connect_disconnect_cycles() {
    let mut reg = ConnectionRegistry::new();
    assert_eq!(reg.len(), 0);
    for cycle in 0u128..50 {
        assert!(reg.insert(cycle));
        assert_eq!(reg.len(), 1);
        assert!(reg.contains(cycle));
        assert!(reg.remove(cycle));
        assert_eq!(reg.len(), 0);
        assert!(!reg.contains(cycle));
    }
}

#[test]
fn registry_holds_exactly_the_open_connections() {
    let mut reg = ConnectionRegistry::new();
    for id in 0u128..10 {
        assert!(reg.insert(id));
    }
    assert_eq!(reg.len(), 10);
    for id in (0u128..10).step_by(2) {
        assert!(reg.remove(id));
    }
    assert_eq!(reg.len(), 5);
    for id in 0u128..10 {
        assert_eq!(reg.contains(id), id % 2 == 1);
    }
}

#[test]
fn registry_never_duplicates_or_double_removes() {
    let mut reg = ConnectionRegistry::new();
    assert!(reg.insert(7));
    assert!(!reg.insert(7));
    assert_eq!(reg.len(), 1);
    assert!(reg.remove(7));
    assert!(!reg.remove(7));
    assert_eq!(reg.len(), 0);
}

#[test]
fn one_change_reaches_every_subscriber() {
    let mut hub = BroadcastHub::new(16);
    for id in 1u128..=5 {
        assert!(hub.subscribe(id));
    }
    hub.publish();
    for id in 1u128..=5 {
        assert!(hub.recv(id));
    }
}

#[test]
fn a_disconnected_subscriber_does_not_block_the_rest() {
    let mut hub = BroadcastHub::new(16);
    for id in 1u128..=4 {
        assert!(hub.subscribe(id));
    }
    assert!(hub.unsubscribe(3));
    hub.publish();
    assert!(hub.recv(1));
    assert!(hub.recv(2));
    assert!(hub.recv(4));
    assert!(!hub.recv(3));
}

#[test]
fn signals_before_subscription_are_not_replayed() {
    let mut hub = BroadcastHub::new(16);
    assert!(hub.subscribe(1));
    hub.publish();
    assert!(hub.subscribe(2));
    assert!(hub.recv(1));
    assert!(!hub.recv(2));
}

#[test]
fn a_full_queue_coalesces_and_never_blocks_the_publisher() {
    let mut hub = BroadcastHub::new(16);
    assert!(hub.subscribe(1));
    for _ in 0..100 {
        hub.publish();
    }
    let mut delivered: u32 = 0;
    while hub.recv(1) {
        delivered += 1;
    }
    assert_eq!(delivered, 16);
}

#[test]
fn duplicate_subscription_is_refused() {
    let mut hub = BroadcastHub::new(16);
    assert!(hub.subscribe(1));
    assert!(!hub.subscribe(1));
    hub.publish();
    assert!(hub.recv(1));
    assert!(!hub.recv(1));
}

#[test]
fn unsubscribe_of_an_unknown_id_changes_nothing() {
    let mut hub = BroadcastHub::new(16);
    assert!(hub.subscribe(1));
    assert!(!hub.unsubscribe(2));
    hub.publish();
    assert!(hub.recv(1));
}
