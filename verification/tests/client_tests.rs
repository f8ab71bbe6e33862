use wh_net::client::{
    client_step, process_connect_intents, wait_for_validation, ClientAction, ClientInput,
    ClientNotification, ConnectRequest, NetworkState,
};
use wh_net::login::LoginData;
use wh_net::packet::{Packet, PacketContainer, PacketKind};

fn resolved(login_data: Option<LoginData>) -> ConnectRequest {
    ConnectRequest { address_resolved: true, login_data }
}

fn unresolved() -> ConnectRequest {
    ConnectRequest { address_resolved: false, login_data: None }
}

#[test]
fn connect_intent_with_resolved_address_starts_connecting() {
    let login = LoginData::new(b"Player".to_vec(), b"Password".to_vec()).expect("valid login");
    let expected_user_data = login.as_bytes();
    let r = client_step(
        NetworkState::NotConnected,
        ClientInput::ConnectIntent(resolved(Some(login))),
    );
    assert_eq!(r.state, NetworkState::Connecting);
    assert!(r.notification.is_none());
    match r.action {
        Some(ClientAction::CreateTransportClient { user_data }) => {
            assert_eq!(user_data, Some(expected_user_data));
        }
        other => panic!("expected a create-transport action, got {:?}", other),
    }
}

#[test]
fn connect_intent_without_login_attaches_no_user_data() {
    let r = client_step(NetworkState::NotConnected, ClientInput::ConnectIntent(resolved(None)));
    assert_eq!(r.state, NetworkState::Connecting);
    match r.action {
        Some(ClientAction::CreateTransportClient { user_data }) => assert!(user_data.is_none()),
        other => panic!("expected a create-transport action, got {:?}", other),
    }
}

#[test]
fn unresolvable_address_stays_not_connected() {
    let r = client_step(NetworkState::NotConnected, ClientInput::ConnectIntent(unresolved()));
    assert_eq!(r.state, NetworkState::NotConnected);
    assert_eq!(r.notification, Some(ClientNotification::OnCouldNotConnectToServer));
    assert!(r.action.is_none());
}

#[test]
fn transport_connected_while_connecting_connects() {
    let r = client_step(NetworkState::Connecting, ClientInput::TransportConnected);
    assert_eq!(r.state, NetworkState::Connected);
    assert_eq!(r.notification, Some(ClientNotification::OnConnectToServer));
    assert!(r.action.is_none());
}

#[test]
fn disconnect_disambiguation_by_state() {
    // While still connecting: exactly one could-not-connect, no on-disconnect.
    let r = client_step(NetworkState::Connecting, ClientInput::TransportDisconnected);
    assert_eq!(r.state, NetworkState::NotConnected);
    assert_eq!(r.notification, Some(ClientNotification::OnCouldNotConnectToServer));

    // Once connected: exactly one on-disconnect, no could-not-connect.
    let r = client_step(NetworkState::Connected, ClientInput::TransportDisconnected);
    assert_eq!(r.state, NetworkState::NotConnected);
    assert_eq!(r.notification, Some(ClientNotification::OnDisconnectFromServer));
}

#[test]
fn explicit_disconnect_tears_transport_down() {
    let r = client_step(NetworkState::Connected, ClientInput::DisconnectIntent);
    assert_eq!(r.state, NetworkState::NotConnected);
    assert_eq!(r.notification, Some(ClientNotification::OnDisconnectFromServer));
    assert!(matches!(r.action, Some(ClientAction::DisconnectTransport)));
}

#[test]
fn shutdown_forces_not_connected_silently() {
    let r = client_step(NetworkState::Connected, ClientInput::Shutdown);
    assert_eq!(r.state, NetworkState::NotConnected);
    assert!(r.notification.is_none());
    assert!(matches!(r.action, Some(ClientAction::DisconnectTransport)));
}

#[test]
fn totality_other_signals_are_no_ops() {
    // From NotConnected, only a connect intent does anything.
    for input in [
        ClientInput::TransportConnected,
        ClientInput::TransportDisconnected,
        ClientInput::DisconnectIntent,
    ] {
        let r = client_step(NetworkState::NotConnected, input);
        assert_eq!(r.state, NetworkState::NotConnected);
        assert!(r.notification.is_none());
        assert!(r.action.is_none());
    }
    // From Connecting, intents are no-ops.
    for input in [
        ClientInput::ConnectIntent(resolved(None)),
        ClientInput::DisconnectIntent,
    ] {
        let r = client_step(NetworkState::Connecting, input);
        assert_eq!(r.state, NetworkState::Connecting);
        assert!(r.notification.is_none());
        assert!(r.action.is_none());
    }
    // From Connected, connect intents and transport-connected are no-ops.
    for input in [
        ClientInput::ConnectIntent(resolved(None)),
        ClientInput::TransportConnected,
    ] {
        let r = client_step(NetworkState::Connected, input);
        assert_eq!(r.state, NetworkState::Connected);
        assert!(r.notification.is_none());
        assert!(r.action.is_none());
    }
}

#[test]
fn two_connect_intents_in_one_tick_create_one_client() {
    let intents = vec![resolved(None), resolved(None)];
    let (step, deferred) = process_connect_intents(NetworkState::NotConnected, intents);
    assert!(matches!(step.action, Some(ClientAction::CreateTransportClient { .. })));
    assert_eq!(step.state, NetworkState::Connecting);
    // The second intent was deferred to a later tick, not merged or dropped.
    assert_eq!(deferred.len(), 1);
}

#[test]
fn empty_intent_queue_is_a_no_op() {
    let (step, deferred) = process_connect_intents(NetworkState::NotConnected, Vec::new());
    assert_eq!(step.state, NetworkState::NotConnected);
    assert!(step.notification.is_none());
    assert!(step.action.is_none());
    assert!(deferred.is_empty());
}

#[test]
fn shutdown_without_session_is_a_no_op() {
    let r = client_step(NetworkState::NotConnected, ClientInput::Shutdown);
    assert_eq!(r.state, NetworkState::NotConnected);
    assert!(r.notification.is_none());
    assert!(r.action.is_none());
}

#[test]
fn connect_intents_stay_pending_outside_not_connected() {
    let intents = vec![resolved(None)];
    let (step, deferred) = process_connect_intents(NetworkState::Connected, intents);
    assert!(step.action.is_none());
    assert_eq!(step.state, NetworkState::Connected);
    assert_eq!(deferred.len(), 1);
}

#[test]
fn validation_watch_sees_handshake_packet() {
    let packets = vec![
        Packet::Message { data: vec![7u8] }.encode(),
        Packet::Handshake.encode(),
    ];
    assert!(wait_for_validation(&packets));
}

#[test]
fn validation_watch_ignores_other_packets() {
    let packets = vec![
        Packet::Message { data: vec![7u8] }.encode(),
        Packet::Kick { reason: b"no".to_vec() }.encode(),
    ];
    assert!(!wait_for_validation(&packets));
    assert!(!wait_for_validation(&Vec::new()));
    // A handshake-kind container with a stray payload is not the signal.
    let malformed = vec![PacketContainer { kind: PacketKind::Handshake, payload: vec![1u8] }];
    assert!(!wait_for_validation(&malformed));
}
