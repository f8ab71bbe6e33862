//! End-to-end scenarios played out over the library's pure core, with the
//! transport's side simulated by handing its signals and wire messages in.

use wh_net::client::{
    client_step, process_connect_intents, wait_for_validation, ClientAction, ClientInput,
    ClientNotification, ConnectRequest, NetworkState,
};
use wh_net::dispatch::{decode_messages, encode_messages};
use wh_net::login::LoginData;
use wh_net::packet::{Packet, PacketKind};
use wh_net::server::{kick_player, validate_client_message, ClientRegistry, DoKickPlayer, DoValidateClient};

#[test]
fn scenario_connect_and_join_reachable_server() {
    // Client issues a connect intent toward a reachable server, with login
    // data; the address resolves.
    let login = LoginData::new(b"Player".to_vec(), b"Password".to_vec()).expect("valid login");
    let intent = ConnectRequest { address_resolved: true, login_data: Some(login) };
    let (step, deferred) =
        process_connect_intents(NetworkState::NotConnected, vec![intent]);
    assert!(deferred.is_empty());
    assert_eq!(step.state, NetworkState::Connecting);
    let user_data = match step.action {
        Some(ClientAction::CreateTransportClient { user_data }) => {
            user_data.expect("login rides along as user-data")
        }
        other => panic!("expected a create-transport action, got {:?}", other),
    };

    // Server side: the transport reports the connect, handing the user-data over.
    let mut registry = ClientRegistry::new();
    let connected = registry.handle_client_connected(1, Some(&user_data));
    let server_login = connected.login_data.expect("server reads the login back");
    assert_eq!(server_login.username(), &b"Player".to_vec());

    // The transport link comes up: the client observes OnConnectToServer.
    let step = client_step(step.state, ClientInput::TransportConnected);
    assert_eq!(step.state, NetworkState::Connected);
    assert_eq!(step.notification, Some(ClientNotification::OnConnectToServer));

    // The server validates the client; the packet crosses the wire.
    let send = validate_client_message(&DoValidateClient { client_id: 1 });
    let messages = encode_messages(&vec![send.packet]);

    // Client drains the tick's messages and watches for the validation
    // signal: OnJoinedServer, distinct from the transport-level connect.
    let received = decode_messages(&messages);
    assert!(wait_for_validation(&received));
}

#[test]
fn scenario_connect_to_unresolvable_address() {
    // Address resolution failed; no login data matters here.
    let intent = ConnectRequest { address_resolved: false, login_data: None };
    let (step, deferred) =
        process_connect_intents(NetworkState::NotConnected, vec![intent]);
    assert!(deferred.is_empty());
    // Exactly the could-not-connect notification, and the state never left
    // NotConnected; no transport client was created.
    assert_eq!(step.state, NetworkState::NotConnected);
    assert_eq!(step.notification, Some(ClientNotification::OnCouldNotConnectToServer));
    assert!(step.action.is_none());
}

#[test]
fn scenario_kick_player() {
    // A server with client 5 connected.
    let mut registry = ClientRegistry::new();
    registry.handle_client_connected(5, None);
    assert_eq!(registry.connected_client_count(), 1);

    // The application kicks client 5 with a human-readable reason.
    let directive = kick_player(DoKickPlayer { client_id: 5, reason: b"AFK".to_vec() });
    assert_eq!(directive.client_id, 5);

    // Client 5 receives and decodes the courtesy kick packet.
    let received = decode_messages(&vec![directive.message]);
    assert_eq!(received.len(), 1);
    match received[0].decode(PacketKind::Kick) {
        Some(Packet::Kick { reason }) => assert_eq!(reason, b"AFK".to_vec()),
        other => panic!("expected the kick packet, got {:?}", other),
    }

    // The forced transport disconnect comes back as a notification; the
    // registry marks the record disconnected.
    let ev = registry.handle_client_disconnected(5);
    assert_eq!(ev.client_id, 5);
    assert_eq!(registry.connected_client_count(), 0);
    assert!(!registry.record(ev.handle).is_connected());
}

#[test]
fn malformed_message_does_not_block_later_messages() {
    let good_before = Packet::Message { data: vec![1u8] }.encode().serialize();
    let malformed = vec![9u8, 9, 9];
    let good_after = Packet::Kick { reason: b"x".to_vec() }.encode().serialize();
    let received = decode_messages(&vec![good_before, malformed, good_after]);
    assert_eq!(received.len(), 2);
    assert_eq!(received[0].kind, PacketKind::Message);
    assert_eq!(received[1].kind, PacketKind::Kick);
}

#[test]
fn encode_messages_keeps_order() {
    let batch = vec![
        Packet::Handshake.encode(),
        Packet::Message { data: vec![4u8, 2] }.encode(),
    ];
    let wire = encode_messages(&batch);
    assert_eq!(wire, vec![vec![0u8], vec![2u8, 4, 2]]);
}
