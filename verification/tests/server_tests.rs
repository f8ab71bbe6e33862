use wh_net::login::LoginData;
use wh_net::packet::{Packet, PacketKind};
use wh_net::server::{
    kick_player, validate_client_message, ClientRegistry, DoKickPlayer, DoValidateClient,
};

#[test]
fn registry_tracks_connects_and_disconnects() {
    let mut registry = ClientRegistry::new();
    assert_eq!(registry.connected_client_count(), 0);

    let ev1 = registry.handle_client_connected(7, None);
    assert_eq!(ev1.client_id, 7);
    assert_eq!(ev1.handle, 0);
    let ev2 = registry.handle_client_connected(9, None);
    assert_eq!(ev2.handle, 1);
    assert_eq!(registry.connected_client_count(), 2);

    assert!(registry.has_live_client(7));
    let ev = registry.handle_client_disconnected(7);
    assert_eq!(ev.client_id, 7);
    assert_eq!(ev.handle, 0);
    assert_eq!(registry.connected_client_count(), 1);
    assert!(!registry.has_live_client(7));
    assert!(registry.has_live_client(9));

    // The record is marked disconnected, not removed.
    assert_eq!(registry.len(), 2);
    let record = registry.record(0);
    assert_eq!(record.client_id(), 7);
    assert!(!record.is_connected());
    assert!(registry.record(1).is_connected());
}

#[test]
fn reconnect_after_disconnect_gets_a_fresh_record() {
    let mut registry = ClientRegistry::new();
    registry.handle_client_connected(5, None);
    registry.handle_client_disconnected(5);
    let ev = registry.handle_client_connected(5, None);
    assert_eq!(ev.handle, 1);
    assert_eq!(registry.len(), 2);
    assert_eq!(registry.connected_client_count(), 1);
    assert!(!registry.record(0).is_connected());
    assert!(registry.record(1).is_connected());
}

#[test]
fn connect_decodes_login_from_user_data() {
    let login = LoginData::new(b"Player".to_vec(), b"Password".to_vec()).expect("valid login");
    let user_data = login.as_bytes();
    let mut registry = ClientRegistry::new();
    let ev = registry.handle_client_connected(3, Some(&user_data));
    let decoded = ev.login_data.expect("login data must decode");
    assert_eq!(decoded.username(), &b"Player".to_vec());
    assert_eq!(decoded.password(), &b"Password".to_vec());
}

#[test]
fn connect_treats_undecodable_user_data_as_no_login() {
    let mut registry = ClientRegistry::new();
    let garbage = vec![0u8, 0];
    let ev = registry.handle_client_connected(4, Some(&garbage));
    assert!(ev.login_data.is_none());
    // The connection itself proceeded: the record is live.
    assert_eq!(registry.connected_client_count(), 1);
}

#[test]
fn kick_directive_carries_reason_and_target() {
    let directive = kick_player(DoKickPlayer { client_id: 5, reason: b"AFK".to_vec() });
    assert_eq!(directive.client_id, 5);
    // Kick discriminant, then the reason bytes.
    assert_eq!(directive.message, vec![1u8, 65, 70, 75]);
}

#[test]
fn validation_intent_becomes_handshake_send() {
    let send = validate_client_message(&DoValidateClient { client_id: 11 });
    assert_eq!(send.client_id, 11);
    assert_eq!(send.packet.kind, PacketKind::Handshake);
    assert!(send.packet.payload.is_empty());
    assert!(matches!(send.packet.decode(PacketKind::Handshake), Some(Packet::Handshake)));
}
