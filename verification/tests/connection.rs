use peer_tunnel::instance::{
    Connection, Data, Endpoint, EphemeralBlob, Packet, Receipt, SessionKey, State,
};
use peer_tunnel::x25519::curve25519::KeyError;
use peer_tunnel::x25519::{PrivateKey, PublicKey, SharedKey};
use peer_tunnel::{x25519IDHash, SharedMacSecret};

fn seed_a() -> Vec<u8> {
    (0u8..128).collect()
}

fn seed_b() -> Vec<u8> {
    (0u8..128).map(|i| 255 - i).collect()
}

fn secret() -> SharedMacSecret {
    SharedMacSecret::from_bytes(&[7u8; 32]).unwrap()
}

fn blob(byte: u8) -> EphemeralBlob {
    EphemeralBlob::from_bytes(&[byte; 32]).unwrap()
}

fn address(last: u32, port: u16) -> Endpoint {
    Endpoint::V4 { octets: 0x0a00_0000 + last, port }
}

fn shared() -> SharedKey {
    SharedKey::from_bytes(&[9u8; 32]).unwrap()
}

/// The connection that A registers for B, with contribution 1.
fn at_a() -> Connection {
    Connection::new(
        PublicKey::new(&seed_a()).unwrap(),
        PublicKey::new(&seed_b()).unwrap(),
        secret(),
        blob(1),
    )
}

#[test]
fn a_new_connection_is_pending_without_endpoint() {
    let public_a = PublicKey::new(&seed_a()).unwrap();
    let public_b = PublicKey::new(&seed_b()).unwrap();
    let connection = at_a();
    assert_eq!(connection.local_x25519_id_hash, x25519IDHash::new(public_a, secret()));
    assert_eq!(connection.remote_x25519_id_hash, x25519IDHash::new(public_b, secret()));
    assert_eq!(connection.endpoint, None);
    assert_eq!(
        connection.state,
        State::Pending {
            public_key: public_b,
            local_ephemeral_blob: blob(1),
            sent_handshake: false,
        }
    );
    assert!(!connection.state.is_established());
    assert!(!connection.state.sent_handshake());
    assert_eq!(connection.state.public_key(), public_b);
    assert_eq!(connection.state.local_ephemeral_blob(), blob(1));
    assert_eq!(connection.state.remote_ephemeral_blob(), None);
    assert_eq!(connection.state.session_key(), None);
}

#[test]
fn peers_hold_complementary_identifiers() {
    let public_a = PublicKey::new(&seed_a()).unwrap();
    let public_b = PublicKey::new(&seed_b()).unwrap();
    let at_a = Connection::new(public_a, public_b, secret(), blob(1));
    let at_b = Connection::new(public_b, public_a, secret(), blob(2));
    assert_eq!(at_a.local_x25519_id_hash, at_b.remote_x25519_id_hash);
    assert_eq!(at_a.remote_x25519_id_hash, at_b.local_x25519_id_hash);
    assert_ne!(at_a.local_x25519_id_hash, at_a.remote_x25519_id_hash);
    assert_eq!(at_a.handshake().hash, at_b.remote_x25519_id_hash);
}

#[test]
fn the_handshake_carries_our_identifier_and_contribution() {
    let connection = at_a();
    assert_eq!(
        connection.handshake(),
        Packet {
            hash: connection.local_x25519_id_hash,
            data: Data::Handshake { ephemeral_blob: blob(1) },
        }
    );
}

#[test]
fn initiating_records_the_endpoint_and_sends_the_handshake() {
    let mut connection = at_a();
    let before = connection;
    let packet = connection.initiate(address(2, 6555));
    assert_eq!(packet, Some(before.handshake()));
    assert_eq!(connection.endpoint, Some(address(2, 6555)));
    assert!(connection.state.sent_handshake());
    assert!(!connection.state.is_established());
    assert_eq!(connection.state.local_ephemeral_blob(), blob(1));
    assert_eq!(connection.local_x25519_id_hash, before.local_x25519_id_hash);
    assert_eq!(connection.remote_x25519_id_hash, before.remote_x25519_id_hash);
    let again = connection.initiate(address(3, 1));
    assert_eq!(again, Some(before.handshake()));
    assert_eq!(connection.endpoint, Some(address(3, 1)));
}

#[test]
fn initiating_an_established_connection_does_nothing() {
    let mut connection = at_a();
    connection.accept(blob(2), address(2, 6555), Ok(shared()));
    let before = connection;
    assert_eq!(connection.initiate(address(9, 9)), None);
    assert_eq!(connection, before);
}

#[test]
fn the_first_handshake_establishes_and_is_answered_once() {
    let mut connection = at_a();
    let handshake = connection.handshake();
    let receipt = connection.accept(blob(2), address(2, 6555), Ok(shared()));
    assert_eq!(receipt, Receipt::Established { reply: Some(handshake) });
    assert_eq!(connection.endpoint, Some(address(2, 6555)));
    assert!(connection.state.is_established());
    assert!(connection.state.sent_handshake());
    assert_eq!(connection.state.remote_ephemeral_blob(), Some(blob(2)));
    assert_eq!(connection.state.local_ephemeral_blob(), blob(1));
    assert_eq!(
        connection.state.session_key(),
        Some(SessionKey::derive(&shared(), &blob(1), &blob(2)))
    );
    assert_eq!(connection.state.public_key(), PublicKey::new(&seed_b()).unwrap());
}

#[test]
fn an_initiator_does_not_answer_the_reply() {
    let mut connection = at_a();
    connection.initiate(address(2, 6555));
    let receipt = connection.accept(blob(2), address(2, 6555), Ok(shared()));
    assert_eq!(receipt, Receipt::Established { reply: None });
    assert!(connection.state.is_established());
}

#[test]
fn a_duplicate_handshake_changes_nothing() {
    let mut connection = at_a();
    connection.accept(blob(2), address(2, 6555), Ok(shared()));
    let established = connection;
    let receipt = connection.accept(blob(2), address(2, 6555), Ok(shared()));
    assert_eq!(receipt, Receipt::Duplicate);
    assert_eq!(connection, established);
    let receipt = connection.accept(blob(3), address(2, 6555), Err(KeyError::Rejected));
    assert_eq!(receipt, Receipt::Duplicate);
    assert_eq!(connection, established);
    assert_eq!(connection.state.remote_ephemeral_blob(), Some(blob(2)));
}

#[test]
fn the_endpoint_follows_the_sender() {
    let mut connection = at_a();
    connection.initiate(address(1, 1));
    assert_eq!(connection.endpoint, Some(address(1, 1)));
    connection.accept(blob(2), address(2, 2), Err(KeyError::Rejected));
    assert_eq!(connection.endpoint, Some(address(2, 2)));
    connection.accept(blob(2), address(3, 3), Ok(shared()));
    assert_eq!(connection.endpoint, Some(address(3, 3)));
    let state = connection.state;
    connection.accept(blob(2), address(4, 4), Ok(shared()));
    assert_eq!(connection.endpoint, Some(address(4, 4)));
    let v6 = Endpoint::V6 { segments: 1, port: 4, flow_info: 0, scope_id: 0 };
    connection.accept(blob(5), v6, Ok(shared()));
    assert_eq!(connection.endpoint, Some(v6));
    assert_eq!(connection.state, state);
}

#[test]
fn a_failed_agreement_leaves_the_connection_pending() {
    let mut connection = at_a();
    let before = connection;
    let receipt = connection.accept(blob(2), address(2, 6555), Err(KeyError::Rejected));
    assert_eq!(receipt, Receipt::Failed { error: KeyError::Rejected });
    assert_eq!(connection.state, before.state);
    assert_eq!(connection.endpoint, Some(address(2, 6555)));
    let receipt = connection.accept(blob(2), address(2, 6555), Err(KeyError::UnexpectedLength));
    assert_eq!(receipt, Receipt::Failed { error: KeyError::UnexpectedLength });
    assert!(!connection.state.is_established());
    assert!(!connection.state.sent_handshake());
}

#[test]
fn a_handshake_is_received_with_the_real_key_agreement() {
    let private_a = PrivateKey::new(&seed_a()).unwrap();
    let private_b = PrivateKey::new(&seed_b()).unwrap();
    let public_a = PublicKey::new(&seed_a()).unwrap();
    let public_b = PublicKey::new(&seed_b()).unwrap();
    let mut at_a = Connection::new(public_a, public_b, secret(), blob(1));
    let mut at_b = Connection::new(public_b, public_a, secret(), blob(2));
    let opening = at_a.initiate(address(2, 6555)).unwrap();
    let Data::Handshake { ephemeral_blob } = opening.data;
    let receipt = at_b.receive_handshake(&private_b, ephemeral_blob, address(1, 6555));
    let reply = match receipt {
        Receipt::Established { reply: Some(reply) } => reply,
        other => panic!("unexpected receipt {:?}", other),
    };
    assert_eq!(reply, Packet::handshake(at_b.local_x25519_id_hash, blob(2)));
    let Data::Handshake { ephemeral_blob } = reply.data;
    let receipt = at_a.receive_handshake(&private_a, ephemeral_blob, address(2, 6555));
    assert_eq!(receipt, Receipt::Established { reply: None });
    assert_eq!(at_a.state.session_key(), at_b.state.session_key());
    let shared = SharedKey::derive(&private_a, &public_b).unwrap();
    assert_eq!(at_a.state.session_key(), Some(SessionKey::derive(&shared, &blob(1), &blob(2))));
    assert_eq!(
        at_a.state.session_key().unwrap().to_string(),
        "\"2QW2dBoKtXMWbXnuyN7epNzUNO07SaNpgMucggII/SI=\""
    );
    let receipt = at_b.receive_handshake(&private_b, blob(1), address(1, 6555));
    assert_eq!(receipt, Receipt::Duplicate);
}

#[test]
fn a_peer_key_without_a_shared_secret_fails_the_handshake() {
    let private_a = PrivateKey::new(&seed_a()).unwrap();
    let public_a = PublicKey::new(&seed_a()).unwrap();
    let zero = PublicKey::from_bytes(&[0u8; 32]).unwrap();
    let mut connection = Connection::new(public_a, zero, secret(), blob(1));
    let before = connection;
    let receipt = connection.receive_handshake(&private_a, blob(2), address(2, 6555));
    assert_eq!(receipt, Receipt::Failed { error: KeyError::Rejected });
    assert_eq!(connection.state, before.state);
    assert_eq!(connection.endpoint, Some(address(2, 6555)));
}
