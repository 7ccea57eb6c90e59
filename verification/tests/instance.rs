use peer_tunnel::instance::{
    Command, Connection, ConnectionTable, Data, Directive, Endpoint, EphemeralBlob, Instance,
    InstanceBuilder, Packet, Receipt, Response, SessionKey, State,
};
use peer_tunnel::x25519::curve25519::KeyError;
use peer_tunnel::x25519::{PrivateKey, PublicKey, SharedKey};
use peer_tunnel::{x25519IDHash, SharedMacSecret};

fn seed_a() -> Vec<u8> {
    (0u8..128).collect()
}

fn seed_b() -> Vec<u8> {
    (0u8..128).map(|i| 255 - i).collect()
}

fn seed(n: u8) -> Vec<u8> {
    (0u8..32).map(|i| i.wrapping_mul(7).wrapping_add(n)).collect()
}

fn secret() -> SharedMacSecret {
    SharedMacSecret::from_bytes(&[7u8; 32]).unwrap()
}

fn blob(byte: u8) -> EphemeralBlob {
    EphemeralBlob::from_bytes(&[byte; 32]).unwrap()
}

fn address_a() -> Endpoint {
    Endpoint::V4 { octets: 0x0a00_0001, port: 6555 }
}

fn address_b() -> Endpoint {
    Endpoint::V4 { octets: 0x0a00_0002, port: 6555 }
}

fn instance(seed: &[u8]) -> Instance {
    Instance::new(
        InstanceBuilder::new(),
        PrivateKey::new(seed).unwrap(),
        PublicKey::new(seed).unwrap(),
    )
}

fn listed(instance: &mut Instance) -> ConnectionTable {
    let mut rng = rand::thread_rng();
    match instance.execute(Command::ListConnections, &mut rng) {
        Directive::Respond { response: Response::ListConnections { connections } } => connections,
        other => panic!("unexpected directive {:?}", other),
    }
}

fn only(table: &ConnectionTable) -> Connection {
    let connections = table.connections();
    assert_eq!(connections.len(), 1);
    connections[0]
}

#[test]
fn the_default_configuration() {
    let builder = InstanceBuilder::new();
    assert_eq!(builder.control_address(), Endpoint::V4 { octets: 0x7f00_0001, port: 65500 });
    assert_eq!(builder.protocol_address(), Endpoint::V4 { octets: 0, port: 6555 });
    let default = InstanceBuilder::default();
    assert_eq!(default.control_address(), builder.control_address());
    assert_eq!(default.protocol_address(), builder.protocol_address());
}

#[test]
fn the_configuration_is_set_field_by_field() {
    let control = Endpoint::V6 { segments: 1, port: 1000, flow_info: 2, scope_id: 3 };
    let protocol = Endpoint::V4 { octets: 0xc0a8_0001, port: 7000 };
    let builder = InstanceBuilder::new().set_control_address(control);
    assert_eq!(builder.control_address(), control);
    assert_eq!(builder.protocol_address(), Endpoint::V4 { octets: 0, port: 6555 });
    let builder = InstanceBuilder::new().set_protocol_address(protocol);
    assert_eq!(builder.control_address(), Endpoint::V4 { octets: 0x7f00_0001, port: 65500 });
    assert_eq!(builder.protocol_address(), protocol);
    let builder = builder.set_control_address(control);
    let instance = Instance::new(
        builder,
        PrivateKey::new(&seed_a()).unwrap(),
        PublicKey::new(&seed_a()).unwrap(),
    );
    assert_eq!(instance.control_address(), control);
    assert_eq!(instance.protocol_address(), protocol);
    assert_eq!(instance.public_key(), PublicKey::new(&seed_a()).unwrap());
}

#[test]
fn a_new_instance_lists_no_connections() {
    let mut a = instance(&seed_a());
    let table = listed(&mut a);
    assert_eq!(table.len(), 0);
    assert!(table.connections().is_empty());
    match a.list_connections() {
        Response::ListConnections { connections } => assert_eq!(connections.len(), 0),
    }
}

#[test]
fn registered_connections_are_listed_under_their_remote_identifiers() {
    let mut a = instance(&seed_a());
    let mut rng = rand::thread_rng();
    let mut identifiers = Vec::new();
    for n in 1u8..=5 {
        let public_key = PublicKey::new(&seed(n)).unwrap();
        let directive = a.execute(
            Command::AddConnection { public_key, shared_mac_secret: secret() },
            &mut rng,
        );
        assert!(matches!(directive, Directive::Continue));
        identifiers.push((x25519IDHash::new(public_key, secret()), public_key));
        assert_eq!(listed(&mut a).len(), n as usize);
    }
    let table = listed(&mut a);
    assert_eq!(table.len(), 5);
    assert_eq!(table.connections().len(), 5);
    let own = x25519IDHash::new(PublicKey::new(&seed_a()).unwrap(), secret());
    for (identifier, public_key) in &identifiers {
        let connection = table.get(identifier).unwrap();
        assert_eq!(connection.remote_x25519_id_hash, *identifier);
        assert_eq!(connection.local_x25519_id_hash, own);
        assert_eq!(connection.endpoint, None);
        assert_eq!(connection.state.public_key(), *public_key);
        assert!(!connection.state.is_established());
        assert!(!connection.state.sent_handshake());
    }
    for connection in table.connections() {
        let remote = connection.remote_x25519_id_hash;
        assert!(identifiers.iter().any(|(identifier, _)| *identifier == remote));
    }
    assert_eq!(table.get(&own), None);
}

#[test]
fn registering_a_peer_again_replaces_its_connection() {
    let mut a = instance(&seed_a());
    let public_b = PublicKey::new(&seed_b()).unwrap();
    a.add_connection(public_b, secret(), blob(1));
    a.connect(x25519IDHash::new(public_b, secret()), address_b());
    a.add_connection(public_b, secret(), blob(3));
    let table = listed(&mut a);
    assert_eq!(table.len(), 1);
    let connection = only(&table);
    assert_eq!(connection.state.local_ephemeral_blob(), blob(3));
    assert_eq!(connection.endpoint, None);
    assert!(!connection.state.sent_handshake());
}

#[test]
fn a_registered_connection_carries_a_fresh_contribution() {
    let mut a = instance(&seed_a());
    let mut rng = rand::thread_rng();
    let public_b = PublicKey::new(&seed_b()).unwrap();
    let command = Command::AddConnection { public_key: public_b, shared_mac_secret: secret() };
    a.execute(command, &mut rng);
    let first = only(&listed(&mut a)).state.local_ephemeral_blob();
    a.execute(command, &mut rng);
    let second = only(&listed(&mut a)).state.local_ephemeral_blob();
    assert_ne!(first, second);
    assert_eq!(
        only(&listed(&mut a)),
        Connection::new(PublicKey::new(&seed_a()).unwrap(), public_b, secret(), second)
    );
}

#[test]
fn a_listing_is_a_copy() {
    let mut a = instance(&seed_a());
    let public_b = PublicKey::new(&seed_b()).unwrap();
    a.add_connection(public_b, secret(), blob(1));
    let earlier = listed(&mut a);
    a.connect(x25519IDHash::new(public_b, secret()), address_b());
    a.add_connection(PublicKey::new(&seed(1)).unwrap(), secret(), blob(2));
    assert_eq!(earlier.len(), 1);
    assert_eq!(only(&earlier).endpoint, None);
    assert_eq!(listed(&mut a).len(), 2);
    let copy = earlier.snapshot();
    assert_eq!(copy.connections(), earlier.connections());
}

#[test]
fn exit_stops_the_worker_and_changes_nothing() {
    let mut rng = rand::thread_rng();
    let mut a = instance(&seed_a());
    assert!(matches!(a.execute(Command::Exit, &mut rng), Directive::Stop));
    a.add_connection(PublicKey::new(&seed_b()).unwrap(), secret(), blob(1));
    let before = listed(&mut a).connections();
    assert!(matches!(a.execute(Command::Exit, &mut rng), Directive::Stop));
    assert_eq!(listed(&mut a).connections(), before);
    assert!(matches!(a.execute(Command::Exit, &mut rng), Directive::Stop));
}

#[test]
fn connect_sends_the_handshake_to_the_endpoint() {
    let mut rng = rand::thread_rng();
    let mut a = instance(&seed_a());
    let public_b = PublicKey::new(&seed_b()).unwrap();
    a.add_connection(public_b, secret(), blob(1));
    let identifier = x25519IDHash::new(public_b, secret());
    let directive =
        a.execute(Command::Connect { x25519_id_hash: identifier, endpoint: address_b() }, &mut rng);
    let own = x25519IDHash::new(PublicKey::new(&seed_a()).unwrap(), secret());
    match directive {
        Directive::Send { endpoint, packet } => {
            assert_eq!(endpoint, address_b());
            assert_eq!(
                packet,
                Packet { hash: own, data: Data::Handshake { ephemeral_blob: blob(1) } }
            );
        },
        other => panic!("unexpected directive {:?}", other),
    }
    let connection = only(&listed(&mut a));
    assert_eq!(connection.endpoint, Some(address_b()));
    assert!(connection.state.sent_handshake());
    assert!(!connection.state.is_established());
}

#[test]
fn connect_with_an_unknown_identifier_does_nothing() {
    let mut rng = rand::thread_rng();
    let mut a = instance(&seed_a());
    let public_b = PublicKey::new(&seed_b()).unwrap();
    a.add_connection(public_b, secret(), blob(1));
    let before = listed(&mut a).connections();
    let own = x25519IDHash::new(PublicKey::new(&seed_a()).unwrap(), secret());
    let directive =
        a.execute(Command::Connect { x25519_id_hash: own, endpoint: address_b() }, &mut rng);
    assert!(matches!(directive, Directive::Continue));
    assert_eq!(a.connect(own, address_b()), None);
    assert_eq!(listed(&mut a).connections(), before);
    let mut empty = instance(&seed_b());
    assert_eq!(empty.connect(own, address_a()), None);
    assert_eq!(listed(&mut empty).len(), 0);
}

#[test]
fn datagrams_for_nobody_are_dropped() {
    let mut b = instance(&seed_b());
    let public_a = PublicKey::new(&seed_a()).unwrap();
    b.add_connection(public_a, secret(), blob(2));
    let before = listed(&mut b).connections();
    assert_eq!(b.receive(&[], address_a()), None);
    assert_eq!(b.receive(&[1, 2, 3], address_a()), None);
    assert_eq!(b.receive(&[0u8; 68], address_a()), None);
    let stranger = Packet::handshake(x25519IDHash::new(public_a, secret()), blob(1));
    let mut wrong_tag = stranger.encode();
    wrong_tag[32] = 1;
    assert_eq!(b.receive(&wrong_tag, address_a()), None);
    let mut too_long = stranger.encode();
    too_long.resize(4097, 0);
    assert_eq!(b.receive(&too_long, address_a()), None);
    let public_b = PublicKey::new(&seed_b()).unwrap();
    let own = Packet::handshake(x25519IDHash::new(public_b, secret()), blob(1));
    assert_eq!(b.receive(&own.encode(), address_a()), None);
    assert_eq!(listed(&mut b).connections(), before);
}

#[test]
fn a_responder_replies_once_and_establishes() {
    let mut b = instance(&seed_b());
    let public_a = PublicKey::new(&seed_a()).unwrap();
    let public_b = PublicKey::new(&seed_b()).unwrap();
    b.add_connection(public_a, secret(), blob(2));
    let opening = Packet::handshake(x25519IDHash::new(public_a, secret()), blob(1));
    let receipt = b.receive(&opening.encode(), address_a());
    let reply = Packet::handshake(x25519IDHash::new(public_b, secret()), blob(2));
    assert_eq!(receipt, Some(Receipt::Established { reply: Some(reply) }));
    let connection = only(&listed(&mut b));
    assert_eq!(connection.endpoint, Some(address_a()));
    let shared = SharedKey::derive(&PrivateKey::new(&seed_b()).unwrap(), &public_a).unwrap();
    assert_eq!(
        connection.state,
        State::Established {
            public_key: public_a,
            local_ephemeral_blob: blob(2),
            remote_ephemeral_blob: blob(1),
            session_key: SessionKey::derive(&shared, &blob(2), &blob(1)),
        }
    );
}

#[test]
fn a_repeated_handshake_is_a_duplicate() {
    let mut b = instance(&seed_b());
    let public_a = PublicKey::new(&seed_a()).unwrap();
    b.add_connection(public_a, secret(), blob(2));
    let opening = Packet::handshake(x25519IDHash::new(public_a, secret()), blob(1)).encode();
    assert!(matches!(b.receive(&opening, address_a()), Some(Receipt::Established { .. })));
    let established = listed(&mut b).connections();
    assert_eq!(b.receive(&opening, address_a()), Some(Receipt::Duplicate));
    assert_eq!(listed(&mut b).connections(), established);
    assert_eq!(b.receive(&opening, address_a()), Some(Receipt::Duplicate));
    assert_eq!(listed(&mut b).connections(), established);
    let other = Packet::handshake(x25519IDHash::new(public_a, secret()), blob(9)).encode();
    assert_eq!(b.receive(&other, address_a()), Some(Receipt::Duplicate));
    assert_eq!(listed(&mut b).connections(), established);
}

#[test]
fn the_endpoint_migrates_with_any_packet_for_the_connection() {
    let mut b = instance(&seed_b());
    let public_a = PublicKey::new(&seed_a()).unwrap();
    b.add_connection(public_a, secret(), blob(2));
    b.add_connection(PublicKey::new(&seed(1)).unwrap(), secret(), blob(3));
    let identifier = x25519IDHash::new(public_a, secret());
    let other = x25519IDHash::new(PublicKey::new(&seed(1)).unwrap(), secret());
    b.connect(identifier, address_a());
    let opening = Packet::handshake(identifier, blob(1)).encode();
    let moved = Endpoint::V4 { octets: 0x0a00_0063, port: 40000 };
    b.receive(&opening, moved);
    assert_eq!(listed(&mut b).get(&identifier).unwrap().endpoint, Some(moved));
    assert_eq!(listed(&mut b).get(&other).unwrap().endpoint, None);
    let state = listed(&mut b).get(&identifier).unwrap().state;
    let again = Endpoint::V6 { segments: 0xfe80 << 112, port: 1, flow_info: 0, scope_id: 2 };
    assert_eq!(b.receive(&opening, again), Some(Receipt::Duplicate));
    assert_eq!(listed(&mut b).get(&identifier).unwrap().endpoint, Some(again));
    assert_eq!(listed(&mut b).get(&identifier).unwrap().state, state);
    assert_eq!(listed(&mut b).get(&other).unwrap().endpoint, None);
}

#[test]
fn a_peer_key_without_a_shared_secret_fails_and_stays_pending() {
    let mut a = instance(&seed_a());
    let zero = PublicKey::from_bytes(&[0u8; 32]).unwrap();
    a.add_connection(zero, secret(), blob(1));
    let identifier = x25519IDHash::new(zero, secret());
    let opening = Packet::handshake(identifier, blob(2)).encode();
    let receipt = a.receive(&opening, address_b());
    assert_eq!(receipt, Some(Receipt::Failed { error: KeyError::Rejected }));
    let connection = only(&listed(&mut a));
    assert!(!connection.state.is_established());
    assert!(!connection.state.sent_handshake());
    assert_eq!(connection.state.remote_ephemeral_blob(), None);
    assert_eq!(connection.endpoint, Some(address_b()));
}

#[test]
fn two_instances_complete_a_handshake() {
    let mut rng = rand::thread_rng();
    let mut a = instance(&seed_a());
    let mut b = instance(&seed_b());
    let public_a = PublicKey::new(&seed_a()).unwrap();
    let public_b = PublicKey::new(&seed_b()).unwrap();
    let identifier_a = x25519IDHash::new(public_a, secret());
    let identifier_b = x25519IDHash::new(public_b, secret());

    let register_b = Command::AddConnection { public_key: public_b, shared_mac_secret: secret() };
    let register_a = Command::AddConnection { public_key: public_a, shared_mac_secret: secret() };
    a.execute(register_b, &mut rng);
    b.execute(register_a, &mut rng);
    assert!(listed(&mut a).get(&identifier_b).is_some());
    assert!(listed(&mut b).get(&identifier_a).is_some());
    let contribution_a = only(&listed(&mut a)).state.local_ephemeral_blob();
    let contribution_b = only(&listed(&mut b)).state.local_ephemeral_blob();

    let directive = a.execute(
        Command::Connect { x25519_id_hash: identifier_b, endpoint: address_b() },
        &mut rng,
    );
    let opening = match directive {
        Directive::Send { endpoint, packet } => {
            assert_eq!(endpoint, address_b());
            packet
        },
        other => panic!("unexpected directive {:?}", other),
    };
    assert_eq!(opening, Packet::handshake(identifier_a, contribution_a));

    let reply = match b.receive(&opening.encode(), address_a()) {
        Some(Receipt::Established { reply: Some(reply) }) => reply,
        other => panic!("unexpected receipt {:?}", other),
    };
    assert_eq!(reply, Packet::handshake(identifier_b, contribution_b));
    let at_b = only(&listed(&mut b));
    assert!(at_b.state.is_established());
    assert_eq!(at_b.state.remote_ephemeral_blob(), Some(contribution_a));
    assert_eq!(at_b.endpoint, Some(address_a()));

    let receipt = a.receive(&reply.encode(), address_b());
    assert_eq!(receipt, Some(Receipt::Established { reply: None }));
    let at_a = only(&listed(&mut a));
    assert!(at_a.state.is_established());
    assert_eq!(at_a.state.remote_ephemeral_blob(), Some(contribution_b));
    assert_eq!(at_a.endpoint, Some(address_b()));

    let key_a = at_a.state.session_key().unwrap();
    let key_b = at_b.state.session_key().unwrap();
    assert_eq!(key_a, key_b);
    assert_eq!(key_a.as_ref().len(), 32);

    let shared = SharedKey::derive(&PrivateKey::new(&seed_a()).unwrap(), &public_b).unwrap();
    let mut input = shared.as_ref().to_vec();
    if contribution_a.as_ref() <= contribution_b.as_ref() {
        input.extend_from_slice(contribution_a.as_ref());
        input.extend_from_slice(contribution_b.as_ref());
    } else {
        input.extend_from_slice(contribution_b.as_ref());
        input.extend_from_slice(contribution_a.as_ref());
    }
    assert_eq!(key_a.as_ref(), &openssl::sha::sha256(&input)[..]);
}

#[test]
fn two_instances_derive_the_expected_session_key() {
    let mut a = instance(&seed_a());
    let mut b = instance(&seed_b());
    let public_a = PublicKey::new(&seed_a()).unwrap();
    let public_b = PublicKey::new(&seed_b()).unwrap();
    a.add_connection(public_b, secret(), blob(1));
    b.add_connection(public_a, secret(), blob(2));
    let opening = a.connect(x25519IDHash::new(public_b, secret()), address_b()).unwrap();
    let reply = match b.receive(&opening.encode(), address_a()) {
        Some(Receipt::Established { reply: Some(reply) }) => reply,
        other => panic!("unexpected receipt {:?}", other),
    };
    assert_eq!(a.receive(&reply.encode(), address_b()), Some(Receipt::Established { reply: None }));
    let expected = "\"2QW2dBoKtXMWbXnuyN7epNzUNO07SaNpgMucggII/SI=\"";
    assert_eq!(only(&listed(&mut a)).state.session_key().unwrap().to_string(), expected);
    assert_eq!(only(&listed(&mut b)).state.session_key().unwrap().to_string(), expected);
}
