use peer_tunnel::instance::{Data, EphemeralBlob, Packet, MAX_DATAGRAM_SIZE, WIRE_SIZE};
use peer_tunnel::x25519IDHash;

fn sample() -> Packet {
    let hash: Vec<u8> = (0u8..32).collect();
    let blob: Vec<u8> = (100u8..132).collect();
    Packet {
        hash: x25519IDHash::from_bytes(&hash).unwrap(),
        data: Data::Handshake { ephemeral_blob: EphemeralBlob::from_bytes(&blob).unwrap() },
    }
}

fn sample_bytes() -> Vec<u8> {
    let mut bytes: Vec<u8> = (0u8..32).collect();
    bytes.extend_from_slice(&[0, 0, 0, 0]);
    bytes.extend(100u8..132);
    bytes
}

#[test]
fn wire_sizes() {
    assert_eq!(WIRE_SIZE, 68);
    assert_eq!(MAX_DATAGRAM_SIZE, 4096);
}

#[test]
fn a_packet_is_identifier_tag_and_contribution() {
    let bytes = sample().encode();
    assert_eq!(bytes.len(), 68);
    assert_eq!(bytes, sample_bytes());
}

#[test]
fn a_handshake_packet_is_built_from_its_parts() {
    let packet = sample();
    let Data::Handshake { ephemeral_blob } = packet.data;
    assert_eq!(Packet::handshake(packet.hash, ephemeral_blob), packet);
}

#[test]
fn encoding_agrees_with_bincode() {
    let hash: [u8; 32] = sample_bytes()[..32].try_into().unwrap();
    let blob: [u8; 32] = sample_bytes()[36..].try_into().unwrap();
    let expected = bincode::serialize(&(hash, 0u32, blob)).unwrap();
    assert_eq!(sample().encode(), expected);
    let (read_hash, tag, read_blob): ([u8; 32], u32, [u8; 32]) =
        bincode::deserialize(&sample().encode()).unwrap();
    assert_eq!(read_hash, hash);
    assert_eq!(tag, 0);
    assert_eq!(read_blob, blob);
}

#[test]
fn decoding_inverts_encoding() {
    assert_eq!(Packet::decode(&sample().encode()), Some(sample()));
    assert_eq!(Packet::decode(&sample_bytes()), Some(sample()));
    let mut rng = rand::thread_rng();
    let packet = Packet {
        hash: x25519IDHash::from_bytes(EphemeralBlob::new(&mut rng).as_ref()).unwrap(),
        data: Data::Handshake { ephemeral_blob: EphemeralBlob::new(&mut rng) },
    };
    assert_eq!(Packet::decode(&packet.encode()), Some(packet));
}

#[test]
fn bytes_after_the_message_are_ignored() {
    let mut bytes = sample_bytes();
    bytes.push(0xaa);
    assert_eq!(Packet::decode(&bytes), Some(sample()));
    bytes.resize(4096, 0);
    assert_eq!(Packet::decode(&bytes), Some(sample()));
}

#[test]
fn a_datagram_longer_than_the_receive_buffer_is_not_decoded() {
    let mut bytes = sample_bytes();
    bytes.resize(4097, 0);
    assert_eq!(Packet::decode(&bytes), None);
    bytes.resize(10000, 0);
    assert_eq!(Packet::decode(&bytes), None);
}

#[test]
fn a_datagram_shorter_than_a_packet_is_not_decoded() {
    let bytes = sample_bytes();
    assert_eq!(Packet::decode(&bytes[..67]), None);
    assert_eq!(Packet::decode(&bytes[..36]), None);
    assert_eq!(Packet::decode(&bytes[..32]), None);
    assert_eq!(Packet::decode(&[]), None);
}

#[test]
fn a_datagram_with_an_unknown_tag_is_not_decoded() {
    for position in 32..36 {
        let mut bytes = sample_bytes();
        bytes[position] = 1;
        assert_eq!(Packet::decode(&bytes), None);
        bytes[position] = 0xff;
        assert_eq!(Packet::decode(&bytes), None);
    }
    let mut bytes = sample_bytes();
    bytes[31] = 0xff;
    bytes[36] = 0xff;
    assert!(Packet::decode(&bytes).is_some());
}

#[test]
fn an_all_zero_datagram_is_a_handshake_of_zeros() {
    let packet = Packet::decode(&[0u8; 68]).unwrap();
    assert_eq!(packet.hash.as_ref(), &[0u8; 32][..]);
    let Data::Handshake { ephemeral_blob } = packet.data;
    assert_eq!(ephemeral_blob.as_ref(), &[0u8; 32][..]);
}
