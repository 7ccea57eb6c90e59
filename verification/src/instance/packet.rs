//! The datagram payload and its wire format.
//!
//! ```text
//! Packet  := Identifier (32 bytes) || Message
//! Message := tag (4 bytes, little-endian index of the variant)
//!            || EphemeralBlob (32 bytes)
//! ```
//!
//! `Handshake` is the only message and has index 0. Bytes after the message
//! are ignored.

use crate::instance::EphemeralBlob;
use crate::x25519IDHash;
use vstd::prelude::*;

verus! {

/// The size of an encoded packet.
pub const WIRE_SIZE: usize = 68;

/// The size of the receive buffer. A longer datagram is never decoded.
pub const MAX_DATAGRAM_SIZE: usize = 4096;

/// What travels in one datagram: the identifier under which the receiver
/// knows the sender's connection, and a message.
#[derive(Clone, Copy, Debug, PartialEq, Eq)]
pub struct Packet {
    pub hash: x25519IDHash,
    pub data: Data,
}

/// The messages of the protocol.
#[derive(Clone, Copy, Debug, PartialEq, Eq)]
pub enum Data {
    /// The sender's contribution to the session key.
    Handshake { ephemeral_blob: EphemeralBlob },
}

/// A message as plain bytes.
pub enum DataView {
    Handshake { ephemeral_blob: Seq<u8> },
}

/// A packet as plain bytes.
pub struct PacketView {
    pub hash: Seq<u8>,
    pub data: DataView,
}

impl View for Data {
    type V = DataView;

    open spec fn view(&self) -> DataView {
        match *self {
            Data::Handshake { ephemeral_blob } => DataView::Handshake {
                ephemeral_blob: ephemeral_blob@,
            },
        }
    }
}

impl View for Packet {
    type V = PacketView;

    open spec fn view(&self) -> PacketView {
        PacketView { hash: self.hash@, data: self.data@ }
    }
}

impl PacketView {
    /// Whether identifier and contribution have their 32 bytes each, as in
    /// every packet that the program holds.
    pub open spec fn well_formed(self) -> bool {
        &&& self.hash.len() == 32
        &&& self.data->ephemeral_blob.len() == 32
    }
}

/// The tag of a `Handshake` message: the variant's index 0 as four bytes.
pub open spec fn handshake_tag() -> Seq<u8> {
    seq![0u8, 0u8, 0u8, 0u8]
}

/// The bytes of a packet on the wire.
pub open spec fn wire_bytes(packet: PacketView) -> Seq<u8> {
    packet.hash + handshake_tag() + packet.data->ephemeral_blob
}

/// Whether a datagram holds a packet: it fits the receive buffer, is long
/// enough for every field, and carries a known tag.
pub open spec fn decodable(datagram: Seq<u8>) -> bool {
    &&& WIRE_SIZE <= datagram.len() <= MAX_DATAGRAM_SIZE
    &&& datagram.subrange(32, 36) == handshake_tag()
}

/// The packet that a datagram holds, if any.
pub open spec fn parsed(datagram: Seq<u8>) -> Option<PacketView> {
    if decodable(datagram) {
        Some(
            PacketView {
                hash: datagram.subrange(0, 32),
                data: DataView::Handshake { ephemeral_blob: datagram.subrange(36, 68) },
            },
        )
    } else {
        None
    }
}

/// Decoding inverts encoding: the bytes of a packet hold that packet.
pub proof fn lemma_decode_inverts_encode(packet: PacketView)
    requires
        packet.well_formed(),
    ensures
        wire_bytes(packet).len() == WIRE_SIZE,
        parsed(wire_bytes(packet)) == Some(packet),
{
    let bytes = wire_bytes(packet);
    assert(bytes.subrange(32, 36) =~= handshake_tag());
    assert(bytes.subrange(0, 32) =~= packet.hash);
    assert(bytes.subrange(36, 68) =~= packet.data->ephemeral_blob);
}

/// Bytes after the message are ignored: a datagram that starts with the
/// bytes of a packet and still fits the receive buffer holds that packet.
pub proof fn lemma_trailing_bytes_are_ignored(packet: PacketView, rest: Seq<u8>)
    requires
        packet.well_formed(),
        WIRE_SIZE + rest.len() <= MAX_DATAGRAM_SIZE,
    ensures
        parsed(wire_bytes(packet) + rest) == Some(packet),
{
    let bytes = wire_bytes(packet) + rest;
    assert(bytes.subrange(32, 36) =~= handshake_tag());
    assert(bytes.subrange(0, 32) =~= packet.hash);
    assert(bytes.subrange(36, 68) =~= packet.data->ephemeral_blob);
}

impl Packet {
    /// A `Handshake` packet.
    pub fn handshake(hash: x25519IDHash, ephemeral_blob: EphemeralBlob) -> (packet: Self)
        ensures
            packet == (Packet { hash, data: Data::Handshake { ephemeral_blob } }),
    {
        Packet { hash, data: Data::Handshake { ephemeral_blob } }
    }

    /// The packet's 68 bytes on the wire.
    pub fn encode(&self) -> (datagram: Vec<u8>)
        ensures
            datagram@ == wire_bytes(self@),
            datagram@.len() == WIRE_SIZE,
            parsed(datagram@) == Some(self@),
    {
        let mut datagram: Vec<u8> = Vec::new();
        datagram.extend_from_slice(self.hash.as_ref());
        datagram.push(0u8);
        datagram.push(0u8);
        datagram.push(0u8);
        datagram.push(0u8);
        match &self.data {
            Data::Handshake { ephemeral_blob } => {
                datagram.extend_from_slice(ephemeral_blob.as_ref());
            },
        }
        proof {
            assert(datagram@ =~= wire_bytes(self@));
            lemma_decode_inverts_encode(self@);
        }
        datagram
    }

    /// Reads a packet from a datagram. A datagram that does not hold one is
    /// turned down without further notice.
    pub fn decode(datagram: &[u8]) -> (packet: Option<Self>)
        ensures
            match parsed(datagram@) {
                Some(view) => packet is Some && packet.unwrap()@ == view,
                None => packet is None,
            },
    {
        if datagram.len() < WIRE_SIZE || datagram.len() > MAX_DATAGRAM_SIZE {
            return None;
        }
        if datagram[32] != 0 || datagram[33] != 0 || datagram[34] != 0 || datagram[35] != 0 {
            return None;
        }
        assert(datagram@.subrange(32, 36) =~= handshake_tag());
        let hash = x25519IDHash::from_bytes(&datagram[0..32]);
        let ephemeral_blob = EphemeralBlob::from_bytes(&datagram[36..68]);
        match (hash, ephemeral_blob) {
            (Some(hash), Some(ephemeral_blob)) => Some(
                Packet { hash, data: Data::Handshake { ephemeral_blob } },
            ),
            _ => None,
        }
    }
}

} // verus!
