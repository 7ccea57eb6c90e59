//! One peer connection and its handshake.
//!
//! A connection is `Pending` from its registration until the peer's
//! contribution arrives and the session key is derived; from then on it is
//! `Established`, for good. Whatever arrives for a connection moves its
//! endpoint to the sender's address.

use crate::instance::{
    session_key, DataView, Endpoint, EphemeralBlob, Packet, PacketView, SessionKey,
};
use crate::x25519::curve25519::{refused, KeyError};
use crate::x25519::{shared_secret, PrivateKey, PublicKey, SharedKey};
use crate::x25519_id_hash::identifier;
use crate::{x25519IDHash, SharedMacSecret};
use vstd::prelude::*;

verus! {

/// How far the handshake of a connection has come.
#[derive(Clone, Copy, Debug, PartialEq, Eq)]
pub enum State {
    /// The peer's contribution has not arrived yet.
    Pending {
        /// The peer's static public key.
        public_key: PublicKey,
        /// Our contribution, drawn when the connection was registered.
        local_ephemeral_blob: EphemeralBlob,
        /// Whether our handshake has been sent.
        sent_handshake: bool,
    },
    /// Both contributions are known and the session key is derived. Our
    /// handshake has been sent.
    Established {
        public_key: PublicKey,
        local_ephemeral_blob: EphemeralBlob,
        remote_ephemeral_blob: EphemeralBlob,
        session_key: SessionKey,
    },
}

/// A peer connection.
#[derive(Clone, Copy, Debug, PartialEq, Eq)]
pub struct Connection {
    /// Our identifier, which tags what we send to the peer.
    pub local_x25519_id_hash: x25519IDHash,
    /// The peer's identifier, which tags what the peer sends to us.
    pub remote_x25519_id_hash: x25519IDHash,
    /// Where the peer was last heard from, or where we were told to reach it.
    pub endpoint: Option<Endpoint>,
    pub state: State,
}

/// The state of a handshake as plain bytes.
pub enum StateView {
    Pending { public_key: Seq<u8>, local_ephemeral_blob: Seq<u8>, sent_handshake: bool },
    Established {
        public_key: Seq<u8>,
        local_ephemeral_blob: Seq<u8>,
        remote_ephemeral_blob: Seq<u8>,
        session_key: Seq<u8>,
    },
}

/// A connection as plain bytes.
pub struct ConnectionView {
    pub local_x25519_id_hash: Seq<u8>,
    pub remote_x25519_id_hash: Seq<u8>,
    pub endpoint: Option<Endpoint>,
    pub state: StateView,
}

/// What the arrival of a handshake led to.
#[derive(Clone, Copy, Debug, PartialEq, Eq)]
pub enum Receipt {
    /// The peer's contribution was recorded and the session key derived.
    /// `reply` is our own handshake, to be sent to the sender, if it had not
    /// been sent before.
    Established { reply: Option<Packet> },
    /// The connection was established already; the handshake is a duplicate
    /// or a replay and changed nothing but the endpoint.
    Duplicate,
    /// Key agreement with the peer failed; the connection stays pending.
    Failed { error: KeyError },
}

/// A receipt as plain bytes.
pub enum ReceiptView {
    Established { reply: Option<PacketView> },
    Duplicate,
    Failed { error: KeyError },
}

impl View for State {
    type V = StateView;

    open spec fn view(&self) -> StateView {
        match *self {
            State::Pending {
                public_key,
                local_ephemeral_blob,
                sent_handshake,
            } => StateView::Pending {
                public_key: public_key@,
                local_ephemeral_blob: local_ephemeral_blob@,
                sent_handshake,
            },
            State::Established {
                public_key,
                local_ephemeral_blob,
                remote_ephemeral_blob,
                session_key,
            } => StateView::Established {
                public_key: public_key@,
                local_ephemeral_blob: local_ephemeral_blob@,
                remote_ephemeral_blob: remote_ephemeral_blob@,
                session_key: session_key@,
            },
        }
    }
}

impl View for Connection {
    type V = ConnectionView;

    open spec fn view(&self) -> ConnectionView {
        ConnectionView {
            local_x25519_id_hash: self.local_x25519_id_hash@,
            remote_x25519_id_hash: self.remote_x25519_id_hash@,
            endpoint: self.endpoint,
            state: self.state@,
        }
    }
}

/// An optional packet as plain bytes.
pub open spec fn packet_view(packet: Option<Packet>) -> Option<PacketView> {
    match packet {
        Some(packet) => Some(packet@),
        None => None,
    }
}

/// The outcome of key agreement as plain bytes.
pub open spec fn agreement_view(agreement: Result<SharedKey, KeyError>) -> Result<
    Seq<u8>,
    KeyError,
> {
    match agreement {
        Ok(shared_key) => Ok(shared_key@),
        Err(error) => Err(error),
    }
}

/// The outcome of key agreement that a receipt tells of, given the secret
/// that a successful agreement yields. Behind a duplicate there is none, and
/// none matters: any outcome stands for it.
pub open spec fn agreement_behind(receipt: Receipt, secret: Seq<u8>) -> Result<Seq<u8>, KeyError> {
    match receipt {
        Receipt::Established { .. } => Ok(secret),
        Receipt::Duplicate => Err(KeyError::Rejected),
        Receipt::Failed { error } => Err(error),
    }
}

impl View for Receipt {
    type V = ReceiptView;

    open spec fn view(&self) -> ReceiptView {
        match *self {
            Receipt::Established { reply } => ReceiptView::Established {
                reply: packet_view(reply),
            },
            Receipt::Duplicate => ReceiptView::Duplicate,
            Receipt::Failed { error } => ReceiptView::Failed { error },
        }
    }
}

impl StateView {
    /// The peer's static public key.
    pub open spec fn public_key(self) -> Seq<u8> {
        match self {
            StateView::Pending { public_key, .. } => public_key,
            StateView::Established { public_key, .. } => public_key,
        }
    }

    /// Our contribution, which every connection has from the start.
    pub open spec fn local_ephemeral_blob(self) -> Seq<u8> {
        match self {
            StateView::Pending { local_ephemeral_blob, .. } => local_ephemeral_blob,
            StateView::Established { local_ephemeral_blob, .. } => local_ephemeral_blob,
        }
    }

    /// The peer's contribution, once it has arrived.
    pub open spec fn remote_ephemeral_blob(self) -> Option<Seq<u8>> {
        match self {
            StateView::Pending { .. } => None,
            StateView::Established { remote_ephemeral_blob, .. } => Some(remote_ephemeral_blob),
        }
    }

    /// Whether our handshake has been sent.
    pub open spec fn sent_handshake(self) -> bool {
        match self {
            StateView::Pending { sent_handshake, .. } => sent_handshake,
            StateView::Established { .. } => true,
        }
    }

    /// The session key, once it is derived.
    pub open spec fn session_key(self) -> Option<Seq<u8>> {
        match self {
            StateView::Pending { .. } => None,
            StateView::Established { session_key, .. } => Some(session_key),
        }
    }
}

impl ConnectionView {
    /// The connection that we, holding `own_public_key`, register for the
    /// peer holding `peer_public_key`: pending, without an endpoint, its two
    /// identifiers hashed from the two public keys and the shared secret.
    pub open spec fn registered(
        own_public_key: Seq<u8>,
        peer_public_key: Seq<u8>,
        shared_mac_secret: Seq<u8>,
        local_ephemeral_blob: Seq<u8>,
    ) -> ConnectionView {
        ConnectionView {
            local_x25519_id_hash: identifier(own_public_key, shared_mac_secret),
            remote_x25519_id_hash: identifier(peer_public_key, shared_mac_secret),
            endpoint: None,
            state: StateView::Pending {
                public_key: peer_public_key,
                local_ephemeral_blob,
                sent_handshake: false,
            },
        }
    }

    /// The connection after something arrived for it from `sender`.
    pub open spec fn seen_from(self, sender: Endpoint) -> ConnectionView {
        ConnectionView { endpoint: Some(sender), ..self }
    }

    /// Our handshake: our contribution under our identifier.
    pub open spec fn handshake(self) -> PacketView {
        PacketView {
            hash: self.local_x25519_id_hash,
            data: DataView::Handshake { ephemeral_blob: self.state.local_ephemeral_blob() },
        }
    }

    /// Whether we may still open the handshake ourselves.
    pub open spec fn may_initiate(self) -> bool {
        self.state is Pending
    }

    /// The connection after we were told to reach the peer at `endpoint`.
    /// Only a pending connection takes the endpoint and counts our handshake
    /// as sent.
    pub open spec fn initiated(self, endpoint: Endpoint) -> ConnectionView {
        match self.state {
            StateView::Pending {
                public_key,
                local_ephemeral_blob,
                ..
            } => ConnectionView {
                endpoint: Some(endpoint),
                state: StateView::Pending {
                    public_key,
                    local_ephemeral_blob,
                    sent_handshake: true,
                },
                ..self
            },
            StateView::Established { .. } => self,
        }
    }

    /// The connection after a handshake with contribution `ephemeral_blob`
    /// arrived from `sender`, where `agreement` is the outcome of key
    /// agreement with the peer.
    ///
    /// The endpoint moves to the sender in every case. A pending connection
    /// becomes established when the agreement gave a key, and stays as it is
    /// when it gave none. An established connection keeps its contributions
    /// and its session key.
    pub open spec fn accepted(
        self,
        ephemeral_blob: Seq<u8>,
        sender: Endpoint,
        agreement: Result<Seq<u8>, KeyError>,
    ) -> ConnectionView {
        match (self.state, agreement) {
            (
                StateView::Pending { public_key, local_ephemeral_blob, .. },
                Ok(shared_key),
            ) => ConnectionView {
                endpoint: Some(sender),
                state: StateView::Established {
                    public_key,
                    local_ephemeral_blob,
                    remote_ephemeral_blob: ephemeral_blob,
                    session_key: session_key(shared_key, local_ephemeral_blob, ephemeral_blob),
                },
                ..self
            },
            _ => self.seen_from(sender),
        }
    }

    /// What the arrival of a handshake leads to, where `agreement` is the
    /// outcome of key agreement with the peer. A pending connection whose
    /// handshake has not been sent replies with it, exactly once.
    pub open spec fn receipt(self, agreement: Result<Seq<u8>, KeyError>) -> ReceiptView {
        match (self.state, agreement) {
            (StateView::Pending { sent_handshake, .. }, Ok(_)) => ReceiptView::Established {
                reply: if sent_handshake {
                    None
                } else {
                    Some(self.handshake())
                },
            },
            (StateView::Pending { .. }, Err(error)) => ReceiptView::Failed { error },
            (StateView::Established { .. }, _) => ReceiptView::Duplicate,
        }
    }
}

impl State {
    /// The peer's static public key.
    pub fn public_key(&self) -> (key: PublicKey)
        ensures
            key@ == self@.public_key(),
    {
        match self {
            State::Pending { public_key, .. } => *public_key,
            State::Established { public_key, .. } => *public_key,
        }
    }

    /// Our contribution.
    pub fn local_ephemeral_blob(&self) -> (blob: EphemeralBlob)
        ensures
            blob@ == self@.local_ephemeral_blob(),
    {
        match self {
            State::Pending { local_ephemeral_blob, .. } => *local_ephemeral_blob,
            State::Established { local_ephemeral_blob, .. } => *local_ephemeral_blob,
        }
    }

    /// The peer's contribution, once it has arrived.
    pub fn remote_ephemeral_blob(&self) -> (blob: Option<EphemeralBlob>)
        ensures
            match self@.remote_ephemeral_blob() {
                Some(bytes) => blob is Some && blob.unwrap()@ == bytes,
                None => blob is None,
            },
    {
        match self {
            State::Pending { .. } => None,
            State::Established { remote_ephemeral_blob, .. } => Some(*remote_ephemeral_blob),
        }
    }

    /// Whether our handshake has been sent.
    pub fn sent_handshake(&self) -> (sent: bool)
        ensures
            sent == self@.sent_handshake(),
    {
        match self {
            State::Pending { sent_handshake, .. } => *sent_handshake,
            State::Established { .. } => true,
        }
    }

    /// The session key, once it is derived.
    pub fn session_key(&self) -> (key: Option<SessionKey>)
        ensures
            match self@.session_key() {
                Some(bytes) => key is Some && key.unwrap()@ == bytes,
                None => key is None,
            },
    {
        match self {
            State::Pending { .. } => None,
            State::Established { session_key, .. } => Some(*session_key),
        }
    }

    /// Whether the handshake is complete.
    pub fn is_established(&self) -> (established: bool)
        ensures
            established == (self@ is Established),
    {
        match self {
            State::Pending { .. } => false,
            State::Established { .. } => true,
        }
    }
}

impl Connection {
    /// Registers a connection to the peer holding `peer_public_key`.
    pub fn new(
        own_public_key: PublicKey,
        peer_public_key: PublicKey,
        shared_mac_secret: SharedMacSecret,
        local_ephemeral_blob: EphemeralBlob,
    ) -> (connection: Self)
        ensures
            connection@ == ConnectionView::registered(
                own_public_key@,
                peer_public_key@,
                shared_mac_secret@,
                local_ephemeral_blob@,
            ),
    {
        Connection {
            local_x25519_id_hash: x25519IDHash::new(own_public_key, shared_mac_secret),
            remote_x25519_id_hash: x25519IDHash::new(peer_public_key, shared_mac_secret),
            endpoint: None,
            state: State::Pending {
                public_key: peer_public_key,
                local_ephemeral_blob,
                sent_handshake: false,
            },
        }
    }

    /// Our handshake packet.
    pub fn handshake(&self) -> (packet: Packet)
        ensures
            packet@ == self@.handshake(),
    {
        Packet::handshake(self.local_x25519_id_hash, self.state.local_ephemeral_blob())
    }

    /// Opens the handshake towards `endpoint`. A pending connection takes
    /// the endpoint and returns our handshake, which is to be sent there; an
    /// established one stays as it is and returns nothing.
    pub fn initiate(&mut self, endpoint: Endpoint) -> (packet: Option<Packet>)
        ensures
            final(self)@ == old(self)@.initiated(endpoint),
            packet_view(packet) == if old(self)@.may_initiate() {
                Some(old(self)@.handshake())
            } else {
                None
            },
    {
        match self.state {
            State::Pending { public_key, local_ephemeral_blob, .. } => {
                self.endpoint = Some(endpoint);
                self.state =
                State::Pending { public_key, local_ephemeral_blob, sent_handshake: true };
                Some(Packet::handshake(self.local_x25519_id_hash, local_ephemeral_blob))
            },
            State::Established { .. } => None,
        }
    }

    /// Takes in a handshake with contribution `ephemeral_blob` that arrived
    /// from `sender`, given the outcome of key agreement with the peer.
    pub fn accept(
        &mut self,
        ephemeral_blob: EphemeralBlob,
        sender: Endpoint,
        agreement: Result<SharedKey, KeyError>,
    ) -> (receipt: Receipt)
        ensures
            final(self)@ == old(self)@.accepted(
                ephemeral_blob@,
                sender,
                agreement_view(agreement),
            ),
            receipt@ == old(self)@.receipt(agreement_view(agreement)),
    {
        self.endpoint = Some(sender);
        match self.state {
            State::Pending { public_key, local_ephemeral_blob, sent_handshake } => {
                match agreement {
                    Ok(shared_key) => {
                        let session_key = SessionKey::derive(
                            &shared_key,
                            &local_ephemeral_blob,
                            &ephemeral_blob,
                        );
                        self.state =
                        State::Established {
                            public_key,
                            local_ephemeral_blob,
                            remote_ephemeral_blob: ephemeral_blob,
                            session_key,
                        };
                        let reply = if sent_handshake {
                            None
                        } else {
                            Some(Packet::handshake(self.local_x25519_id_hash, local_ephemeral_blob))
                        };
                        Receipt::Established { reply }
                    },
                    Err(error) => Receipt::Failed { error },
                }
            },
            State::Established { .. } => Receipt::Duplicate,
        }
    }

    /// Takes in a handshake with contribution `ephemeral_blob` that arrived
    /// from `sender`. Key agreement with the peer is attempted only while
    /// the connection is pending.
    ///
    /// An established connection answers `Duplicate`. For a pending one the
    /// answer depends on OpenSSL: `Established` when it gave the shared
    /// secret, `Failed` when it gave none. Either way the connection is what
    /// `accept` makes of it for the outcome that the receipt tells of.
    pub fn receive_handshake(
        &mut self,
        private_key: &PrivateKey,
        ephemeral_blob: EphemeralBlob,
        sender: Endpoint,
    ) -> (receipt: Receipt)
        ensures
            ({
                let secret = shared_secret(private_key@, old(self)@.state.public_key());
                let agreement = agreement_behind(receipt, secret);
                &&& final(self)@ == old(self)@.accepted(ephemeral_blob@, sender, agreement)
                &&& receipt@ == old(self)@.receipt(agreement)
                &&& receipt matches Receipt::Failed { error } ==> refused(error, secret, 32)
            }),
    {
        match self.state {
            State::Pending { public_key, .. } => {
                let agreement = SharedKey::derive(private_key, &public_key);
                self.accept(ephemeral_blob, sender, agreement)
            },
            State::Established { .. } => {
                self.endpoint = Some(sender);
                Receipt::Duplicate
            },
        }
    }
}

/// Two peers who register each other with the same secret know each other
/// by complementary identifiers: what one side holds as its local
/// identifier, the other holds as the remote one, and the other way round.
pub proof fn lemma_identifiers_are_complementary(
    first_public_key: Seq<u8>,
    second_public_key: Seq<u8>,
    shared_mac_secret: Seq<u8>,
    first_ephemeral_blob: Seq<u8>,
    second_ephemeral_blob: Seq<u8>,
)
    ensures
        ({
            let at_first = ConnectionView::registered(
                first_public_key,
                second_public_key,
                shared_mac_secret,
                first_ephemeral_blob,
            );
            let at_second = ConnectionView::registered(
                second_public_key,
                first_public_key,
                shared_mac_secret,
                second_ephemeral_blob,
            );
            &&& at_first.local_x25519_id_hash == at_second.remote_x25519_id_hash
            &&& at_first.remote_x25519_id_hash == at_second.local_x25519_id_hash
            &&& at_first.handshake().hash == at_second.remote_x25519_id_hash
        }),
{
}

/// Whatever handshake arrives for a connection, and whatever comes of it,
/// the connection's endpoint is the sender's address afterwards, and its
/// identifiers are what they were.
pub proof fn lemma_endpoint_follows_sender(
    connection: ConnectionView,
    ephemeral_blob: Seq<u8>,
    sender: Endpoint,
    agreement: Result<Seq<u8>, KeyError>,
)
    ensures
        ({
            let after = connection.accepted(ephemeral_blob, sender, agreement);
            &&& after.endpoint == Some(sender)
            &&& after.local_x25519_id_hash == connection.local_x25519_id_hash
            &&& after.remote_x25519_id_hash == connection.remote_x25519_id_hash
        }),
{
}

/// A handshake that arrives for a connection which has the peer's
/// contribution already is a duplicate: it changes neither that
/// contribution nor the session key nor anything else but the endpoint, and
/// when it arrives once more from the same sender it changes nothing at all.
pub proof fn lemma_duplicate_handshake_changes_nothing(
    connection: ConnectionView,
    ephemeral_blob: Seq<u8>,
    sender: Endpoint,
    agreement: Result<Seq<u8>, KeyError>,
    next_agreement: Result<Seq<u8>, KeyError>,
)
    requires
        connection.state.remote_ephemeral_blob() is Some,
    ensures
        ({
            let once = connection.accepted(ephemeral_blob, sender, agreement);
            let twice = once.accepted(ephemeral_blob, sender, next_agreement);
            &&& connection.receipt(agreement) is Duplicate
            &&& once == connection.seen_from(sender)
            &&& once.state == connection.state
            &&& twice == once
        }),
{
}

/// Once a handshake has established a connection, the same handshake from
/// the same sender changes nothing, whatever key agreement would give now.
pub proof fn lemma_handshake_is_idempotent(
    connection: ConnectionView,
    ephemeral_blob: Seq<u8>,
    sender: Endpoint,
    shared_key: Seq<u8>,
    next_agreement: Result<Seq<u8>, KeyError>,
)
    ensures
        ({
            let once = connection.accepted(
                ephemeral_blob,
                sender,
                Ok::<Seq<u8>, KeyError>(shared_key),
            );
            let twice = once.accepted(ephemeral_blob, sender, next_agreement);
            &&& once.state is Established
            &&& twice == once
            &&& once.receipt(next_agreement) is Duplicate
        }),
{
}

/// An established connection stays established, and no connection ever
/// changes its identifiers, the peer's public key or its own contribution:
/// neither a handshake that arrives nor an order to open one does.
pub proof fn lemma_established_is_terminal(
    connection: ConnectionView,
    ephemeral_blob: Seq<u8>,
    endpoint: Endpoint,
    agreement: Result<Seq<u8>, KeyError>,
)
    ensures
        ({
            let accepted = connection.accepted(ephemeral_blob, endpoint, agreement);
            let initiated = connection.initiated(endpoint);
            &&& connection.state is Established ==> accepted.state == connection.state
                && initiated == connection
            &&& accepted.state.local_ephemeral_blob() == connection.state.local_ephemeral_blob()
            &&& initiated.state.local_ephemeral_blob() == connection.state.local_ephemeral_blob()
            &&& accepted.state.public_key() == connection.state.public_key()
            &&& initiated.state.public_key() == connection.state.public_key()
            &&& accepted.remote_x25519_id_hash == connection.remote_x25519_id_hash
            &&& initiated.remote_x25519_id_hash == connection.remote_x25519_id_hash
            &&& accepted.local_x25519_id_hash == connection.local_x25519_id_hash
            &&& initiated.local_x25519_id_hash == connection.local_x25519_id_hash
            &&& initiated.state.remote_ephemeral_blob() == connection.state.remote_ephemeral_blob()
        }),
{
}

/// Both ends of a completed handshake hold the same session key, provided
/// that key agreement gave both the same secret: each end mixes its own and
/// the other's contribution into it.
pub proof fn lemma_peers_derive_the_same_session_key(
    first: ConnectionView,
    second: ConnectionView,
    first_sender: Endpoint,
    second_sender: Endpoint,
    shared_key: Seq<u8>,
)
    requires
        first.state is Pending,
        second.state is Pending,
    ensures
        ({
            let agreement = Ok::<Seq<u8>, KeyError>(shared_key);
            let at_first = first.accepted(
                second.state.local_ephemeral_blob(),
                first_sender,
                agreement,
            );
            let at_second = second.accepted(
                first.state.local_ephemeral_blob(),
                second_sender,
                agreement,
            );
            &&& at_first.state.session_key() is Some
            &&& at_first.state.session_key() == at_second.state.session_key()
        }),
{
    crate::instance::lemma_session_key_is_symmetric(
        shared_key,
        first.state.local_ephemeral_blob(),
        second.state.local_ephemeral_blob(),
    );
}

} // verus!
