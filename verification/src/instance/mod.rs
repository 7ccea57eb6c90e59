//! The instance: its connections, the packets they exchange, and the
//! commands that control it.
//!
//! An instance owns a static key pair and the connection table, and is the
//! only one to change them. It does no I/O: `receive` takes a datagram that
//! a socket delivered, `execute` a command that a channel delivered, and
//! each answers with what the caller has to send.

mod command;
mod connection;
mod endpoint;
mod ephemeral_blob;
mod lemmas;
mod packet;
mod response;
mod session_key;
mod table;

pub use command::Command;
pub use connection::{
    agreement_behind, agreement_view, lemma_duplicate_handshake_changes_nothing,
    lemma_endpoint_follows_sender, lemma_established_is_terminal, lemma_handshake_is_idempotent,
    lemma_identifiers_are_complementary, lemma_peers_derive_the_same_session_key, packet_view,
    Connection, ConnectionView, Receipt, ReceiptView, State, StateView,
};
pub use endpoint::Endpoint;
pub use ephemeral_blob::EphemeralBlob;
pub use lemmas::{
    lemma_datagram_is_idempotent, lemma_duplicate_datagram_changes_nothing,
    lemma_endpoint_migrates, lemma_instance_stays_well_formed, lemma_registrations_are_listed,
    remote_identifiers, Registration,
};
pub use packet::{
    decodable, handshake_tag, lemma_decode_inverts_encode, lemma_trailing_bytes_are_ignored,
    parsed, wire_bytes, Data, DataView, Packet, PacketView, MAX_DATAGRAM_SIZE, WIRE_SIZE,
};
pub use response::Response;
pub use session_key::{
    canonical_order, lemma_canonical_order_is_symmetric, lemma_session_key_is_symmetric,
    session_key, SessionKey,
};
pub use table::{keys_of, well_keyed, ConnectionTable};

use crate::x25519::curve25519::{refused, KeyError};
use crate::x25519::{shared_secret, PrivateKey, PublicKey};
use crate::x25519_id_hash::identifier;
use crate::{x25519IDHash, SharedMacSecret};
use rand::rngs::ThreadRng;
use vstd::prelude::*;

verus! {

/// The two addresses an instance is configured with.
pub struct InstanceBuilderView {
    pub control_address: Endpoint,
    pub protocol_address: Endpoint,
}

/// The configuration of an instance, fixed when the instance is made.
#[derive(Clone, Copy, Debug)]
pub struct InstanceBuilder {
    control_address: Endpoint,
    protocol_address: Endpoint,
}

impl View for InstanceBuilder {
    type V = InstanceBuilderView;

    closed spec fn view(&self) -> InstanceBuilderView {
        InstanceBuilderView {
            control_address: self.control_address,
            protocol_address: self.protocol_address,
        }
    }
}

/// The control address of an instance that was given none: 127.0.0.1:65500.
pub open spec fn default_control_address() -> Endpoint {
    Endpoint::V4 { octets: 0x7f00_0001, port: 65500 }
}

/// The protocol address of an instance that was given none: 0.0.0.0:6555.
pub open spec fn default_protocol_address() -> Endpoint {
    Endpoint::V4 { octets: 0, port: 6555 }
}

impl Default for InstanceBuilder {
    fn default() -> (builder: Self)
        ensures
            builder@.control_address == default_control_address(),
            builder@.protocol_address == default_protocol_address(),
    {
        InstanceBuilder {
            control_address: Endpoint::V4 { octets: 0x7f00_0001, port: 65500 },
            protocol_address: Endpoint::V4 { octets: 0, port: 6555 },
        }
    }
}

impl InstanceBuilder {
    /// The default configuration.
    pub fn new() -> (builder: Self)
        ensures
            builder@.control_address == default_control_address(),
            builder@.protocol_address == default_protocol_address(),
    {
        InstanceBuilder::default()
    }

    /// The address reserved for a control channel from outside the process.
    pub fn set_control_address(self, control_address: Endpoint) -> (builder: Self)
        ensures
            builder@ == (InstanceBuilderView { control_address, ..self@ }),
    {
        InstanceBuilder { control_address, protocol_address: self.protocol_address }
    }

    /// The address that the protocol socket binds to.
    pub fn set_protocol_address(self, protocol_address: Endpoint) -> (builder: Self)
        ensures
            builder@ == (InstanceBuilderView { protocol_address, ..self@ }),
    {
        InstanceBuilder { control_address: self.control_address, protocol_address }
    }

    pub fn control_address(&self) -> (address: Endpoint)
        ensures
            address == self@.control_address,
    {
        self.control_address
    }

    pub fn protocol_address(&self) -> (address: Endpoint)
        ensures
            address == self@.protocol_address,
    {
        self.protocol_address
    }
}

/// An instance as plain values: its addresses, its key pair, and the
/// connections under their remote identifiers.
pub struct InstanceView {
    pub control_address: Endpoint,
    pub protocol_address: Endpoint,
    pub private_key: Seq<u8>,
    pub public_key: Seq<u8>,
    pub connections: Map<Seq<u8>, ConnectionView>,
}

impl InstanceView {
    /// What holds of every instance: each connection stands under its own
    /// remote identifier, the one that tags what its peer sends.
    pub open spec fn well_formed(self) -> bool {
        well_keyed(self.connections)
    }

    /// The instance after registering a connection to the peer holding
    /// `public_key`, with `local_ephemeral_blob` as our contribution. The
    /// connection stands under the peer's identifier and takes the place of
    /// any that stood there.
    pub open spec fn with_connection(
        self,
        public_key: Seq<u8>,
        shared_mac_secret: Seq<u8>,
        local_ephemeral_blob: Seq<u8>,
    ) -> InstanceView {
        InstanceView {
            connections: self.connections.insert(
                identifier(public_key, shared_mac_secret),
                ConnectionView::registered(
                    self.public_key,
                    public_key,
                    shared_mac_secret,
                    local_ephemeral_blob,
                ),
            ),
            ..self
        }
    }

    /// The instance after it was told to open the handshake of the
    /// connection under `x25519_id_hash` towards `endpoint`. An identifier
    /// that no connection stands under changes nothing.
    pub open spec fn connected(self, x25519_id_hash: Seq<u8>, endpoint: Endpoint) -> InstanceView {
        if self.connections.contains_key(x25519_id_hash) {
            InstanceView {
                connections: self.connections.insert(
                    x25519_id_hash,
                    self.connections[x25519_id_hash].initiated(endpoint),
                ),
                ..self
            }
        } else {
            self
        }
    }

    /// The handshake that `connected` has the caller send, if any.
    pub open spec fn opening(self, x25519_id_hash: Seq<u8>) -> Option<PacketView> {
        if self.connections.contains_key(x25519_id_hash)
            && self.connections[x25519_id_hash].may_initiate() {
            Some(self.connections[x25519_id_hash].handshake())
        } else {
            None
        }
    }

    /// The packet in `datagram` if it holds one for a connection of this
    /// instance. Every other datagram is dropped.
    pub open spec fn addressed(self, datagram: Seq<u8>) -> Option<PacketView> {
        match parsed(datagram) {
            Some(packet) => if self.connections.contains_key(packet.hash) {
                Some(packet)
            } else {
                None
            },
            None => None,
        }
    }

    /// The instance after `datagram` arrived from `sender`, where
    /// `agreement` is the outcome of key agreement with the peer that the
    /// datagram is from. A dropped datagram changes nothing; any other moves
    /// the endpoint of its connection to `sender`.
    pub open spec fn received(
        self,
        datagram: Seq<u8>,
        sender: Endpoint,
        agreement: Result<Seq<u8>, KeyError>,
    ) -> InstanceView {
        match self.addressed(datagram) {
            Some(packet) => InstanceView {
                connections: self.connections.insert(
                    packet.hash,
                    self.connections[packet.hash].accepted(
                        packet.data->ephemeral_blob,
                        sender,
                        agreement,
                    ),
                ),
                ..self
            },
            None => self,
        }
    }
}

/// What the caller has to do after a command.
#[derive(Debug)]
pub enum Directive {
    /// Nothing; go on.
    Continue,
    /// Send this packet to this endpoint, then go on.
    Send { endpoint: Endpoint, packet: Packet },
    /// Hand this response to whoever gave the command, then go on.
    Respond { response: Response },
    /// Stop working.
    Stop,
}

/// The runtime state of the tunnel: a static key pair and the connections.
pub struct Instance {
    control_address: Endpoint,
    protocol_address: Endpoint,
    private_key: PrivateKey,
    public_key: PublicKey,
    connections: ConnectionTable,
}

impl View for Instance {
    type V = InstanceView;

    closed spec fn view(&self) -> InstanceView {
        InstanceView {
            control_address: self.control_address,
            protocol_address: self.protocol_address,
            private_key: self.private_key@,
            public_key: self.public_key@,
            connections: self.connections@,
        }
    }
}

impl Instance {
    #[verifier::type_invariant]
    spec fn keyed_by_remote_identifier(self) -> bool {
        well_keyed(self.connections@)
    }

    /// An instance with the given configuration and key pair, and no
    /// connections.
    pub fn new(
        instance_builder: InstanceBuilder,
        private_key: PrivateKey,
        public_key: PublicKey,
    ) -> (instance: Self)
        ensures
            instance@ == (InstanceView {
                control_address: instance_builder@.control_address,
                protocol_address: instance_builder@.protocol_address,
                private_key: private_key@,
                public_key: public_key@,
                connections: Map::empty(),
            }),
            instance@.well_formed(),
    {
        Instance {
            control_address: instance_builder.control_address,
            protocol_address: instance_builder.protocol_address,
            private_key,
            public_key,
            connections: ConnectionTable::new(),
        }
    }

    pub fn control_address(&self) -> (address: Endpoint)
        ensures
            address == self@.control_address,
    {
        self.control_address
    }

    pub fn protocol_address(&self) -> (address: Endpoint)
        ensures
            address == self@.protocol_address,
    {
        self.protocol_address
    }

    pub fn public_key(&self) -> (key: PublicKey)
        ensures
            key@ == self@.public_key,
    {
        self.public_key
    }

    /// The connection registered under `x25519_id_hash`, if there is one.
    pub fn connection(&self, x25519_id_hash: &x25519IDHash) -> (connection: Option<Connection>)
        ensures
            match connection {
                Some(found) => {
                    &&& self@.connections.contains_key(x25519_id_hash@)
                    &&& found@ == self@.connections[x25519_id_hash@]
                },
                None => !self@.connections.contains_key(x25519_id_hash@),
            },
    {
        self.connections.get(x25519_id_hash)
    }

    /// Registers a connection to the peer holding `public_key`, with
    /// `local_ephemeral_blob` as our contribution to its handshake.
    pub fn add_connection(
        &mut self,
        public_key: PublicKey,
        shared_mac_secret: SharedMacSecret,
        local_ephemeral_blob: EphemeralBlob,
    )
        ensures
            final(self)@ == old(self)@.with_connection(
                public_key@,
                shared_mac_secret@,
                local_ephemeral_blob@,
            ),
            final(self)@.well_formed(),
    {
        let connection = Connection::new(
            self.public_key,
            public_key,
            shared_mac_secret,
            local_ephemeral_blob,
        );
        self.put(connection);
    }

    /// Puts `connection` into the table, under its remote identifier.
    fn put(&mut self, connection: Connection)
        ensures
            final(self)@ == (InstanceView {
                connections: old(self)@.connections.insert(
                    connection.remote_x25519_id_hash@,
                    connection@,
                ),
                ..old(self)@
            }),
            final(self)@.well_formed(),
    {
        let mut connections = ConnectionTable::new();
        std::mem::swap(&mut connections, &mut self.connections);
        connections.insert(connection);
        self.connections = connections;
    }

    /// Opens the handshake of the connection under `x25519_id_hash` towards
    /// `endpoint`, and returns the packet that is to be sent there. Nothing
    /// happens and nothing is returned for an unknown identifier or an
    /// established connection.
    pub fn connect(&mut self, x25519_id_hash: x25519IDHash, endpoint: Endpoint) -> (packet: Option<
        Packet,
    >)
        ensures
            final(self)@ == old(self)@.connected(x25519_id_hash@, endpoint),
            packet_view(packet) == old(self)@.opening(x25519_id_hash@),
            final(self)@.well_formed(),
    {
        proof {
            use_type_invariant(&*self);
        }
        match self.connections.get(&x25519_id_hash) {
            Some(found) => {
                let mut connection = found;
                let packet = connection.initiate(endpoint);
                self.put(connection);
                packet
            },
            None => None,
        }
    }

    /// The connections as they stand.
    pub fn list_connections(&self) -> (response: Response)
        ensures
            response matches Response::ListConnections { connections } && connections@
                == self@.connections,
            self@.well_formed(),
    {
        proof {
            use_type_invariant(self);
        }
        Response::ListConnections { connections: self.connections.snapshot() }
    }

    /// Executes a command.
    ///
    /// `Exit` stops the caller and `ListConnections` has it respond; neither
    /// changes the instance. `AddConnection` registers a connection with a
    /// contribution drawn from `rng`, of which nothing is known but that the
    /// connection carries it. `Connect` has the caller send our handshake
    /// where there is one to send.
    pub fn execute(&mut self, command: Command, rng: &mut ThreadRng) -> (directive: Directive)
        ensures
            final(self)@.well_formed(),
            match command {
                Command::Exit => directive is Stop && final(self)@ == old(self)@,
                Command::AddConnection { public_key, shared_mac_secret } => {
                    let key = identifier(public_key@, shared_mac_secret@);
                    &&& directive is Continue
                    &&& final(self)@.connections.contains_key(key)
                    &&& final(self)@ == old(self)@.with_connection(
                        public_key@,
                        shared_mac_secret@,
                        final(self)@.connections[key].state.local_ephemeral_blob(),
                    )
                },
                Command::ListConnections => {
                    &&& final(self)@ == old(self)@
                    &&& directive matches Directive::Respond {
                        response: Response::ListConnections { connections },
                    } && connections@ == old(self)@.connections
                },
                Command::Connect { x25519_id_hash, endpoint } => {
                    &&& final(self)@ == old(self)@.connected(x25519_id_hash@, endpoint)
                    &&& match old(self)@.opening(x25519_id_hash@) {
                        Some(handshake) => directive matches Directive::Send {
                            endpoint: target,
                            packet,
                        } && target == endpoint && packet@ == handshake,
                        None => directive is Continue,
                    }
                },
            },
    {
        proof {
            use_type_invariant(&*self);
        }
        match command {
            Command::Exit => Directive::Stop,
            Command::AddConnection { public_key, shared_mac_secret } => {
                let local_ephemeral_blob = EphemeralBlob::new(rng);
                self.add_connection(public_key, shared_mac_secret, local_ephemeral_blob);
                Directive::Continue
            },
            Command::ListConnections => Directive::Respond { response: self.list_connections() },
            Command::Connect { x25519_id_hash, endpoint } => {
                match self.connect(x25519_id_hash, endpoint) {
                    Some(packet) => Directive::Send { endpoint, packet },
                    None => Directive::Continue,
                }
            },
        }
    }

    /// Takes in a datagram that arrived from `sender`.
    ///
    /// A datagram that holds no packet, or a packet for no connection of
    /// ours, is dropped: nothing changes and nothing is returned. Any other
    /// is a handshake for one of our connections and is received by it; the
    /// receipt says what came of it and what is to be sent back to `sender`.
    /// Whether a pending connection becomes established depends on OpenSSL's
    /// key agreement, of which the receipt tells the outcome.
    pub fn receive(&mut self, datagram: &[u8], sender: Endpoint) -> (receipt: Option<Receipt>)
        ensures
            final(self)@.well_formed(),
            receipt is None <==> old(self)@.addressed(datagram@) is None,
            receipt is None ==> final(self)@ == old(self)@,
            receipt matches Some(given) ==> {
                let packet = old(self)@.addressed(datagram@).unwrap();
                let connection = old(self)@.connections[packet.hash];
                let secret = shared_secret(old(self)@.private_key, connection.state.public_key());
                let agreement = agreement_behind(given, secret);
                &&& final(self)@ == old(self)@.received(datagram@, sender, agreement)
                &&& given@ == connection.receipt(agreement)
                &&& given matches Receipt::Failed { error } ==> refused(error, secret, 32)
            },
    {
        proof {
            use_type_invariant(&*self);
        }
        let packet = match Packet::decode(datagram) {
            Some(packet) => packet,
            None => {
                return None;
            },
        };
        let mut connection = match self.connections.get(&packet.hash) {
            Some(connection) => connection,
            None => {
                return None;
            },
        };
        let receipt = match packet.data {
            Data::Handshake { ephemeral_blob } => connection.receive_handshake(
                &self.private_key,
                ephemeral_blob,
                sender,
            ),
        };
        self.put(connection);
        Some(receipt)
    }
}

} // verus!
