//! What holds of an instance over any run of commands and datagrams.

use crate::instance::{ConnectionView, Endpoint, InstanceView};
use crate::x25519::curve25519::KeyError;
use crate::x25519_id_hash::identifier;
use vstd::prelude::*;

verus! {

/// One `AddConnection` as plain bytes, with the contribution that was drawn
/// for it.
pub struct Registration {
    pub public_key: Seq<u8>,
    pub shared_mac_secret: Seq<u8>,
    pub local_ephemeral_blob: Seq<u8>,
}

impl Registration {
    /// The identifier under which the registered connection stands.
    pub open spec fn remote_identifier(self) -> Seq<u8> {
        identifier(self.public_key, self.shared_mac_secret)
    }
}

/// The identifiers under which a run of registrations puts its connections.
pub open spec fn remote_identifiers(registrations: Seq<Registration>) -> Seq<Seq<u8>> {
    registrations.map_values(|registration: Registration| registration.remote_identifier())
}

impl InstanceView {
    /// The instance after a run of registrations, in order.
    pub open spec fn after_registrations(self, registrations: Seq<Registration>) -> InstanceView
        decreases registrations.len(),
    {
        if registrations.len() == 0 {
            self
        } else {
            let last = registrations.last();
            self.after_registrations(registrations.drop_last()).with_connection(
                last.public_key,
                last.shared_mac_secret,
                last.local_ephemeral_blob,
            )
        }
    }
}

/// An instance without connections that registers `n` connections under `n`
/// different identifiers lists exactly these `n`: each identifier once, and
/// under it the connection that was registered for it.
///
/// The registrations must lead to different identifiers. Different peer keys
/// do so unless SHA-256 collides on them.
pub proof fn lemma_registrations_are_listed(
    instance: InstanceView,
    registrations: Seq<Registration>,
)
    requires
        instance.connections == Map::<Seq<u8>, ConnectionView>::empty(),
        remote_identifiers(registrations).no_duplicates(),
    ensures
        ({
            let listed = instance.after_registrations(registrations).connections;
            &&& instance.after_registrations(registrations) == (InstanceView {
                connections: listed,
                ..instance
            })
            &&& listed.dom().finite()
            &&& listed.dom().len() == registrations.len()
            &&& listed.dom() == remote_identifiers(registrations).to_set()
            &&& forall|i: int|
                0 <= i < registrations.len() ==> listed.contains_key(
                    (#[trigger] registrations[i]).remote_identifier(),
                ) && listed[registrations[i].remote_identifier()] == ConnectionView::registered(
                    instance.public_key,
                    registrations[i].public_key,
                    registrations[i].shared_mac_secret,
                    registrations[i].local_ephemeral_blob,
                )
        }),
    decreases registrations.len(),
{
    let identifiers = remote_identifiers(registrations);
    let listed = instance.after_registrations(registrations).connections;
    if registrations.len() > 0 {
        let earlier = registrations.drop_last();
        let last = registrations.last();
        assert(remote_identifiers(earlier) =~= identifiers.drop_last());
        lemma_registrations_are_listed(instance, earlier);
        let before = instance.after_registrations(earlier).connections;
        assert(!before.contains_key(last.remote_identifier())) by {
            if remote_identifiers(earlier).contains(last.remote_identifier()) {
                let i = choose|i: int|
                    0 <= i < earlier.len() && remote_identifiers(earlier)[i]
                        == last.remote_identifier();
                assert(identifiers[i] == identifiers[registrations.len() - 1]);
            }
        }
        assert(listed.dom() =~= identifiers.to_set()) by {
            assert forall|key: Seq<u8>|
                listed.dom().contains(key) <==> identifiers.to_set().contains(key) by {
                if identifiers.contains(key) {
                    let i = choose|i: int| 0 <= i < identifiers.len() && identifiers[i] == key;
                    if i < earlier.len() {
                        assert(remote_identifiers(earlier)[i] == key);
                    }
                }
                if remote_identifiers(earlier).contains(key) {
                    let i = choose|i: int|
                        0 <= i < earlier.len() && remote_identifiers(earlier)[i] == key;
                    assert(identifiers[i] == key);
                }
                if key == last.remote_identifier() {
                    assert(identifiers[registrations.len() - 1] == key);
                }
            }
        }
        assert forall|i: int| 0 <= i < registrations.len() implies listed.contains_key(
            (#[trigger] registrations[i]).remote_identifier(),
        ) && listed[registrations[i].remote_identifier()] == ConnectionView::registered(
            instance.public_key,
            registrations[i].public_key,
            registrations[i].shared_mac_secret,
            registrations[i].local_ephemeral_blob,
        ) by {
            if i < earlier.len() {
                assert(before[earlier[i].remote_identifier()] == ConnectionView::registered(
                    instance.public_key,
                    earlier[i].public_key,
                    earlier[i].shared_mac_secret,
                    earlier[i].local_ephemeral_blob,
                ));
            }
        }
    }
}

/// Nothing that happens to an instance takes a connection away from its
/// remote identifier: a registration, an order to connect and a datagram all
/// leave every connection under the identifier that is its own.
pub proof fn lemma_instance_stays_well_formed(
    instance: InstanceView,
    public_key: Seq<u8>,
    shared_mac_secret: Seq<u8>,
    local_ephemeral_blob: Seq<u8>,
    x25519_id_hash: Seq<u8>,
    endpoint: Endpoint,
    datagram: Seq<u8>,
    agreement: Result<Seq<u8>, KeyError>,
)
    requires
        instance.well_formed(),
    ensures
        instance.with_connection(public_key, shared_mac_secret, local_ephemeral_blob).well_formed(),
        instance.connected(x25519_id_hash, endpoint).well_formed(),
        instance.received(datagram, endpoint, agreement).well_formed(),
{
}

/// A datagram that is dropped changes nothing. Any other moves the endpoint
/// of the connection it is for to the sender's address, whatever the
/// endpoint was and whatever comes of the handshake, and leaves every other
/// connection as it was.
pub proof fn lemma_endpoint_migrates(
    instance: InstanceView,
    datagram: Seq<u8>,
    sender: Endpoint,
    agreement: Result<Seq<u8>, KeyError>,
)
    ensures
        ({
            let after = instance.received(datagram, sender, agreement);
            match instance.addressed(datagram) {
                Some(packet) => {
                    &&& after.connections.dom() == instance.connections.dom()
                    &&& after.connections[packet.hash].endpoint == Some(sender)
                    &&& forall|key: Seq<u8>|
                        key != packet.hash ==> #[trigger] after.connections[key]
                            == instance.connections[key]
                },
                None => after == instance,
            }
        }),
{
}

/// A handshake for a connection that has the peer's contribution already
/// changes neither the contribution nor the session key, and delivered once
/// more from the same sender it changes nothing at all.
pub proof fn lemma_duplicate_datagram_changes_nothing(
    instance: InstanceView,
    datagram: Seq<u8>,
    sender: Endpoint,
    agreement: Result<Seq<u8>, KeyError>,
    next_agreement: Result<Seq<u8>, KeyError>,
)
    requires
        instance.addressed(datagram) matches Some(packet)
            && instance.connections[packet.hash].state.remote_ephemeral_blob() is Some,
    ensures
        ({
            let packet = instance.addressed(datagram).unwrap();
            let once = instance.received(datagram, sender, agreement);
            let twice = once.received(datagram, sender, next_agreement);
            &&& once.connections[packet.hash].state == instance.connections[packet.hash].state
            &&& once.connections[packet.hash].endpoint == Some(sender)
            &&& twice == once
        }),
{
    let once = instance.received(datagram, sender, agreement);
    let twice = once.received(datagram, sender, next_agreement);
    assert(twice.connections =~= once.connections);
}

/// Once a datagram has established a connection, the same datagram from the
/// same sender changes nothing.
pub proof fn lemma_datagram_is_idempotent(
    instance: InstanceView,
    datagram: Seq<u8>,
    sender: Endpoint,
    shared_key: Seq<u8>,
    next_agreement: Result<Seq<u8>, KeyError>,
)
    ensures
        ({
            let once = instance.received(datagram, sender, Ok::<Seq<u8>, KeyError>(shared_key));
            once.received(datagram, sender, next_agreement) == once
        }),
{
    let once = instance.received(datagram, sender, Ok::<Seq<u8>, KeyError>(shared_key));
    let twice = once.received(datagram, sender, next_agreement);
    if let Some(packet) = instance.addressed(datagram) {
        assert(twice.connections =~= once.connections);
    }
}

} // verus!
