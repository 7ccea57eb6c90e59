//! The connection table: every connection under its remote identifier, and
//! no identifier twice.

use crate::instance::{Connection, ConnectionView};
use crate::x25519IDHash;
use vstd::prelude::*;

verus! {

/// The remote identifiers of a sequence of connections, in the same order.
pub open spec fn keys_of(entries: Seq<Connection>) -> Seq<Seq<u8>> {
    entries.map_values(|connection: Connection| connection.remote_x25519_id_hash@)
}

/// Whether every connection of a mapping stands under its own remote
/// identifier, as in every table.
pub open spec fn well_keyed(connections: Map<Seq<u8>, ConnectionView>) -> bool {
    forall|key: Seq<u8>| #[trigger]
        connections.contains_key(key) ==> connections[key].remote_x25519_id_hash == key
}

/// Where in `entries` the connection with remote identifier `key` stands.
spec fn position_of(entries: Seq<Connection>, key: Seq<u8>) -> int {
    choose|i: int| 0 <= i < entries.len() && keys_of(entries)[i] == key
}

/// The mapping from remote identifier to connection that `entries` holds.
spec fn listing(entries: Seq<Connection>) -> Map<Seq<u8>, ConnectionView> {
    Map::new(
        |key: Seq<u8>| keys_of(entries).contains(key),
        |key: Seq<u8>| entries[position_of(entries, key)]@,
    )
}

proof fn lemma_position_of(entries: Seq<Connection>, i: int)
    requires
        keys_of(entries).no_duplicates(),
        0 <= i < entries.len(),
    ensures
        position_of(entries, keys_of(entries)[i]) == i,
        listing(entries).contains_key(keys_of(entries)[i]),
        listing(entries)[keys_of(entries)[i]] == entries[i]@,
{
    let found = position_of(entries, keys_of(entries)[i]);
    assert(0 <= found < entries.len() && keys_of(entries)[found] == keys_of(entries)[i]);
}

proof fn lemma_listing_push(entries: Seq<Connection>, connection: Connection)
    requires
        keys_of(entries).no_duplicates(),
        !keys_of(entries).contains(connection.remote_x25519_id_hash@),
    ensures
        keys_of(entries.push(connection)).no_duplicates(),
        listing(entries.push(connection)) == listing(entries).insert(
            connection.remote_x25519_id_hash@,
            connection@,
        ),
{
    let extended = entries.push(connection);
    let key = connection.remote_x25519_id_hash@;
    assert forall|i: int, j: int|
        0 <= i < extended.len() && 0 <= j < extended.len() && i != j implies keys_of(extended)[i]
        != keys_of(extended)[j] by {
        if i < entries.len() {
            assert(keys_of(entries)[i] == keys_of(extended)[i]);
        }
        if j < entries.len() {
            assert(keys_of(entries)[j] == keys_of(extended)[j]);
        }
    }
    assert forall|other: Seq<u8>|
        listing(extended).contains_key(other) <==> listing(entries).insert(
            key,
            connection@,
        ).contains_key(other) by {
        if keys_of(extended).contains(other) {
            let i = choose|i: int| 0 <= i < extended.len() && keys_of(extended)[i] == other;
            if i < entries.len() {
                assert(keys_of(entries)[i] == other);
            }
        }
        if keys_of(entries).contains(other) {
            let i = choose|i: int| 0 <= i < entries.len() && keys_of(entries)[i] == other;
            assert(keys_of(extended)[i] == other);
        }
        if other == key {
            assert(keys_of(extended)[entries.len() as int] == other);
        }
    }
    assert forall|other: Seq<u8>| listing(extended).contains_key(other) implies listing(
        extended,
    )[other] == listing(entries).insert(key, connection@)[other] by {
        let i = choose|i: int| 0 <= i < extended.len() && keys_of(extended)[i] == other;
        lemma_position_of(extended, i);
        if i < entries.len() {
            lemma_position_of(entries, i);
        }
    }
}

proof fn lemma_listing_update(entries: Seq<Connection>, at: int, connection: Connection)
    requires
        keys_of(entries).no_duplicates(),
        0 <= at < entries.len(),
        keys_of(entries)[at] == connection.remote_x25519_id_hash@,
    ensures
        keys_of(entries.update(at, connection)) == keys_of(entries),
        listing(entries.update(at, connection)) == listing(entries).insert(
            connection.remote_x25519_id_hash@,
            connection@,
        ),
{
    let updated = entries.update(at, connection);
    let key = connection.remote_x25519_id_hash@;
    assert(keys_of(updated) =~= keys_of(entries));
    assert forall|other: Seq<u8>| listing(updated).contains_key(other) implies listing(
        updated,
    )[other] == listing(entries).insert(key, connection@)[other] by {
        let i = choose|i: int| 0 <= i < updated.len() && keys_of(updated)[i] == other;
        lemma_position_of(updated, i);
        lemma_position_of(entries, i);
    }
}

proof fn lemma_listing_well_keyed(entries: Seq<Connection>)
    requires
        keys_of(entries).no_duplicates(),
    ensures
        well_keyed(listing(entries)),
{
    assert forall|key: Seq<u8>| #[trigger] listing(entries).contains_key(key) implies listing(
        entries,
    )[key].remote_x25519_id_hash == key by {
        let i = choose|i: int| 0 <= i < entries.len() && keys_of(entries)[i] == key;
        lemma_position_of(entries, i);
    }
}

proof fn lemma_listing_size(entries: Seq<Connection>)
    requires
        keys_of(entries).no_duplicates(),
    ensures
        listing(entries).dom().finite(),
        listing(entries).dom().len() == entries.len(),
{
    keys_of(entries).unique_seq_to_set();
}

/// The connections of an instance, each under its remote identifier.
#[derive(Debug)]
pub struct ConnectionTable {
    entries: Vec<Connection>,
}

impl View for ConnectionTable {
    type V = Map<Seq<u8>, ConnectionView>;

    closed spec fn view(&self) -> Map<Seq<u8>, ConnectionView> {
        listing(self.entries@)
    }
}

impl ConnectionTable {
    #[verifier::type_invariant]
    spec fn keyed_once(self) -> bool {
        keys_of(self.entries@).no_duplicates()
    }

    /// A table without connections.
    pub fn new() -> (table: Self)
        ensures
            table@ == Map::<Seq<u8>, ConnectionView>::empty(),
            well_keyed(table@),
    {
        let table = ConnectionTable { entries: Vec::new() };
        table
    }

    /// How many connections the table holds.
    pub fn len(&self) -> (count: usize)
        ensures
            self@.dom().finite(),
            count == self@.dom().len(),
            well_keyed(self@),
    {
        proof {
            use_type_invariant(self);
            lemma_listing_size(self.entries@);
            lemma_listing_well_keyed(self.entries@);
        }
        self.entries.len()
    }

    fn find(&self, hash: &x25519IDHash) -> (at: Option<usize>)
        ensures
            match at {
                Some(i) => i < self.entries@.len() && keys_of(self.entries@)[i as int] == hash@,
                None => !keys_of(self.entries@).contains(hash@),
            },
    {
        let mut i: usize = 0;
        while i < self.entries.len()
            invariant
                i <= self.entries@.len(),
                forall|j: int| 0 <= j < i ==> keys_of(self.entries@)[j] != hash@,
            decreases self.entries@.len() - i,
        {
            if self.entries[i].remote_x25519_id_hash == *hash {
                return Some(i);
            }
            i += 1;
        }
        None
    }

    /// The connection registered under `hash`, if there is one.
    pub fn get(&self, hash: &x25519IDHash) -> (connection: Option<Connection>)
        ensures
            match connection {
                Some(found) => self@.contains_key(hash@) && found@ == self@[hash@],
                None => !self@.contains_key(hash@),
            },
            well_keyed(self@),
    {
        proof {
            use_type_invariant(self);
            lemma_listing_well_keyed(self.entries@);
        }
        match self.find(hash) {
            Some(i) => {
                proof {
                    lemma_position_of(self.entries@, i as int);
                }
                Some(self.entries[i])
            },
            None => None,
        }
    }

    /// Puts `connection` under its remote identifier, in place of the
    /// connection that was there before, if there was one.
    pub fn insert(&mut self, connection: Connection)
        ensures
            final(self)@ == old(self)@.insert(connection.remote_x25519_id_hash@, connection@),
            well_keyed(final(self)@),
    {
        proof {
            use_type_invariant(&*self);
        }
        let found = self.find(&connection.remote_x25519_id_hash);
        let mut entries: Vec<Connection> = Vec::new();
        std::mem::swap(&mut entries, &mut self.entries);
        match found {
            Some(i) => {
                proof {
                    lemma_listing_update(entries@, i as int, connection);
                }
                entries[i] = connection;
            },
            None => {
                proof {
                    lemma_listing_push(entries@, connection);
                }
                entries.push(connection);
            },
        }
        proof {
            lemma_listing_well_keyed(entries@);
        }
        self.entries = entries;
    }

    /// The connections of the table, one by one: each connection of the
    /// table once, under an identifier of its own.
    pub fn connections(&self) -> (list: Vec<Connection>)
        ensures
            well_keyed(self@),
            self@.dom().finite(),
            list@.len() == self@.dom().len(),
            keys_of(list@).no_duplicates(),
            forall|i: int|
                0 <= i < list@.len() ==> self@.contains_key(#[trigger] keys_of(list@)[i])
                    && self@[keys_of(list@)[i]] == list@[i]@,
            forall|key: Seq<u8>| #[trigger]
                self@.contains_key(key) ==> keys_of(list@).contains(key),
    {
        let list = self.copy_entries();
        proof {
            use_type_invariant(self);
            lemma_listing_size(self.entries@);
            lemma_listing_well_keyed(self.entries@);
            assert forall|i: int| 0 <= i < list@.len() implies self@.contains_key(
                #[trigger] keys_of(list@)[i],
            ) && self@[keys_of(list@)[i]] == list@[i]@ by {
                lemma_position_of(self.entries@, i);
            }
        }
        list
    }

    fn copy_entries(&self) -> (list: Vec<Connection>)
        ensures
            list@ == self.entries@,
    {
        let mut list: Vec<Connection> = Vec::new();
        let mut i: usize = 0;
        while i < self.entries.len()
            invariant
                i <= self.entries@.len(),
                list@ == self.entries@.take(i as int),
            decreases self.entries@.len() - i,
        {
            list.push(self.entries[i]);
            i += 1;
        }
        list
    }

    /// A copy of the table as it stands.
    pub fn snapshot(&self) -> (copy: Self)
        ensures
            copy@ == self@,
            well_keyed(copy@),
    {
        proof {
            use_type_invariant(self);
            lemma_listing_well_keyed(self.entries@);
        }
        ConnectionTable { entries: self.copy_entries() }
    }
}

} // verus!
