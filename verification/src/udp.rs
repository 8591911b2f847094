//! The UDP listener's two halves as functions on its ID table: what to do
//! with a datagram from a client, and what to do with a reply from the
//! resolver.  The caller owns the socket and the channels; it holds the
//! table's lock only for the duration of one call.

use crate::ids::{lemma_at_most_id_space, IdTable};
use crate::wire::{id_of, set_transaction_id, transaction_id, with_id};
use vstd::prelude::*;

verus! {

/// Size of the receive buffer: plain DNS over UDP without EDNS(0) extension.
pub const DATAGRAM_BUFFER: usize = 512;

/// Capacity of the listener's reply channel.
pub const REPLY_CAPACITY: usize = 32;

/// What the listener remembers of a query in flight: the ID its client chose
/// and the address the answer has to go to.
#[derive(Debug, PartialEq, Eq)]
pub struct UserMapping<A> {
    pub id: u16,
    pub address: A,
}

/// The table after the query `datagram` from `from` went out under `proxy_id`.
pub open spec fn admitted<A>(
    table: Map<u16, UserMapping<A>>,
    datagram: Seq<u8>,
    from: A,
    proxy_id: u16,
) -> Map<u16, UserMapping<A>> {
    table.insert(proxy_id, UserMapping { id: id_of(datagram), address: from })
}

/// Whether `reply` answers a query that `table` has in flight.
pub open spec fn answers<A>(table: Map<u16, UserMapping<A>>, reply: Seq<u8>) -> bool {
    reply.len() >= 2 && table.contains_key(id_of(reply))
}

/// What the client is sent for `reply`: the same octets under the ID the
/// client chose.
pub open spec fn delivered<A>(table: Map<u16, UserMapping<A>>, reply: Seq<u8>) -> Seq<u8>
    recommends
        answers(table, reply),
{
    with_id(reply, table[id_of(reply)].id)
}

/// Where `reply` is sent.
pub open spec fn destination<A>(table: Map<u16, UserMapping<A>>, reply: Seq<u8>) -> A
    recommends
        answers(table, reply),
{
    table[id_of(reply)].address
}

/// The table after `reply` was handled: its entry, if any, is gone.
pub open spec fn settled<A>(table: Map<u16, UserMapping<A>>, reply: Seq<u8>) -> Map<
    u16,
    UserMapping<A>,
> {
    if answers(table, reply) {
        table.remove(id_of(reply))
    } else {
        table
    }
}

/// State of the UDP listener: the queries it has handed to the resolver and
/// not yet answered.  `A` is the client's socket address.
pub struct UdpListener<A> {
    table: IdTable<UserMapping<A>>,
}

impl<A> View for UdpListener<A> {
    type V = Map<u16, UserMapping<A>>;

    closed spec fn view(&self) -> Map<u16, UserMapping<A>> {
        self.table@
    }
}

impl<A> UdpListener<A> {
    /// A listener with nothing in flight.
    pub fn new() -> (listener: Self)
        ensures
            listener@ == Map::<u16, UserMapping<A>>::empty(),
    {
        UdpListener { table: IdTable::new() }
    }

    /// Number of queries in flight.
    pub fn in_flight(&self) -> (n: usize)
        ensures
            n == self@.dom().len(),
    {
        self.table.len()
    }

    /// Ingress: a datagram arrived from `from`.
    ///
    /// A datagram of fewer than two octets is dropped.  Otherwise the query
    /// is entered in the table under a fresh proxy ID and returned with that
    /// ID in place of the client's, ready for the query bus.  With all 65536
    /// IDs in flight the datagram is dropped too.
    pub fn ingress(&mut self, datagram: Vec<u8>, from: A) -> (query: Option<Vec<u8>>)
        ensures
            query is Some <==> datagram@.len() >= 2 && old(self)@.dom().len() < 65536,
            match query {
                Some(q) => {
                    &&& !old(self)@.contains_key(id_of(q@))
                    &&& q@ == with_id(datagram@, id_of(q@))
                    &&& final(self)@ == admitted(old(self)@, datagram@, from, id_of(q@))
                },
                None => final(self)@ == old(self)@,
            },
    {
        let original = match transaction_id(datagram.as_slice()) {
            Some(id) => id,
            None => {
                return None;
            },
        };
        proof {
            self.table.lemma_finite();
            lemma_at_most_id_space(self.table@);
        }
        match self.table.assign(UserMapping { id: original, address: from }) {
            Ok(proxy_id) => {
                let mut query = datagram;
                set_transaction_id(&mut query, proxy_id);
                proof {
                    crate::wire::lemma_id_of_with_id(datagram@, proxy_id);
                }
                Some(query)
            },
            Err(_) => None,
        }
    }

    /// Egress: the resolver sent `reply`.
    ///
    /// The entry under the reply's ID is looked up and removed; the reply
    /// goes to that client with the client's own ID restored.  A reply that
    /// is too short to carry an ID, or whose ID is not in flight, is dropped.
    pub fn egress(&mut self, reply: Vec<u8>) -> (out: Option<(Vec<u8>, A)>)
        ensures
            out is Some <==> answers(old(self)@, reply@),
            final(self)@ == settled(old(self)@, reply@),
            match out {
                Some((message, to)) => {
                    &&& message@ == delivered(old(self)@, reply@)
                    &&& to == destination(old(self)@, reply@)
                },
                None => true,
            },
    {
        let proxy_id = match transaction_id(reply.as_slice()) {
            Some(id) => id,
            None => {
                return None;
            },
        };
        match self.table.remove(proxy_id) {
            Some(user) => {
                let mut message = reply;
                set_transaction_id(&mut message, user.id);
                Some((message, user.address))
            },
            None => {
                assert(self@ =~= old(self)@);
                None
            },
        }
    }
}

} // verus!
