//! The server side of the handshake: classify each datagram by its type
//! byte, record the sender of every initiation under its client index, and
//! answer it with a response.
use std::collections::HashMap;
use vstd::prelude::*;
use vstd::std_specs::hash::group_hash_axioms;

use crate::protocol::{
    fields_of, frame, le_value, HandshakeInitiation, HandshakeResponse, FRAME_LEN, MSG_DATA,
    MSG_INITIATION, MSG_RESPONSE,
};

verus! {

broadcast use group_hash_axioms;

/// A UDP endpoint: an IPv4 or IPv6 address and a port.
#[derive(Clone, Copy, Debug, PartialEq, Eq, Structural)]
pub enum Endpoint {
    V4 { ip: u32, port: u16 },
    V6 { ip6: u128, port: u16 },
}

/// What the server knows of a client that sent an initiation.
#[derive(Clone, Copy, Debug)]
pub struct Peer {
    pub addr: Endpoint,
    pub client_index: u32,
    pub client_ephem: [u8; 32],
}

impl View for Peer {
    /// Source endpoint, client index and client key material.
    type V = (Endpoint, u32, Seq<u8>);

    open spec fn view(&self) -> (Endpoint, u32, Seq<u8>) {
        (self.addr, self.client_index, self.client_ephem@)
    }
}

/// The kind of a datagram, read from its first byte.
#[derive(Clone, Copy, Debug, PartialEq, Eq, Structural)]
pub enum MessageKind {
    Initiation,
    Response,
    Data,
    Unknown,
}

/// The kind that a datagram's first byte announces; an empty datagram
/// announces nothing.
pub open spec fn kind_of(pkt: Seq<u8>) -> MessageKind {
    if pkt.len() == 0 {
        MessageKind::Unknown
    } else if pkt[0] == MSG_INITIATION {
        MessageKind::Initiation
    } else if pkt[0] == MSG_RESPONSE {
        MessageKind::Response
    } else if pkt[0] == MSG_DATA {
        MessageKind::Data
    } else {
        MessageKind::Unknown
    }
}

/// Classifies a datagram by its first byte.
pub fn classify(pkt: &[u8]) -> (r: MessageKind)
    ensures
        r == kind_of(pkt@),
{
    if pkt.len() == 0 {
        MessageKind::Unknown
    } else if pkt[0] == MSG_INITIATION {
        MessageKind::Initiation
    } else if pkt[0] == MSG_RESPONSE {
        MessageKind::Response
    } else if pkt[0] == MSG_DATA {
        MessageKind::Data
    } else {
        MessageKind::Unknown
    }
}

/// A datagram that the server accepts as an initiation: the initiation type
/// byte and at least a whole frame.
pub open spec fn is_initiation(pkt: Seq<u8>) -> bool {
    kind_of(pkt) == MessageKind::Initiation && pkt.len() >= FRAME_LEN
}

/// The client index that an initiation carries.
pub open spec fn index_of(pkt: Seq<u8>) -> u32 {
    le_value(pkt.subrange(1, 5))
}

/// The peer table after the server has taken in `pkt` from `src`: an
/// initiation puts its sender under its client index, replacing what stood
/// there; anything else leaves the table as it was.
pub open spec fn table_after(
    table: Map<u32, (Endpoint, u32, Seq<u8>)>,
    pkt: Seq<u8>,
    src: Endpoint,
) -> Map<u32, (Endpoint, u32, Seq<u8>)> {
    if is_initiation(pkt) {
        table.insert(index_of(pkt), (src, index_of(pkt), pkt.subrange(5, 37)))
    } else {
        table
    }
}

/// The reply that the server owes for `pkt`: for an initiation, a response
/// frame to the same client index carrying `key`; nothing otherwise.
pub open spec fn reply_to(pkt: Seq<u8>, key: Seq<u8>) -> Option<Seq<u8>> {
    if is_initiation(pkt) {
        Some(frame(MSG_RESPONSE, index_of(pkt), key))
    } else {
        None
    }
}

/// The handshake server: its ephemeral public key and a table of peers keyed
/// by client index.
pub struct Server {
    peers: HashMap<u32, Peer>,
    public_key: [u8; 32],
}

impl Server {
    /// The peer table, each record by its view.
    pub closed spec fn table(&self) -> Map<u32, (Endpoint, u32, Seq<u8>)> {
        self.peers@.map_values(|p: Peer| p@)
    }

    /// The public key sent in every response.
    pub closed spec fn key(&self) -> Seq<u8> {
        self.public_key@
    }

    /// Every record stands under its own client index.
    pub open spec fn wf(&self) -> bool {
        forall|i: u32| #[trigger] self.table().contains_key(i) ==> self.table()[i].1 == i
    }

    /// A server with no peers that answers with `public_key`.
    pub fn new(public_key: [u8; 32]) -> (r: Self)
        ensures
            r.wf(),
            r.table() == Map::<u32, (Endpoint, u32, Seq<u8>)>::empty(),
            r.key() == public_key@,
    {
        let r = Server { peers: HashMap::new(), public_key };
        assert(r.table() =~= Map::<u32, (Endpoint, u32, Seq<u8>)>::empty());
        r
    }

    /// The public key sent in every response.
    pub fn public_key(&self) -> (r: [u8; 32])
        ensures
            r@ == self.key(),
    {
        self.public_key
    }

    /// Takes in one datagram `pkt` from `src`. An initiation is recorded
    /// under its client index, overwriting an earlier record, and answered
    /// with the returned response frame, to be sent back to `src`. Anything
    /// else, truncated or of another type, is dropped without a reply.
    pub fn handle_datagram(&mut self, pkt: &[u8], src: Endpoint) -> (r: Option<[u8; 37]>)
        requires
            old(self).wf(),
        ensures
            final(self).wf(),
            final(self).key() == old(self).key(),
            final(self).table() == table_after(old(self).table(), pkt@, src),
            r is Some <==> reply_to(pkt@, old(self).key()) is Some,
            r matches Some(f) ==> Some(f@) == reply_to(pkt@, old(self).key()),
    {
        if classify(pkt) != MessageKind::Initiation {
            return None;
        }
        match HandshakeInitiation::from_bytes(pkt) {
            None => None,
            Some(init) => {
                let peer = Peer {
                    addr: src,
                    client_index: init.client_id,
                    client_ephem: init.ephemeral_public_key,
                };
                let ghost before = self.peers@;
                self.peers.insert(init.client_id, peer);
                proof {
                    assert(self.peers@ == before.insert(init.client_id, peer));
                    assert(self.table() =~= table_after(old(self).table(), pkt@, src));
                }
                let resp = HandshakeResponse::new(init.client_id, &self.public_key);
                Some(resp.to_bytes())
            },
        }
    }

    /// The record of the client with index `index`, if there is one.
    pub fn peer(&self, index: u32) -> (r: Option<Peer>)
        ensures
            r is Some <==> self.table().contains_key(index),
            r matches Some(p) ==> p@ == self.table()[index],
    {
        match self.peers.get(&index) {
            Some(p) => Some(*p),
            None => None,
        }
    }

    /// The number of clients on record.
    pub fn peer_count(&self) -> (r: usize)
        ensures
            r == self.table().len(),
    {
        proof {
            assert(self.table().dom() =~= self.peers@.dom());
        }
        self.peers.len()
    }
}

/// After two initiations with one client index, from any two endpoints, the
/// table holds the second sender under that index.
pub proof fn lemma_latest_initiation_wins(
    table: Map<u32, (Endpoint, u32, Seq<u8>)>,
    first: Seq<u8>,
    a: Endpoint,
    second: Seq<u8>,
    b: Endpoint,
)
    requires
        is_initiation(first),
        is_initiation(second),
        index_of(first) == index_of(second),
    ensures
        table_after(table_after(table, first, a), second, b).contains_key(index_of(second)),
        table_after(table_after(table, first, a), second, b)[index_of(second)].0 == b,
{
}

/// A datagram that is not a whole initiation changes no table and gets no
/// reply.
pub proof fn lemma_non_initiation_dropped(
    table: Map<u32, (Endpoint, u32, Seq<u8>)>,
    pkt: Seq<u8>,
    src: Endpoint,
    key: Seq<u8>,
)
    requires
        pkt.len() < FRAME_LEN || kind_of(pkt) != MessageKind::Initiation,
    ensures
        table_after(table, pkt, src) == table,
        reply_to(pkt, key) is None,
{
}

} // verus!
