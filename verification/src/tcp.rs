//! DNS over TCP: the two-octet length framing of the byte stream, and the
//! per-connection ID table shared by a connection's reader and writer.
//!
//! The reader asks the [`Framer`] how many octets to read next, feeds it what
//! the socket returned, and is told whether a message is complete or the
//! connection has to close.  The [`TcpConnection`] rewrites the ID of each
//! complete message on its way to the resolver and restores it on each reply.

use crate::ids::{lemma_at_most_id_space, IdTable};
use crate::wire::{id_of, set_transaction_id, transaction_id, with_id};
use vstd::prelude::*;

verus! {

/// Octets of the length prefix.
pub const LENGTH_PREFIX: usize = 2;

/// Most octets of a message body read in one go.
pub const READ_CHUNK: usize = 512;

/// Capacity of a connection's reply channel.
pub const REPLY_CAPACITY: usize = 32;

/// Why a connection ends.
#[derive(Clone, Copy, Debug, PartialEq, Eq, Structural)]
pub enum Closure {
    /// The peer closed the stream between two messages.
    Clean,
    /// The length prefix announced a message of fewer than two octets.
    InvalidLength,
    /// The stream ended inside a message.
    UnexpectedEof,
}

/// Where the reader stands in the stream.
#[verifier::ext_equal]
pub enum Phase {
    /// Before a length prefix.
    Length,
    /// Inside a message of `announced` octets, `received` of them read.
    Body { announced: nat, received: Seq<u8> },
    /// Closed for good.
    Closed(Closure),
}

/// What feeding the framer led to, over sequences.
#[verifier::ext_equal]
pub enum Outcome {
    /// Read on.
    Continue,
    /// A message is complete.
    Message(Seq<u8>),
    /// Stop reading and close the connection.
    Close(Closure),
}

/// What feeding the framer led to.
#[derive(Debug, PartialEq, Eq)]
pub enum Progress {
    /// Read on.
    Continue,
    /// A message is complete.
    Message(Vec<u8>),
    /// Stop reading and close the connection.
    Close(Closure),
}

impl View for Progress {
    type V = Outcome;

    open spec fn view(&self) -> Outcome {
        match *self {
            Progress::Continue => Outcome::Continue,
            Progress::Message(m) => Outcome::Message(m@),
            Progress::Close(c) => Outcome::Close(c),
        }
    }
}

/// The length that a two-octet prefix announces, big-endian.
pub open spec fn announced_len(hi: u8, lo: u8) -> nat {
    (hi as nat) * 256 + (lo as nat)
}

/// Octets the reader has to ask the socket for in `phase`: the whole prefix,
/// or the rest of the message up to `READ_CHUNK`, or nothing once closed.
pub open spec fn wanted(phase: Phase) -> nat {
    match phase {
        Phase::Length => 2,
        Phase::Body { announced, received } => if received.len() >= announced {
            0
        } else if announced - received.len() > 512 {
            512
        } else {
            (announced - received.len()) as nat
        },
        Phase::Closed(_) => 0,
    }
}

/// The part of `octets` that the framer looks at: no more than it asked for.
pub open spec fn heeded(phase: Phase, octets: Seq<u8>) -> Seq<u8> {
    if octets.len() <= wanted(phase) {
        octets
    } else {
        octets.take(wanted(phase) as int)
    }
}

/// The phase after `octets` came back from the socket.
///
/// A short read where the prefix was expected is the peer's clean close.  A
/// prefix below two is a protocol error.  An empty read inside a message is
/// an unexpected end of stream.  A message that has all its octets puts the
/// framer back before the next prefix.
pub open spec fn next_phase(phase: Phase, octets: Seq<u8>) -> Phase {
    let seen = heeded(phase, octets);
    match phase {
        Phase::Length => if seen.len() < 2 {
            Phase::Closed(Closure::Clean)
        } else if announced_len(seen[0], seen[1]) < 2 {
            Phase::Closed(Closure::InvalidLength)
        } else {
            Phase::Body { announced: announced_len(seen[0], seen[1]), received: Seq::empty() }
        },
        Phase::Body { announced, received } => if seen.len() == 0 {
            Phase::Closed(Closure::UnexpectedEof)
        } else if received.len() + seen.len() >= announced {
            Phase::Length
        } else {
            Phase::Body { announced, received: received + seen }
        },
        Phase::Closed(c) => Phase::Closed(c),
    }
}

/// What the reader is told after `octets` came back from the socket.
pub open spec fn outcome(phase: Phase, octets: Seq<u8>) -> Outcome {
    match next_phase(phase, octets) {
        Phase::Closed(c) => Outcome::Close(c),
        Phase::Body { .. } => Outcome::Continue,
        Phase::Length => match phase {
            Phase::Body { announced, received } => Outcome::Message(
                received + heeded(phase, octets),
            ),
            _ => Outcome::Continue,
        },
    }
}

/// A phase that the framer can be in: inside a message, that message was
/// announced with at least two octets and still lacks some.
pub open spec fn reachable(phase: Phase) -> bool {
    match phase {
        Phase::Body { announced, received } => 2 <= announced <= 65535 && received.len()
            < announced,
        _ => true,
    }
}

/// What the socket hands over when the reader asks for `wanted(phase)`
/// octets and `stream` is all that is still to come.  Before a prefix the
/// read is a plain one and returns what there is, up to what was asked for.
/// Inside a message the read fills the buffer or fails, and a failed read
/// is fed to the framer as no octets.
pub open spec fn read_from(phase: Phase, stream: Seq<u8>) -> Seq<u8> {
    if stream.len() >= wanted(phase) {
        stream.take(wanted(phase) as int)
    } else if phase is Body {
        Seq::empty()
    } else {
        stream
    }
}

/// The messages that come out when the reader, starting in `phase`, reads
/// `stream` to its end.
pub open spec fn messages_read(phase: Phase, stream: Seq<u8>) -> Seq<Seq<u8>>
    decreases stream.len(),
{
    let octets = read_from(phase, stream);
    if phase is Closed || octets.len() == 0 {
        Seq::empty()
    } else {
        let rest = messages_read(next_phase(phase, octets), stream.skip(octets.len() as int));
        match outcome(phase, octets) {
            Outcome::Message(message) => seq![message] + rest,
            _ => rest,
        }
    }
}

/// How the connection ends when the reader, starting in `phase`, reads
/// `stream` to its end.
pub open spec fn closure_read(phase: Phase, stream: Seq<u8>) -> Closure
    decreases stream.len(),
{
    let octets = read_from(phase, stream);
    match next_phase(phase, octets) {
        Phase::Closed(closure) => closure,
        next => if octets.len() == 0 {
            Closure::Clean
        } else {
            closure_read(next, stream.skip(octets.len() as int))
        },
    }
}

/// Reading side of the framing.
pub struct Framer {
    stage: Stage,
    announced: usize,
    received: Vec<u8>,
}

enum Stage {
    Length,
    Body,
    Closed(Closure),
}

impl View for Framer {
    type V = Phase;

    closed spec fn view(&self) -> Phase {
        match self.stage {
            Stage::Length => Phase::Length,
            Stage::Body => Phase::Body {
                announced: self.announced as nat,
                received: self.received@,
            },
            Stage::Closed(c) => Phase::Closed(c),
        }
    }
}

impl Framer {
    /// A framer at the start of a stream.
    pub fn new() -> (framer: Self)
        ensures
            framer@ == Phase::Length,
    {
        Framer { stage: Stage::Length, announced: 0, received: Vec::new() }
    }

    /// How many octets to read next; zero once the connection is closed.
    /// The prefix is read with a plain read, a message body with reads that
    /// fill the buffer or fail.
    pub fn wanted(&self) -> (n: usize)
        ensures
            n == wanted(self@),
            n <= READ_CHUNK,
    {
        match self.stage {
            Stage::Length => LENGTH_PREFIX,
            Stage::Body => {
                if self.received.len() >= self.announced {
                    0
                } else if self.announced - self.received.len() > READ_CHUNK {
                    READ_CHUNK
                } else {
                    self.announced - self.received.len()
                }
            },
            Stage::Closed(_) => 0,
        }
    }

    /// Whether the next read is for the body of a message, where the stream
    /// must not end, and not for a prefix, where it may.
    pub fn in_message(&self) -> (inside: bool)
        ensures
            inside == (self@ is Body),
    {
        match self.stage {
            Stage::Body => true,
            _ => false,
        }
    }

    /// Takes what the socket returned for the last read.  An end of stream
    /// inside a message is fed as no octets.
    pub fn feed(&mut self, octets: &[u8]) -> (progress: Progress)
        ensures
            final(self)@ =~= next_phase(old(self)@, octets@),
            progress@ =~= outcome(old(self)@, octets@),
    {
        let want = self.wanted();
        let seen = if octets.len() <= want {
            octets
        } else {
            vstd::slice::slice_subrange(octets, 0, want)
        };
        assert(seen@ == heeded(self@, octets@));
        match self.stage {
            Stage::Length => {
                if seen.len() < 2 {
                    self.stage = Stage::Closed(Closure::Clean);
                    Progress::Close(Closure::Clean)
                } else {
                    let hi: usize = seen[0] as usize;
                    let lo: usize = seen[1] as usize;
                    let announced: usize = hi * 256 + lo;
                    if announced < 2 {
                        self.stage = Stage::Closed(Closure::InvalidLength);
                        Progress::Close(Closure::InvalidLength)
                    } else {
                        self.stage = Stage::Body;
                        self.announced = announced;
                        self.received = Vec::new();
                        Progress::Continue
                    }
                }
            },
            Stage::Body => {
                if seen.len() == 0 {
                    self.stage = Stage::Closed(Closure::UnexpectedEof);
                    Progress::Close(Closure::UnexpectedEof)
                } else {
                    self.received.extend_from_slice(seen);
                    if self.received.len() >= self.announced {
                        let mut message = Vec::new();
                        std::mem::swap(&mut message, &mut self.received);
                        self.stage = Stage::Length;
                        Progress::Message(message)
                    } else {
                        Progress::Continue
                    }
                }
            },
            Stage::Closed(c) => Progress::Close(c),
        }
    }
}

/// The two-octet big-endian prefix for a message of `len` octets.  A length
/// that does not fit in sixteen bits is cut to its low sixteen bits.
pub open spec fn length_prefix(len: nat) -> Seq<u8> {
    seq![((len / 256) % 256) as u8, (len % 256) as u8]
}

/// `message` as it goes onto the stream: prefix, then the message.
pub open spec fn framed(message: Seq<u8>) -> Seq<u8> {
    length_prefix(message.len()) + message
}

/// Puts the length prefix in front of `message`.
pub fn frame(message: &[u8]) -> (out: Vec<u8>)
    ensures
        out@ == framed(message@),
{
    let len = message.len();
    let mut out: Vec<u8> = Vec::new();
    out.push(((len / 256) % 256) as u8);
    out.push((len % 256) as u8);
    out.extend_from_slice(message);
    assert(out@ =~= framed(message@));
    out
}

/// `reply` as the client has to see it: under the client's own ID where the
/// reply's ID is known to the connection, untouched where it is not.
pub open spec fn restored(table: Map<u16, u16>, reply: Seq<u8>) -> Seq<u8>
    recommends
        reply.len() >= 2,
{
    if table.contains_key(id_of(reply)) {
        with_id(reply, table[id_of(reply)])
    } else {
        reply
    }
}

/// State shared by the reader and the writer of one connection: the proxy
/// IDs handed out on it, each with the ID the client chose.  Entries are kept
/// until the connection closes; a closed connection has no table at all.
pub struct TcpConnection {
    table: Option<IdTable<u16>>,
}

impl TcpConnection {
    /// Proxy ID to client ID, for every query entered so far.
    pub closed spec fn ids(&self) -> Map<u16, u16> {
        match self.table {
            Some(table) => table@,
            None => Map::empty(),
        }
    }

    /// Whether the connection is still served.
    pub closed spec fn is_open(&self) -> bool {
        self.table is Some
    }

    /// In every state, a connection that is no longer served holds no entry.
    pub proof fn law_closed_holds_nothing(&self)
        ensures
            !self.is_open() ==> self.ids() == Map::<u16, u16>::empty(),
    {
    }

    /// The state of a connection that was just accepted.
    pub fn new() -> (conn: Self)
        ensures
            conn.is_open(),
            conn.ids() == Map::<u16, u16>::empty(),
    {
        TcpConnection { table: Some(IdTable::new()) }
    }

    /// Whether the connection is still served.
    pub fn open(&self) -> (open: bool)
        ensures
            open == self.is_open(),
    {
        self.table.is_some()
    }

    /// Number of IDs handed out on this connection.
    pub fn in_flight(&self) -> (n: usize)
        ensures
            n == self.ids().dom().len(),
    {
        match &self.table {
            Some(table) => table.len(),
            None => 0,
        }
    }

    /// Reader: a complete message came off the stream.
    ///
    /// The message is entered under a fresh proxy ID and returned with that
    /// ID in place of the client's, ready for the query bus.  Nothing is
    /// entered on a closed connection, for a message without an ID, or
    /// with all 65536 IDs handed out.
    pub fn on_message(&mut self, message: Vec<u8>) -> (query: Option<Vec<u8>>)
        ensures
            final(self).is_open() == old(self).is_open(),
            query is Some <==> old(self).is_open() && message@.len() >= 2 && old(
                self,
            ).ids().dom().len() < 65536,
            match query {
                Some(q) => {
                    &&& !old(self).ids().contains_key(id_of(q@))
                    &&& q@ == with_id(message@, id_of(q@))
                    &&& final(self).ids() == old(self).ids().insert(id_of(q@), id_of(message@))
                },
                None => final(self).ids() == old(self).ids(),
            },
    {
        let original = match transaction_id(message.as_slice()) {
            Some(id) => id,
            None => {
                return None;
            },
        };
        match &mut self.table {
            Some(table) => {
                proof {
                    table.lemma_finite();
                    lemma_at_most_id_space(table@);
                }
                match table.assign(original) {
                    Ok(proxy_id) => {
                        let mut query = message;
                        set_transaction_id(&mut query, proxy_id);
                        proof {
                            crate::wire::lemma_id_of_with_id(message@, proxy_id);
                        }
                        Some(query)
                    },
                    Err(_) => None,
                }
            },
            None => None,
        }
    }

    /// Writer: the resolver sent `reply`.
    ///
    /// Returns the octets to write: the length prefix and the reply, with the
    /// client's ID restored where the reply's ID is known.  The entry stays
    /// in the table.  A reply without an ID is dropped, and nothing is
    /// written on a closed connection.
    pub fn on_reply(&self, reply: Vec<u8>) -> (out: Option<Vec<u8>>)
        ensures
            out is Some <==> self.is_open() && reply@.len() >= 2,
            match out {
                Some(octets) => octets@ == framed(restored(self.ids(), reply@)),
                None => true,
            },
    {
        let proxy_id = match transaction_id(reply.as_slice()) {
            Some(id) => id,
            None => {
                return None;
            },
        };
        match &self.table {
            Some(table) => {
                let mut message = reply;
                match table.get(proxy_id) {
                    Some(original) => {
                        set_transaction_id(&mut message, *original);
                    },
                    None => {},
                }
                Some(frame(message.as_slice()))
            },
            None => None,
        }
    }

    /// The reader decided to end the connection: every entry goes with it.
    pub fn close(&mut self)
        ensures
            !final(self).is_open(),
            final(self).ids() == Map::<u16, u16>::empty(),
    {
        self.table = None;
    }
}

} // verus!
