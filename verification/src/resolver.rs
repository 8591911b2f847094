//! The resolver's decision for one query: echo what cannot be parsed, refuse
//! what the blocklist names, forward the rest upstream.
//!
//! Parsing and building DNS messages is the work of the `simple_dns` crate;
//! the two calls into it are the trusted functions at the top of this file.

use crate::filter::Filter;
use crate::wire::id_of;
use vstd::prelude::*;
use vstd::string::*;

verus! {

/// Where forwarded queries are posted.
pub const UPSTREAM_URI: &'static str = "https://1.1.1.1/dns-query";

/// Media type of the posted body.
pub const UPSTREAM_CONTENT_TYPE: &'static str = "application/dns-message";

/// Capacity of the query bus between the listeners and the resolver.
pub const QUERY_BUS_CAPACITY: usize = 32;

/// Response code of a refusal: the name does not exist.
pub const NXDOMAIN: u16 = 3;

/// The names asked for in `message`, one per question and in the message's
/// order, each as `simple_dns` prints it: labels joined by dots, nothing at
/// the end.  `None` where `simple_dns` does not accept `message` as a DNS
/// message.
pub uninterp spec fn question_names(message: Seq<u8>) -> Option<Seq<Seq<char>>>;

/// The reply that `simple_dns` builds to `message` with response code
/// `rcode`: the parsed message with a fresh reply header, written back with
/// name compression.  `None` where the message does not parse or the reply
/// cannot be written.
pub uninterp spec fn reply_octets(message: Seq<u8>, rcode: u16) -> Option<Seq<u8>>;

/// Whether the QR bit of the header says "response".
pub open spec fn is_response(message: Seq<u8>) -> bool
    recommends
        message.len() >= 12,
{
    message[2] >= 128
}

/// The four-bit response code of the header.
pub open spec fn rcode_of(message: Seq<u8>) -> int
    recommends
        message.len() >= 12,
{
    message[3] as int % 16
}

/// Calls `simple_dns::Packet::parse` and prints the name of each question
/// with `to_string`.  Claimed: the result depends on the octets alone.
#[verifier::external_body]
fn parse_question_names(message: &[u8]) -> (names: Option<Vec<String>>)
    ensures
        names.deep_view() == question_names(message@),
{
    let packet = simple_dns::Packet::parse(message).ok()?;
    Some(packet.questions.iter().map(|q| q.qname.to_string()).collect())
}

/// Calls `simple_dns::Packet::parse`, `Packet::into_reply`, sets the
/// response code through `Packet::rcode_mut` and writes the packet with
/// `Packet::build_bytes_vec_compressed`.
///
/// Claimed of a reply that was built: it depends on the arguments alone; it
/// has a full header, which carries the ID of `message`, the QR bit, and in
/// its fourth octet nothing but `rcode`.  `into_reply` makes the header from
/// the ID and the opcode alone, and the header writer puts the response
/// code into the low four bits.
#[verifier::external_body]
fn build_reply(message: &[u8], rcode: u16) -> (reply: Option<Vec<u8>>)
    requires
        rcode <= 10,
    ensures
        reply.deep_view() == reply_octets(message@, rcode),
        match reply {
            Some(r) => {
                &&& message@.len() >= 12
                &&& r@.len() >= 12
                &&& r@[0] == message@[0]
                &&& r@[1] == message@[1]
                &&& r@[2] >= 128
                &&& r@[3] == rcode
            },
            None => true,
        },
{
    let mut reply = simple_dns::Packet::parse(message).ok()?.into_reply();
    *reply.rcode_mut() = simple_dns::RCODE::from(rcode);
    reply.build_bytes_vec_compressed().ok()
}

/// A name as the blocklist spells it: the printed name and a closing dot.
pub open spec fn canonical(name: Seq<char>) -> Seq<char> {
    name + seq!['.']
}

/// Whether the blocklist holds one of `names` in canonical form.
pub open spec fn any_listed(listed: Set<Seq<char>>, names: Seq<Seq<char>>) -> bool {
    exists|i: int| 0 <= i < names.len() && listed.contains(canonical(#[trigger] names[i]))
}

/// What the resolver does with a query, over sequences.
#[verifier::ext_equal]
pub enum Ruling {
    /// Send these octets back on the reply sink.
    Reply(Seq<u8>),
    /// Post these octets upstream and send back the response body.
    Forward(Seq<u8>),
    /// Send nothing.
    Drop,
}

/// What the resolver does with a query.
#[derive(Debug, PartialEq, Eq)]
pub enum Decision {
    /// Send these octets back on the reply sink.
    Reply(Vec<u8>),
    /// Post these octets upstream and send back the response body.
    Forward(Vec<u8>),
    /// Send nothing.
    Drop,
}

impl View for Decision {
    type V = Ruling;

    open spec fn view(&self) -> Ruling {
        match *self {
            Decision::Reply(r) => Ruling::Reply(r@),
            Decision::Forward(q) => Ruling::Forward(q@),
            Decision::Drop => Ruling::Drop,
        }
    }
}

/// The rule.  A message that does not parse is echoed as it came.  A message
/// with a listed name is answered with `refusal`, the reply built for it, or
/// with nothing where none could be built.  Every other message is
/// forwarded as it came.
pub open spec fn ruling(
    listed: Set<Seq<char>>,
    message: Seq<u8>,
    names: Option<Seq<Seq<char>>>,
    refusal: Option<Seq<u8>>,
) -> Ruling {
    match names {
        None => Ruling::Reply(message),
        Some(names) => if any_listed(listed, names) {
            match refusal {
                Some(reply) => Ruling::Reply(reply),
                None => Ruling::Drop,
            }
        } else {
            Ruling::Forward(message)
        },
    }
}

/// What goes onto the reply sink once `upstream` has answered, if anything.
pub open spec fn sent(ruling: Ruling, upstream: Seq<u8>) -> Option<Seq<u8>> {
    match ruling {
        Ruling::Reply(reply) => Some(reply),
        Ruling::Forward(_) => Some(upstream),
        Ruling::Drop => None,
    }
}

/// Whether the blocklist holds one of `names` in canonical form.  The first
/// hit ends the search.
pub fn listed_name(filter: &Filter, names: &Vec<String>) -> (hit: bool)
    ensures
        hit == any_listed(filter@, names.deep_view()),
{
    let mut i: usize = 0;
    while i < names.len()
        invariant
            i <= names.len(),
            forall|j: int| 0 <= j < i ==> !filter@.contains(canonical(#[trigger] names@[j]@)),
        decreases names.len() - i,
    {
        let name = names[i].clone().concat(".");
        proof {
            reveal_strlit(".");
            assert("."@ =~= seq!['.']);
        }
        if filter.contains(&name) {
            assert(names.deep_view()[i as int] == names@[i as int]@);
            return true;
        }
        i = i + 1;
    }
    assert forall|j: int| 0 <= j < names.deep_view().len() implies !filter@.contains(
        canonical(#[trigger] names.deep_view()[j]),
    ) by {
        assert(names.deep_view()[j] == names@[j]@);
    }
    false
}

/// The rule, once it is known whether the query parsed and whether one of
/// its names is listed.
fn settle(message: Vec<u8>, parsed: bool, hit: bool, refusal: Option<Vec<u8>>) -> (decision:
    Decision)
    ensures
        !parsed ==> decision@ == Ruling::Reply(message@),
        parsed && !hit ==> decision@ == Ruling::Forward(message@),
        parsed && hit ==> decision@ == match refusal {
            Some(reply) => Ruling::Reply(reply@),
            None => Ruling::Drop,
        },
{
    if !parsed {
        Decision::Reply(message)
    } else if hit {
        match refusal {
            Some(reply) => Decision::Reply(reply),
            None => Decision::Drop,
        }
    } else {
        Decision::Forward(message)
    }
}

/// Applies the rule to a query whose names were parsed already; `refusal`
/// is the reply to send should a name be listed.
pub fn decide_parsed(
    filter: &Filter,
    message: Vec<u8>,
    names: Option<Vec<String>>,
    refusal: Option<Vec<u8>>,
) -> (decision: Decision)
    ensures
        decision@ == ruling(filter@, message@, names.deep_view(), refusal.deep_view()),
{
    let hit = match &names {
        Some(names) => listed_name(filter, names),
        None => false,
    };
    settle(message, names.is_some(), hit, refusal)
}

/// Decides what to do with `message`, as it came off the query bus.
///
/// A refusal answers under the ID of the query, says "response" and carries
/// the response code for a name that does not exist.
pub fn decide(filter: &Filter, message: Vec<u8>) -> (decision: Decision)
    ensures
        decision@ == ruling(
            filter@,
            message@,
            question_names(message@),
            reply_octets(message@, NXDOMAIN),
        ),
        question_names(message@) is Some && any_listed(filter@, question_names(message@)->0)
            ==> match decision {
            Decision::Reply(reply) => {
                &&& reply@.len() >= 12
                &&& message@.len() >= 12
                &&& id_of(reply@) == id_of(message@)
                &&& is_response(reply@)
                &&& rcode_of(reply@) == 3
            },
            _ => decision is Drop,
        },
{
    let names = parse_question_names(message.as_slice());
    let hit = match &names {
        Some(names) => listed_name(filter, names),
        None => false,
    };
    let refusal = if hit {
        build_reply(message.as_slice(), NXDOMAIN)
    } else {
        None
    };
    settle(message, names.is_some(), hit, refusal)
}

} // verus!
