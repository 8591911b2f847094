//! What the listeners and the resolver guarantee together, proved from the
//! specifications that their functions are verified against.

use crate::resolver::{
    any_listed, is_response, question_names, rcode_of, reply_octets, ruling, sent, Ruling,
    NXDOMAIN,
};
use crate::tcp::{
    announced_len, closure_read, framed, length_prefix, messages_read, next_phase, outcome,
    reachable, read_from, restored, wanted, Closure, Outcome, Phase,
};
use crate::udp::{admitted, answers, delivered, destination, settled, UserMapping};
use crate::wire::{
    id_of, lemma_id_of_with_id, lemma_with_id_keeps_payload, lemma_with_id_restores, with_id,
};
use vstd::prelude::*;

verus! {

/// UDP: the reply to a query that went out under a proxy ID reaches the
/// client that sent the query, under the ID that client chose, with every
/// octet behind the ID as the resolver sent it; and the query's entry leaves
/// the table.
pub proof fn law_udp_reply_reaches_client<A>(
    table: Map<u16, UserMapping<A>>,
    datagram: Seq<u8>,
    from: A,
    proxy_id: u16,
    reply: Seq<u8>,
)
    requires
        datagram.len() >= 2,
        reply.len() >= 2,
        id_of(reply) == proxy_id,
    ensures
        ({
            let in_flight = admitted(table, datagram, from, proxy_id);
            &&& answers(in_flight, reply)
            &&& destination(in_flight, reply) == from
            &&& id_of(delivered(in_flight, reply)) == id_of(datagram)
            &&& delivered(in_flight, reply).len() == reply.len()
            &&& forall|i: int| 2 <= i < reply.len() ==> delivered(in_flight, reply)[i] == reply[i]
            &&& !settled(in_flight, reply).contains_key(proxy_id)
        }),
{
    lemma_id_of_with_id(reply, id_of(datagram));
    lemma_with_id_keeps_payload(reply, id_of(datagram));
}

/// UDP: entering a query under a free ID changes no other entry, so a query
/// in flight is answered the same whatever is entered after it.
pub proof fn law_udp_no_entry_overwritten<A>(
    table: Map<u16, UserMapping<A>>,
    datagram: Seq<u8>,
    from: A,
    proxy_id: u16,
    reply: Seq<u8>,
)
    requires
        !table.contains_key(proxy_id),
        answers(table, reply),
    ensures
        ({
            let later = admitted(table, datagram, from, proxy_id);
            &&& answers(later, reply)
            &&& delivered(later, reply) == delivered(table, reply)
            &&& destination(later, reply) == destination(table, reply)
        }),
{
}

/// UDP: two clients that chose the same ID each get the reply to their own
/// query at their own address, in whichever order the replies come.
pub proof fn law_udp_same_id_two_clients<A>(
    table: Map<u16, UserMapping<A>>,
    first: Seq<u8>,
    first_from: A,
    first_proxy: u16,
    second: Seq<u8>,
    second_from: A,
    second_proxy: u16,
    first_reply: Seq<u8>,
    second_reply: Seq<u8>,
)
    requires
        first.len() >= 2,
        second.len() >= 2,
        id_of(first) == id_of(second),
        first_from != second_from,
        !table.contains_key(first_proxy),
        !admitted(table, first, first_from, first_proxy).contains_key(second_proxy),
        first_reply.len() >= 2,
        second_reply.len() >= 2,
        id_of(first_reply) == first_proxy,
        id_of(second_reply) == second_proxy,
    ensures
        ({
            let both = admitted(
                admitted(table, first, first_from, first_proxy),
                second,
                second_from,
                second_proxy,
            );
            let after_first = settled(both, first_reply);
            let after_second = settled(both, second_reply);
            &&& answers(both, first_reply) && answers(after_second, first_reply)
            &&& answers(both, second_reply) && answers(after_first, second_reply)
            &&& destination(both, first_reply) == first_from
            &&& destination(after_second, first_reply) == first_from
            &&& destination(both, second_reply) == second_from
            &&& destination(after_first, second_reply) == second_from
            &&& delivered(both, first_reply) == with_id(first_reply, id_of(first))
            &&& delivered(after_second, first_reply) == with_id(first_reply, id_of(first))
            &&& delivered(both, second_reply) == with_id(second_reply, id_of(second))
            &&& delivered(after_first, second_reply) == with_id(second_reply, id_of(second))
            &&& settled(after_first, second_reply) == settled(after_second, first_reply)
        }),
{
    let one = admitted(table, first, first_from, first_proxy);
    let both = admitted(one, second, second_from, second_proxy);
    assert(first_proxy != second_proxy);
    assert(settled(settled(both, first_reply), second_reply) =~= settled(
        settled(both, second_reply),
        first_reply,
    ));
}

/// TCP: the reply to a message that went out under a proxy ID is written
/// under the ID the client chose, behind a prefix of its length, with every
/// octet behind the ID as the resolver sent it.
pub proof fn law_tcp_reply_restored(
    ids: Map<u16, u16>,
    message: Seq<u8>,
    proxy_id: u16,
    reply: Seq<u8>,
)
    requires
        message.len() >= 2,
        reply.len() >= 2,
        id_of(reply) == proxy_id,
    ensures
        ({
            let known = ids.insert(proxy_id, id_of(message));
            let written = framed(restored(known, reply));
            &&& restored(known, reply) == with_id(reply, id_of(message))
            &&& written.len() == reply.len() + 2
            &&& written.subrange(2, written.len() as int) == with_id(reply, id_of(message))
            &&& id_of(restored(known, reply)) == id_of(message)
            &&& forall|i: int| 2 <= i < reply.len() ==> restored(known, reply)[i] == reply[i]
        }),
{
    lemma_id_of_with_id(reply, id_of(message));
    lemma_with_id_keeps_payload(reply, id_of(message));
    let known = ids.insert(proxy_id, id_of(message));
    let written = framed(restored(known, reply));
    assert(written.subrange(2, written.len() as int) =~= with_id(reply, id_of(message)));
}

/// TCP: entering a message under a free ID changes no other entry, and
/// entries stay while the connection lives, so every reply on the
/// connection is restored the same whenever it comes.
pub proof fn law_tcp_no_entry_overwritten(
    ids: Map<u16, u16>,
    proxy_id: u16,
    original: u16,
    reply: Seq<u8>,
)
    requires
        !ids.contains_key(proxy_id),
        reply.len() >= 2,
        ids.contains_key(id_of(reply)),
    ensures
        restored(ids.insert(proxy_id, original), reply) == restored(ids, reply),
{
}

/// A query that parses and names nothing listed is forwarded as it is, the
/// upstream's response body goes onto the reply sink as it is, and what the
/// UDP client gets is that body, octet for octet, but for the first two
/// octets, which are the ID the client chose.
pub proof fn law_forwarded_reply_intact<A>(
    listed: Set<Seq<char>>,
    table: Map<u16, UserMapping<A>>,
    datagram: Seq<u8>,
    from: A,
    proxy_id: u16,
    upstream: Seq<u8>,
)
    requires
        datagram.len() >= 2,
        question_names(with_id(datagram, proxy_id)) is Some,
        !any_listed(listed, question_names(with_id(datagram, proxy_id))->0),
        upstream.len() >= 2,
        id_of(upstream) == proxy_id,
    ensures
        ({
            let query = with_id(datagram, proxy_id);
            let decided = ruling(
                listed,
                query,
                question_names(query),
                reply_octets(query, NXDOMAIN),
            );
            let in_flight = admitted(table, datagram, from, proxy_id);
            let got = delivered(in_flight, upstream);
            &&& decided == Ruling::Forward(query)
            &&& sent(decided, upstream) == Some(upstream)
            &&& answers(in_flight, upstream)
            &&& destination(in_flight, upstream) == from
            &&& got.len() == upstream.len()
            &&& id_of(got) == id_of(datagram)
            &&& got.subrange(2, got.len() as int) == upstream.subrange(2, upstream.len() as int)
        }),
{
    lemma_id_of_with_id(upstream, id_of(datagram));
    lemma_with_id_keeps_payload(upstream, id_of(datagram));
}

/// A query that does not parse goes back onto the reply sink as it came,
/// and what the UDP client gets is its own datagram.
pub proof fn law_unparsed_query_echoed<A>(
    listed: Set<Seq<char>>,
    table: Map<u16, UserMapping<A>>,
    datagram: Seq<u8>,
    from: A,
    proxy_id: u16,
    upstream: Seq<u8>,
)
    requires
        datagram.len() >= 2,
        question_names(with_id(datagram, proxy_id)) is None,
    ensures
        ({
            let query = with_id(datagram, proxy_id);
            let decided = ruling(
                listed,
                query,
                question_names(query),
                reply_octets(query, NXDOMAIN),
            );
            let in_flight = admitted(table, datagram, from, proxy_id);
            &&& sent(decided, upstream) == Some(query)
            &&& answers(in_flight, query)
            &&& destination(in_flight, query) == from
            &&& delivered(in_flight, query) == datagram
        }),
{
    lemma_id_of_with_id(datagram, proxy_id);
    lemma_with_id_restores(datagram, proxy_id);
}

/// Restoring the client's ID leaves the header's flags alone: a reply that
/// says "response" with some response code still says so when delivered.
pub proof fn law_restoring_keeps_flags(reply: Seq<u8>, original: u16)
    requires
        reply.len() >= 12,
    ensures
        is_response(with_id(reply, original)) == is_response(reply),
        rcode_of(with_id(reply, original)) == rcode_of(reply),
        id_of(with_id(reply, original)) == original,
{
    lemma_id_of_with_id(reply, original);
}

/// TCP framing: the prefix that the writer makes announces to the reader the
/// length it was made from.
pub proof fn law_prefix_announces(len: nat)
    requires
        len <= 65535,
    ensures
        length_prefix(len).len() == 2,
        announced_len(length_prefix(len)[0], length_prefix(len)[1]) == len,
{
}

/// TCP framing: from a reachable phase the framer gets only into reachable
/// phases, it asks for at least one octet and at most 512 until it is closed,
/// and a message it hands out has exactly the announced number of octets.
pub proof fn law_framer_stays_reachable(phase: Phase, octets: Seq<u8>)
    requires
        reachable(phase),
    ensures
        reachable(next_phase(phase, octets)),
        wanted(phase) <= 512,
        phase !is Closed ==> wanted(phase) > 0,
        match outcome(phase, octets) {
            Outcome::Message(m) => phase matches Phase::Body { announced, .. } && m.len()
                == announced,
            _ => true,
        },
{
}

/// Inside a message whose missing octets are next on the stream, the reader
/// delivers that message and goes on with what follows it.
proof fn lemma_body_read_back(announced: nat, received: Seq<u8>, missing: Seq<u8>, rest: Seq<u8>)
    requires
        received.len() < announced,
        received.len() + missing.len() == announced,
    ensures
        messages_read(Phase::Body { announced, received }, missing + rest) == seq![
            received + missing,
        ] + messages_read(Phase::Length, rest),
        closure_read(Phase::Body { announced, received }, missing + rest) == closure_read(
            Phase::Length,
            rest,
        ),
    decreases missing.len(),
{
    let phase = Phase::Body { announced, received };
    let stream = missing + rest;
    let octets = read_from(phase, stream);
    let want = wanted(phase) as int;
    assert(0 < want <= missing.len());
    assert(octets =~= missing.take(want));
    assert(stream.skip(want) =~= missing.skip(want) + rest);
    if want == missing.len() {
        assert(missing.take(want) =~= missing);
        assert(missing.skip(want) + rest =~= rest);
        assert(next_phase(phase, octets) == Phase::Length);
        assert(outcome(phase, octets) == Outcome::Message(received + missing));
    } else {
        let so_far = received + octets;
        assert(next_phase(phase, octets) =~= Phase::Body { announced, received: so_far });
        assert(outcome(phase, octets) == Outcome::Continue);
        lemma_body_read_back(announced, so_far, missing.skip(want), rest);
        assert(so_far + missing.skip(want) =~= received + missing);
    }
}

/// TCP framing: what the writer puts on a stream for a message of two to
/// 65535 octets, the reader takes off it as that message, and then reads on
/// as if the stream had begun behind it.
pub proof fn law_frame_read_back(message: Seq<u8>, rest: Seq<u8>)
    requires
        2 <= message.len() <= 65535,
    ensures
        messages_read(Phase::Length, framed(message) + rest) == seq![message] + messages_read(
            Phase::Length,
            rest,
        ),
        closure_read(Phase::Length, framed(message) + rest) == closure_read(Phase::Length, rest),
{
    let stream = framed(message) + rest;
    let prefix = length_prefix(message.len());
    let octets = read_from(Phase::Length, stream);
    assert(octets =~= prefix);
    let body = Phase::Body { announced: message.len(), received: Seq::<u8>::empty() };
    assert(next_phase(Phase::Length, octets) =~= body);
    assert(outcome(Phase::Length, octets) == Outcome::Continue);
    assert(stream.skip(2) =~= message + rest);
    lemma_body_read_back(message.len(), Seq::<u8>::empty(), message, rest);
    assert(Seq::<u8>::empty() + message =~= message);
}

/// TCP framing: a stream that ends between two messages ends the connection
/// cleanly, and one that ends inside a prefix does too.
pub proof fn law_stream_end_is_clean(stream: Seq<u8>)
    requires
        stream.len() < 2,
    ensures
        messages_read(Phase::Length, stream) == Seq::<Seq<u8>>::empty(),
        closure_read(Phase::Length, stream) == Closure::Clean,
{
    let octets = read_from(Phase::Length, stream);
    assert(octets == stream);
    if stream.len() > 0 {
        let closed = next_phase(Phase::Length, octets);
        assert(closed == Phase::Closed(Closure::Clean));
        assert(messages_read(closed, stream.skip(octets.len() as int)) == Seq::<
            Seq<u8>,
        >::empty());
    }
}

} // verus!
