//! The two octets of a DNS wire message that the listeners interpret: the
//! big-endian transaction ID at offset 0–1.

use vstd::prelude::*;

verus! {

/// Shortest message that carries a transaction ID.  Anything shorter is
/// dropped by every listener.
pub const MIN_MESSAGE_LEN: usize = 2;

/// The transaction ID of `msg`: octets 0 and 1, big-endian.
pub open spec fn id_of(msg: Seq<u8>) -> u16
    recommends
        msg.len() >= 2,
{
    (msg[0] as int * 256 + msg[1] as int) as u16
}

/// `msg` with its transaction ID replaced by `id`; every other octet stays.
pub open spec fn with_id(msg: Seq<u8>, id: u16) -> Seq<u8>
    recommends
        msg.len() >= 2,
{
    msg.update(0, (id / 256) as u8).update(1, (id % 256) as u8)
}

/// Reads the transaction ID, if the message is long enough to have one.
pub fn transaction_id(msg: &[u8]) -> (id: Option<u16>)
    ensures
        msg@.len() >= 2 ==> id == Some(id_of(msg@)),
        msg@.len() < 2 ==> id is None,
{
    if msg.len() < MIN_MESSAGE_LEN {
        None
    } else {
        let hi: u16 = msg[0] as u16;
        let lo: u16 = msg[1] as u16;
        Some(hi * 256 + lo)
    }
}

/// Overwrites the transaction ID in place.
pub fn set_transaction_id(msg: &mut Vec<u8>, id: u16)
    requires
        old(msg)@.len() >= 2,
    ensures
        final(msg)@ == with_id(old(msg)@, id),
{
    msg[0] = (id / 256) as u8;
    msg[1] = (id % 256) as u8;
}

/// Writing an ID and reading it back gives that ID; the length stays.
pub proof fn lemma_id_of_with_id(msg: Seq<u8>, id: u16)
    requires
        msg.len() >= 2,
    ensures
        id_of(with_id(msg, id)) == id,
        with_id(msg, id).len() == msg.len(),
{
}

/// Writing an ID touches nothing but octets 0 and 1.
pub proof fn lemma_with_id_keeps_payload(msg: Seq<u8>, id: u16)
    requires
        msg.len() >= 2,
    ensures
        with_id(msg, id).subrange(2, msg.len() as int) == msg.subrange(2, msg.len() as int),
        forall|i: int| 2 <= i < msg.len() ==> with_id(msg, id)[i] == msg[i],
{
    assert(with_id(msg, id).subrange(2, msg.len() as int) =~= msg.subrange(2, msg.len() as int));
}

/// Putting a message's own ID back undoes any rewrite of it.
pub proof fn lemma_with_id_restores(msg: Seq<u8>, proxy_id: u16)
    requires
        msg.len() >= 2,
    ensures
        with_id(with_id(msg, proxy_id), id_of(msg)) == msg,
{
    assert(with_id(with_id(msg, proxy_id), id_of(msg)) =~= msg);
}

} // verus!
