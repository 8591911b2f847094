use dns_proxy::tcp::{
    frame, Closure, Framer, Progress, TcpConnection, LENGTH_PREFIX, READ_CHUNK, REPLY_CAPACITY,
};
use dns_proxy::wire::transaction_id;

fn query_of_28(id: u16, tail: u8) -> Vec<u8> {
    let mut q = vec![(id >> 8) as u8, (id & 0xff) as u8, 0x01, 0x00, 0, 1, 0, 0, 0, 0, 0, 0, 7];
    q.extend_from_slice(b"example");
    q.push(2);
    q.extend_from_slice(b"io");
    q.extend_from_slice(&[0, 0, tail, 0, 1]);
    assert_eq!(q.len(), 28);
    q
}

/// Reads `stream` the way the reader task does: as many octets as the framer
/// wants each time, all or nothing inside a message.
fn read_stream(stream: &[u8]) -> (Vec<Vec<u8>>, Closure) {
    let mut framer = Framer::new();
    let mut messages = Vec::new();
    let mut at = 0;
    loop {
        let want = framer.wanted();
        let left = stream.len() - at;
        let take = if framer.in_message() {
            if left < want {
                0
            } else {
                want
            }
        } else {
            want.min(left)
        };
        let progress = framer.feed(&stream[at..at + take]);
        at += take;
        match progress {
            Progress::Continue => {},
            Progress::Message(m) => messages.push(m),
            Progress::Close(c) => return (messages, c),
        }
    }
}

#[test]
fn tcp_constants() {
    assert_eq!(LENGTH_PREFIX, 2);
    assert_eq!(READ_CHUNK, 512);
    assert_eq!(REPLY_CAPACITY, 32);
}

#[test]
fn frame_puts_big_endian_length_in_front() {
    assert_eq!(frame(&[9, 8, 7]), vec![0, 3, 9, 8, 7]);
    let long = vec![5u8; 0x0123];
    let framed = frame(&long);
    assert_eq!(&framed[..2], &[0x01, 0x23]);
    assert_eq!(&framed[2..], &long[..]);
}

#[test]
fn frame_cuts_an_oversized_length_to_sixteen_bits() {
    let long = vec![1u8; 65536 + 5];
    let framed = frame(&long);
    assert_eq!(&framed[..2], &[0, 5]);
    assert_eq!(framed.len(), 65536 + 7);
}

#[test]
fn framer_starts_before_a_prefix() {
    let framer = Framer::new();
    assert_eq!(framer.wanted(), 2);
    assert!(!framer.in_message());
}

#[test]
fn framer_reads_one_message() {
    let mut framer = Framer::new();
    assert_eq!(framer.feed(&[0x00, 0x1C]), Progress::Continue);
    assert!(framer.in_message());
    assert_eq!(framer.wanted(), 28);
    let query = query_of_28(0x0102, 1);
    assert_eq!(framer.feed(&query), Progress::Message(query.clone()));
    assert!(!framer.in_message());
    assert_eq!(framer.wanted(), 2);
}

#[test]
fn framer_reads_long_bodies_in_chunks() {
    let body: Vec<u8> = (0..1200u32).map(|n| (n % 251) as u8).collect();
    let mut framer = Framer::new();
    assert_eq!(framer.feed(&[0x04, 0xB0]), Progress::Continue);
    assert_eq!(framer.wanted(), 512);
    assert_eq!(framer.feed(&body[..512]), Progress::Continue);
    assert_eq!(framer.wanted(), 512);
    assert_eq!(framer.feed(&body[512..1024]), Progress::Continue);
    assert_eq!(framer.wanted(), 176);
    assert_eq!(framer.feed(&body[1024..]), Progress::Message(body.clone()));
}

#[test]
fn framer_heeds_no_more_than_it_asked_for() {
    let mut framer = Framer::new();
    assert_eq!(framer.feed(&[0, 2, 0xEE]), Progress::Continue);
    assert_eq!(framer.wanted(), 2);
    assert_eq!(framer.feed(&[7, 8, 9, 10]), Progress::Message(vec![7, 8]));
}

#[test]
fn short_prefix_is_a_clean_close() {
    let mut framer = Framer::new();
    assert_eq!(framer.feed(&[]), Progress::Close(Closure::Clean));
    let mut framer = Framer::new();
    assert_eq!(framer.feed(&[0x00]), Progress::Close(Closure::Clean));
    assert_eq!(framer.wanted(), 0);
}

#[test]
fn length_below_two_is_a_protocol_error() {
    let mut framer = Framer::new();
    assert_eq!(framer.feed(&[0, 0]), Progress::Close(Closure::InvalidLength));
    let mut framer = Framer::new();
    assert_eq!(framer.feed(&[0, 1]), Progress::Close(Closure::InvalidLength));
    let mut framer = Framer::new();
    assert_eq!(framer.feed(&[0, 2]), Progress::Continue);
}

#[test]
fn end_of_stream_inside_a_message_is_a_protocol_error() {
    let mut framer = Framer::new();
    assert_eq!(framer.feed(&[0, 4]), Progress::Continue);
    assert_eq!(framer.feed(&[1, 2]), Progress::Continue);
    assert_eq!(framer.feed(&[]), Progress::Close(Closure::UnexpectedEof));
}

#[test]
fn closed_framer_stays_closed() {
    let mut framer = Framer::new();
    assert_eq!(framer.feed(&[0, 1]), Progress::Close(Closure::InvalidLength));
    assert_eq!(framer.wanted(), 0);
    assert_eq!(framer.feed(&[0, 4]), Progress::Close(Closure::InvalidLength));
    assert_eq!(framer.feed(&[]), Progress::Close(Closure::InvalidLength));
}

#[test]
fn what_frame_writes_the_framer_reads() {
    let a = query_of_28(1, 1);
    let b: Vec<u8> = (0..700u32).map(|n| n as u8).collect();
    let c = vec![0xAA, 0xBB];
    let mut stream = frame(&a);
    stream.extend_from_slice(&frame(&b));
    stream.extend_from_slice(&frame(&c));
    let (messages, closure) = read_stream(&stream);
    assert_eq!(messages, vec![a, b, c]);
    assert_eq!(closure, Closure::Clean);
}

#[test]
fn truncated_stream_ends_in_unexpected_eof() {
    let mut stream = frame(&query_of_28(1, 1));
    stream.extend_from_slice(&[0, 10, 1, 2, 3]);
    let (messages, closure) = read_stream(&stream);
    assert_eq!(messages.len(), 1);
    assert_eq!(closure, Closure::UnexpectedEof);
}

#[test]
fn connection_starts_open_and_empty() {
    let conn = TcpConnection::new();
    assert!(conn.open());
    assert_eq!(conn.in_flight(), 0);
}

#[test]
fn on_message_rewrites_only_the_id() {
    let mut conn = TcpConnection::new();
    let message = query_of_28(0x1234, 1);
    let query = conn.on_message(message.clone()).expect("entered");
    assert_eq!(query.len(), 28);
    assert_eq!(&query[2..], &message[2..]);
    assert_eq!(conn.in_flight(), 1);
}

#[test]
fn on_message_drops_what_has_no_id() {
    let mut conn = TcpConnection::new();
    assert_eq!(conn.on_message(vec![1]), None);
    assert_eq!(conn.in_flight(), 0);
}

#[test]
fn on_reply_restores_the_id_and_frames() {
    let mut conn = TcpConnection::new();
    let query = conn.on_message(vec![0x12, 0x34, 5, 6]).expect("entered");
    let mut reply = query.clone();
    reply.push(7);
    assert_eq!(conn.on_reply(reply), Some(vec![0, 5, 0x12, 0x34, 5, 6, 7]));
}

#[test]
fn on_reply_keeps_the_entry() {
    let mut conn = TcpConnection::new();
    let query = conn.on_message(vec![0x12, 0x34, 5]).expect("entered");
    assert_eq!(conn.on_reply(query.clone()), Some(vec![0, 3, 0x12, 0x34, 5]));
    assert_eq!(conn.on_reply(query), Some(vec![0, 3, 0x12, 0x34, 5]));
    assert_eq!(conn.in_flight(), 1);
}

#[test]
fn on_reply_passes_unknown_ids_through() {
    let conn = TcpConnection::new();
    assert_eq!(conn.on_reply(vec![0xDE, 0xAD, 1]), Some(vec![0, 3, 0xDE, 0xAD, 1]));
}

#[test]
fn on_reply_drops_what_has_no_id() {
    let conn = TcpConnection::new();
    assert_eq!(conn.on_reply(vec![0xDE]), None);
    assert_eq!(conn.on_reply(vec![]), None);
}

#[test]
fn close_drops_every_entry() {
    let mut conn = TcpConnection::new();
    let query = conn.on_message(vec![0x12, 0x34, 5]).expect("entered");
    assert_eq!(conn.in_flight(), 1);
    conn.close();
    assert!(!conn.open());
    assert_eq!(conn.in_flight(), 0);
    assert_eq!(conn.on_reply(query), None);
    assert_eq!(conn.on_message(vec![0x12, 0x34, 5]), None);
    assert_eq!(conn.in_flight(), 0);
}

#[test]
fn tcp_framing_two_queries_replies_out_of_order() {
    let first = query_of_28(0x1111, 1);
    let second = query_of_28(0x2222, 28);
    let mut stream = vec![0x00, 0x1C];
    stream.extend_from_slice(&first);
    stream.extend_from_slice(&[0x00, 0x1C]);
    stream.extend_from_slice(&second);

    let (messages, closure) = read_stream(&stream);
    assert_eq!(messages, vec![first.clone(), second.clone()]);
    assert_eq!(closure, Closure::Clean);

    let mut conn = TcpConnection::new();
    let mut queries = Vec::new();
    for message in messages {
        queries.push(conn.on_message(message).expect("entered"));
    }
    assert_ne!(transaction_id(&queries[0]), transaction_id(&queries[1]));

    // the second reply arrives first
    let mut expected_second = vec![0x00, 0x1C];
    expected_second.extend_from_slice(&second);
    let mut expected_first = vec![0x00, 0x1C];
    expected_first.extend_from_slice(&first);
    assert_eq!(conn.on_reply(queries[1].clone()), Some(expected_second));
    assert_eq!(conn.on_reply(queries[0].clone()), Some(expected_first));
}
