use dns_protocol::{Message, MessageType, Question, ResourceRecord, ResourceType};
use winderoo_firmware::embassy::captive_portal::{
    build_dns_wildcard_response, build_dns_wildcard_response_checked, dns_wildcard_response,
    reply_flags, set_header_flags, wildcard_reply, DnsQuery, DnsQuestion,
};

fn make_query_a_example_com(id: u16) -> [u8; 29] {
    // 12-byte header + QNAME (13 bytes) + QTYPE/QCLASS (4 bytes) = 29 bytes
    let mut q = [0u8; 29];
    q[0..2].copy_from_slice(&id.to_be_bytes());
    q[2..4].copy_from_slice(&0x0100u16.to_be_bytes()); // RD=1
    q[4..6].copy_from_slice(&1u16.to_be_bytes()); // QDCOUNT=1

    // QNAME: example.com
    let mut i = 12usize;
    q[i] = 7;
    i += 1;
    q[i..i + 7].copy_from_slice(b"example");
    i += 7;
    q[i] = 3;
    i += 1;
    q[i..i + 3].copy_from_slice(b"com");
    i += 3;
    q[i] = 0;
    i += 1;

    // QTYPE=A, QCLASS=IN
    q[i..i + 2].copy_from_slice(&1u16.to_be_bytes());
    i += 2;
    q[i..i + 2].copy_from_slice(&1u16.to_be_bytes());
    q
}

#[test]
fn dns_wildcard_answers_a_records() {
    let query = make_query_a_example_com(0x1234);
    let mut out = [0u8; 512];
    let len = build_dns_wildcard_response(&query, &mut out, [192, 168, 4, 1]).expect("resp");

    let mut qbuf = [Question::default(); 1];
    let mut abuf = [ResourceRecord::default(); 1];
    let msg = Message::read(&out[..len], &mut qbuf, &mut abuf, &mut [], &mut []).expect("parse");

    assert_eq!(msg.id(), 0x1234);
    assert_eq!(msg.flags().qr(), MessageType::Reply);
    assert!(msg.flags().authoritative());
    assert!(msg.flags().recursive()); // RD preserved
    assert_eq!(msg.questions().len(), 1);
    assert_eq!(msg.answers().len(), 1);

    let answer = msg.answers()[0];
    assert_eq!(answer.ty(), ResourceType::A);
    assert_eq!(answer.class(), 1);
    assert_eq!(answer.ttl(), 0);
    assert_eq!(answer.data(), &[192, 168, 4, 1]);
}

#[test]
fn dns_wildcard_returns_no_answer_for_non_a() {
    let mut query = make_query_a_example_com(0x1);
    // Overwrite QTYPE to AAAA (28).
    let qtype_offset = query.len() - 4;
    query[qtype_offset..qtype_offset + 2].copy_from_slice(&28u16.to_be_bytes());

    let mut out = [0u8; 512];
    let len = build_dns_wildcard_response(&query, &mut out, [192, 168, 4, 1]).expect("resp");

    let mut qbuf = [Question::default(); 1];
    let mut abuf = [ResourceRecord::default(); 1];
    let msg = Message::read(&out[..len], &mut qbuf, &mut abuf, &mut [], &mut []).expect("parse");

    assert_eq!(msg.flags().qr(), MessageType::Reply);
    assert_eq!(msg.questions().len(), 1);
    assert_eq!(msg.answers().len(), 0);
}

#[test]
fn dns_reply_flags_exact_values() {
    // Standard recursive query: QR, AA set, RD kept.
    assert_eq!(reply_flags(0x0100), 0x8500);
    // TC, RA and an error code are cleared; the opcode is kept.
    assert_eq!(reply_flags(0x0B8F), 0x8D00);
    assert_eq!(reply_flags(0x0000), 0x8400);
}

#[test]
fn dns_wildcard_reply_decisions() {
    let a_in = DnsQuery { id: 7, flags: 0x0100, question: Some(DnsQuestion { ty: 1, class: 1 }) };
    let (flags, answers) = wildcard_reply(a_in, [10, 0, 0, 1]).expect("reply");
    assert_eq!(flags, 0x8500);
    assert_eq!(answers.len(), 1);
    assert_eq!(answers[0].ty, 1);
    assert_eq!(answers[0].class, 1);
    assert_eq!(answers[0].ttl, 0);
    assert_eq!(answers[0].data, vec![10, 0, 0, 1]);

    let aaaa = DnsQuery { id: 7, flags: 0, question: Some(DnsQuestion { ty: 28, class: 1 }) };
    let (flags, answers) = wildcard_reply(aaaa, [10, 0, 0, 1]).expect("reply");
    assert_eq!(flags, 0x8400);
    assert!(answers.is_empty());

    let reply = DnsQuery { id: 7, flags: 0x8000, question: Some(DnsQuestion { ty: 1, class: 1 }) };
    assert!(wildcard_reply(reply, [10, 0, 0, 1]).is_none());

    let no_question = DnsQuery { id: 7, flags: 0, question: None };
    assert!(wildcard_reply(no_question, [10, 0, 0, 1]).is_none());
}

#[test]
fn dns_header_flags_are_set_big_endian() {
    let bytes = [1u8, 2, 3, 4, 5];
    assert_eq!(set_header_flags(&bytes, 0x8500), vec![1, 2, 0x85, 0x00, 5]);
}

#[test]
fn dns_reply_to_a_reply_is_none() {
    let mut query = make_query_a_example_com(0x42);
    query[2] |= 0x80; // QR=1
    let mut out = [0u8; 512];
    assert_eq!(build_dns_wildcard_response(&query, &mut out, [192, 168, 4, 1]), None);
    assert!(out.iter().all(|b| *b == 0));
}

#[test]
fn dns_garbage_gets_no_reply() {
    assert!(dns_wildcard_response(&[1, 2, 3], [192, 168, 4, 1]).is_none());
}

#[test]
fn dns_reply_bytes_copy_the_question() {
    let query = make_query_a_example_com(0xBEEF);
    let reply = dns_wildcard_response(&query, [192, 168, 4, 1]).expect("resp");
    // Header: id, flags 0x8500, one question, one answer.
    assert_eq!(&reply[0..12], &[0xBE, 0xEF, 0x85, 0x00, 0, 1, 0, 1, 0, 0, 0, 0]);
    // The question is copied byte for byte.
    assert_eq!(&reply[12..29], &query[12..29]);
    // The answer: name, type A, class IN, TTL 0, four bytes of address.
    assert_eq!(
        &reply[29..],
        &[7, b'e', b'x', b'a', b'm', b'p', b'l', b'e', 3, b'c', b'o', b'm', 0, 0, 1, 0, 1, 0, 0, 0, 0, 0, 4, 192, 168, 4, 1]
    );
}

#[test]
fn dns_checked_response_refuses_a_small_buffer() {
    let query = make_query_a_example_com(0x1234);
    let mut out = [0u8; 20];
    assert_eq!(build_dns_wildcard_response_checked(&query, &mut out, [192, 168, 4, 1]), None);
    assert_eq!(out, [0u8; 20]);
    let mut big = [0u8; 64];
    assert_eq!(build_dns_wildcard_response_checked(&query, &mut big, [192, 168, 4, 1]), Some(56));
}
