//! The captive portal's wildcard DNS policy: every A/IN question is
//! answered with the portal's address, other questions get an empty
//! NOERROR reply, and messages that are not queries get no reply.

use vstd::prelude::*;

use dns_protocol::{Message, Question, ResourceRecord, ResourceType};

verus! {

/// Resource type `A` (an IPv4 address).
pub const DNS_TYPE_A: u16 = 1;

/// Class `IN` (Internet).
pub const DNS_CLASS_IN: u16 = 1;

/// How the portal replies to a DNS message.
#[derive(Debug, Clone, Copy, PartialEq, Eq, Structural)]
pub enum DnsReply {
    /// No reply: the message is not a query, or it has no question.
    Ignore,
    /// A NOERROR reply without answers.
    Empty,
    /// A NOERROR reply with one `A` record holding the portal's address.
    PortalAddress,
}

/// The reply to a message: `is_query` is its QR flag read as a query, and
/// `question` the type and class of its first question, if any.
pub open spec fn dns_reply_of(is_query: bool, question: Option<(u16, u16)>) -> DnsReply {
    if !is_query {
        DnsReply::Ignore
    } else {
        match question {
            None => DnsReply::Ignore,
            Some((ty, class)) => if ty == DNS_TYPE_A && class == DNS_CLASS_IN {
                DnsReply::PortalAddress
            } else {
                DnsReply::Empty
            },
        }
    }
}

/// Decide the reply to a DNS message.
pub fn dns_reply(is_query: bool, question: Option<(u16, u16)>) -> (r: DnsReply)
    ensures
        r == dns_reply_of(is_query, question),
{
    if !is_query {
        return DnsReply::Ignore;
    }
    match question {
        None => DnsReply::Ignore,
        Some((ty, class)) => {
            if ty == DNS_TYPE_A && class == DNS_CLASS_IN {
                DnsReply::PortalAddress
            } else {
                DnsReply::Empty
            }
        },
    }
}

/// Bit of the flags word marking a message as a reply.
pub const DNS_FLAG_QR: u16 = 0x8000;

/// Bit of the flags word marking an answer as authoritative.
pub const DNS_FLAG_AA: u16 = 0x0400;

/// Bit of the flags word marking a message as truncated.
pub const DNS_FLAG_TC: u16 = 0x0200;

/// Bit of the flags word asking for recursion.
pub const DNS_FLAG_RD: u16 = 0x0100;

/// Bit of the flags word offering recursion.
pub const DNS_FLAG_RA: u16 = 0x0080;

/// Bits of the flags word holding the response code.
pub const DNS_RCODE_MASK: u16 = 0x000f;

/// The first question of a DNS message: its type and class codes.
#[derive(Debug, Clone, Copy, PartialEq, Eq, Structural)]
pub struct DnsQuestion {
    pub ty: u16,
    pub class: u16,
}

/// What a DNS message carries that the portal decides on: its id, the raw
/// bits of its flags word and its first question, if it has one.
#[derive(Debug, Clone, Copy, PartialEq, Eq, Structural)]
pub struct DnsQuery {
    pub id: u16,
    pub flags: u16,
    pub question: Option<DnsQuestion>,
}

/// A resource record of a reply, named after the question it answers.
#[derive(Debug, Clone, PartialEq, Eq)]
pub struct DnsAnswer {
    pub ty: u16,
    pub class: u16,
    pub ttl: u32,
    pub data: Vec<u8>,
}

impl View for DnsAnswer {
    type V = (u16, u16, u32, Seq<u8>);

    open spec fn view(&self) -> (u16, u16, u32, Seq<u8>) {
        (self.ty, self.class, self.ttl, self.data@)
    }
}

/// The views of a list of answers.
pub open spec fn answers_view(answers: Seq<DnsAnswer>) -> Seq<(u16, u16, u32, Seq<u8>)> {
    answers.map_values(|a: DnsAnswer| a@)
}

/// What dns_protocol's `Message::read` makes of `bytes`, with room for one
/// question and no other record: `None` when it fails.
pub uninterp spec fn dns_read(bytes: Seq<u8>) -> Option<DnsQuery>;

/// The bytes dns_protocol's `Message::write` gives for a message with the
/// id, flags word and first question of the message `bytes` holds, and with
/// `answers`, each named as that question: `None` when it fails.
pub uninterp spec fn dns_encoded(bytes: Seq<u8>, answers: Seq<(u16, u16, u32, Seq<u8>)>) -> Option<Seq<u8>>;

/// dns_protocol: `Message::read` into buffers with room for one question
/// and no other record, then the message's id, the raw bits of its flags
/// (`Flags::raw`) and the type and class of its first question. Its result
/// is named; of it the contract states only that a message that reads holds
/// at least the twelve bytes of a header, which the header's reader needs.
#[verifier::external_body]
fn read_dns_query(bytes: &[u8]) -> (r: Option<DnsQuery>)
    ensures
        r == dns_read(bytes@),
        r is Some ==> bytes@.len() >= 12,
{
    let mut questions = [Question::default(); 1];
    let message = Message::read(bytes, &mut questions, &mut [], &mut [], &mut []).ok()?;
    let question = message.questions().first().map(|q| DnsQuestion { ty: u16::from(q.ty()), class: q.class() });
    Some(DnsQuery { id: message.id(), flags: message.flags().raw(), question })
}

/// The view of optional bytes.
pub open spec fn bytes_view(r: Option<Vec<u8>>) -> Option<Seq<u8>> {
    match r {
        Some(b) => Some(b@),
        None => None,
    }
}

/// dns_protocol: reads the message `bytes` holds (`Message::read`), builds
/// with `Message::new` a message with its id, flags and first question (its
/// name as the bytes it was read from) and with `answers` (`A` records, each
/// named as that question; `ResourceType::try_from` of code 1 cannot fail),
/// and writes it with `Message::write` into a buffer of
/// `Message::space_needed` bytes. Its result is named.
#[verifier::external_body]
fn encode_dns_message(bytes: &[u8], answers: &[DnsAnswer]) -> (r: Option<Vec<u8>>)
    requires
        answers@.len() <= u16::MAX,
        forall|i: int| 0 <= i < answers@.len() ==> answers@[i].ty == DNS_TYPE_A,
    ensures
        bytes_view(r) == dns_encoded(bytes@, answers_view(answers@)),
{
    let mut qs = [Question::default()];
    let m = Message::read(bytes, &mut qs, &mut [], &mut [], &mut []).ok()?;
    let mut q = [*m.questions().first()?];
    let mut rs: Vec<_> = answers.iter().map(|a| ResourceRecord::new(q[0].name(), a.ty.try_into().unwrap(), a.class, a.ttl, &a.data)).collect();
    let reply = Message::new(m.id(), m.flags(), &mut q, &mut rs, &mut [], &mut []);
    let mut out = vec![0; reply.space_needed()];
    reply.write(&mut out).ok()?;
    Some(out)
}

/// The flags word of the reply to a query with flags `flags`: marked as a
/// reply and authoritative, not truncated, recursion not available, response
/// code NOERROR; the opcode and the recursion-desired bit are kept.
pub open spec fn reply_flags_of(flags: u16) -> u16 {
    (flags | DNS_FLAG_QR | DNS_FLAG_AA) & !(DNS_FLAG_TC | DNS_FLAG_RA | DNS_RCODE_MASK)
}

/// The flags word of the reply to a query with flags `flags`.
pub fn reply_flags(flags: u16) -> (r: u16)
    ensures
        r == reply_flags_of(flags),
        r & DNS_FLAG_QR != 0,
        r & DNS_FLAG_AA != 0,
        r & DNS_FLAG_TC == 0,
        r & DNS_FLAG_RA == 0,
        r & DNS_RCODE_MASK == 0,
        r & DNS_FLAG_RD == flags & DNS_FLAG_RD,
        r & 0x7800 == flags & 0x7800,
{
    let r = (flags | DNS_FLAG_QR | DNS_FLAG_AA) & !(DNS_FLAG_TC | DNS_FLAG_RA | DNS_RCODE_MASK);
    assert(r & 0x8000 != 0 && r & 0x0400 != 0 && r & 0x0200 == 0 && r & 0x0080 == 0 && r & 0x000f == 0
        && r & 0x0100 == flags & 0x0100 && r & 0x7800 == flags & 0x7800) by (bit_vector)
        requires
            r == (flags | 0x8000u16 | 0x0400u16) & !(0x0200u16 | 0x0080u16 | 0x000fu16),
    ;
    r
}

/// Whether a flags word marks a query (its QR bit is clear).
pub open spec fn is_query_flags(flags: u16) -> bool {
    flags & DNS_FLAG_QR == 0
}

/// The answers of the portal's reply: one `A`/`IN` record with TTL 0 holding
/// `ip` when it answers with the portal's address, none otherwise.
pub open spec fn wildcard_answers_of(reply: DnsReply, ip: [u8; 4]) -> Seq<(u16, u16, u32, Seq<u8>)> {
    if reply == DnsReply::PortalAddress {
        seq![(DNS_TYPE_A, DNS_CLASS_IN, 0u32, ip@)]
    } else {
        Seq::empty()
    }
}

/// The reply the portal makes to a query: `None` when it makes none, else
/// the reply's flags word and answers.
pub open spec fn wildcard_reply_of(query: DnsQuery, ip: [u8; 4]) -> Option<(u16, Seq<(u16, u16, u32, Seq<u8>)>)> {
    let reply = dns_reply_of(
        is_query_flags(query.flags),
        match query.question {
            Some(q) => Some((q.ty, q.class)),
            None => None,
        },
    );
    if reply == DnsReply::Ignore {
        None
    } else {
        Some((reply_flags_of(query.flags), wildcard_answers_of(reply, ip)))
    }
}

/// Decide the portal's reply to a read query: `None` when it makes none
/// (not a query, or no question), else the reply's flags word and answers.
pub fn wildcard_reply(query: DnsQuery, ip: [u8; 4]) -> (r: Option<(u16, Vec<DnsAnswer>)>)
    ensures
        match wildcard_reply_of(query, ip) {
            None => r is None,
            Some((flags, answers)) => r is Some && r.unwrap().0 == flags && answers_view(r.unwrap().1@) == answers,
        },
        r is Some ==> r.unwrap().1@.len() <= 1,
        r is Some ==> forall|i: int| 0 <= i < r.unwrap().1@.len() ==> (#[trigger] r.unwrap().1@[i]).ty == DNS_TYPE_A,
{
    let is_query = query.flags & DNS_FLAG_QR == 0;
    let question = match query.question {
        Some(q) => Some((q.ty, q.class)),
        None => None,
    };
    let reply = dns_reply(is_query, question);
    if reply == DnsReply::Ignore {
        return None;
    }
    let mut answers: Vec<DnsAnswer> = Vec::new();
    if reply == DnsReply::PortalAddress {
        let data: Vec<u8> = vec![ip[0], ip[1], ip[2], ip[3]];
        answers.push(DnsAnswer { ty: DNS_TYPE_A, class: DNS_CLASS_IN, ttl: 0, data });
        assert(data@ =~= ip@);
    }
    assert(answers_view(answers@) =~= wildcard_answers_of(reply, ip));
    Some((reply_flags(query.flags), answers))
}

/// `bytes` with the flags word of its header (bytes 2 and 3, big-endian)
/// set to `flags`.
pub open spec fn with_header_flags(bytes: Seq<u8>, flags: u16) -> Seq<u8> {
    bytes.update(2, (flags / 256) as u8).update(3, (flags % 256) as u8)
}

/// Copy a message, setting the flags word of its header.
pub fn set_header_flags(bytes: &[u8], flags: u16) -> (r: Vec<u8>)
    requires
        bytes@.len() >= 4,
    ensures
        r@ == with_header_flags(bytes@, flags),
{
    let mut r: Vec<u8> = Vec::new();
    let mut i: usize = 0;
    while i < bytes.len()
        invariant
            i <= bytes@.len(),
            r@ =~= bytes@.take(i as int),
        decreases bytes@.len() - i,
    {
        r.push(bytes[i]);
        i = i + 1;
    }
    r.set(2, (flags / 256) as u8);
    r.set(3, (flags % 256) as u8);
    r
}

/// The bytes of the portal's reply to the message `query` holds, answering
/// with `ip`: `None` when the message does not read, when the portal makes no
/// reply to it, or when the reply cannot be written.
pub open spec fn dns_wildcard_response_of(query: Seq<u8>, ip: [u8; 4]) -> Option<Seq<u8>> {
    match dns_read(query) {
        None => None,
        Some(q) => match wildcard_reply_of(q, ip) {
            None => None,
            Some((flags, answers)) => dns_encoded(with_header_flags(query, flags), answers),
        },
    }
}

/// The bytes of the portal's reply to a DNS message (see
/// [`dns_wildcard_response_of`]).
pub fn dns_wildcard_response(query: &[u8], ip: [u8; 4]) -> (r: Option<Vec<u8>>)
    ensures
        r is Some <==> dns_wildcard_response_of(query@, ip) is Some,
        r is Some ==> r->0@ == dns_wildcard_response_of(query@, ip)->0,
{
    let read = read_dns_query(query);
    let q = match read {
        None => return None,
        Some(q) => q,
    };
    let (flags, answers) = match wildcard_reply(q, ip) {
        None => return None,
        Some(reply) => reply,
    };
    let message = set_header_flags(query, flags);
    encode_dns_message(&message, &answers)
}

/// Whether the reply to `query` fits in a buffer of `len` bytes.
pub open spec fn dns_wildcard_response_fits(query: Seq<u8>, ip: [u8; 4], len: nat) -> bool {
    match dns_wildcard_response_of(query, ip) {
        Some(b) => b.len() <= len,
        None => true,
    }
}

/// Build a minimal DNS response for common single-question queries.
///
/// - For A/IN, returns a single A answer pointing at `ip`.
/// - For other types/classes, returns a NOERROR response with 0 answers.
/// - A message that is not a query, or has no question, gets no response.
///
/// The response is written at the start of `out`, which must hold it; the
/// result is its length.
pub fn build_dns_wildcard_response(query: &[u8], out: &mut [u8], ip: [u8; 4]) -> (r: Option<usize>)
    requires
        dns_wildcard_response_fits(query@, ip, old(out)@.len()),
    ensures
        match dns_wildcard_response_of(query@, ip) {
            None => r is None && final(out)@ == old(out)@,
            Some(b) => r == Some(b.len() as usize) && final(out)@ == b + old(out)@.skip(b.len() as int),
        },
{
    let bytes = match dns_wildcard_response(query, ip) {
        None => return None,
        Some(b) => b,
    };
    let mut i: usize = 0;
    while i < bytes.len()
        invariant
            i <= bytes@.len(),
            bytes@.len() <= out@.len(),
            out@.len() == old(out)@.len(),
            forall|k: int| 0 <= k < i ==> out@[k] == bytes@[k],
            forall|k: int| i <= k < out@.len() ==> out@[k] == old(out)@[k],
        decreases bytes@.len() - i,
    {
        out[i] = bytes[i];
        i = i + 1;
    }
    assert(out@ =~= bytes@ + old(out)@.skip(bytes@.len() as int));
    Some(bytes.len())
}

/// [`build_dns_wildcard_response`] for any buffer: `None`, with `out`
/// unchanged, when the response does not fit in it.
pub fn build_dns_wildcard_response_checked(query: &[u8], out: &mut [u8], ip: [u8; 4]) -> (r: Option<usize>)
    ensures
        match dns_wildcard_response_of(query@, ip) {
            None => r is None && final(out)@ == old(out)@,
            Some(b) => if b.len() <= old(out)@.len() {
                r == Some(b.len() as usize) && final(out)@ == b + old(out)@.skip(b.len() as int)
            } else {
                r is None && final(out)@ == old(out)@
            },
        },
{
    match dns_wildcard_response(query, ip) {
        None => None,
        Some(b) => {
            if b.len() > out.len() {
                None
            } else {
                build_dns_wildcard_response(query, out, ip)
            }
        },
    }
}

} // verus!
