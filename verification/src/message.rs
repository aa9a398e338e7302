//! DNS messages as the responder sees them, and the codec that reads them
//! from, and writes them to, the wire format.
//!
//! The responder reads a message's transaction id and the name of its first
//! question, and writes its kind, its recursion-available flag, its response
//! code and its answer section. [`DnsMessage`] holds those as plain values.
//! Whatever else a message holds (opcode, the other flags, the authority and
//! additional sections, EDNS) is carried in `rest` as the codec decoded it and
//! goes out as it came in.

use trust_dns_proto::error::ProtoError;
use trust_dns_proto::op::{Message, MessageType, Query};
use trust_dns_proto::rr::Record;
use trust_dns_proto::serialize::binary::{BinDecodable, BinEncodable};
use vstd::prelude::*;

verus! {

/// The codec's message type, `trust_dns_proto::op::Message`. Opaque here.
#[verifier::external_type_specification]
#[verifier::external_body]
pub struct ExMessage(trust_dns_proto::op::Message);

/// The codec's question type, `trust_dns_proto::op::Query`. Opaque here.
#[verifier::external_type_specification]
#[verifier::external_body]
pub struct ExQuery(trust_dns_proto::op::Query);

/// The codec's resource record type, `trust_dns_proto::rr::Record`. Opaque
/// here.
#[verifier::external_type_specification]
#[verifier::external_body]
pub struct ExRecord(trust_dns_proto::rr::Record);

/// The codec's error type, `trust_dns_proto::error::ProtoError`. Opaque here.
#[verifier::external_type_specification]
#[verifier::external_body]
pub struct ExProtoError(trust_dns_proto::error::ProtoError);

/// The response code of a response without an error.
pub const NO_ERROR: u16 = 0;

/// The response code that says the queried name does not exist.
pub const NXDOMAIN: u16 = 3;

/// Whether a message asks or answers.
#[derive(Debug, Clone, Copy, PartialEq, Eq, Structural)]
pub enum MessageKind {
    Query,
    Response,
}

/// One entry of a message's question section.
#[derive(Debug)]
pub struct Question {
    /// The queried name in presentation form, root-terminated
    /// (`example.com.`).
    pub name: String,
    /// The entry as the codec holds it: name, type and class.
    pub raw: Query,
}

/// What a [`Question`] is to a contract.
pub ghost struct QuestionView {
    pub name: Seq<char>,
    pub raw: Query,
}

impl View for Question {
    type V = QuestionView;

    open spec fn view(&self) -> QuestionView {
        QuestionView { name: self.name@, raw: self.raw }
    }
}

/// A DNS message.
#[derive(Debug)]
pub struct DnsMessage {
    /// The transaction id.
    pub id: u16,
    /// Query or response.
    pub kind: MessageKind,
    /// The recursion-available flag.
    pub recursion_available: bool,
    /// The response code, as its number.
    pub response_code: u16,
    /// The question section, in order.
    pub questions: Vec<Question>,
    /// The answer section, in order.
    pub answers: Vec<Record>,
    /// The message as the codec holds it, for all that the fields above do
    /// not cover.
    pub rest: Message,
}

/// What a [`DnsMessage`] is to a contract.
pub ghost struct MessageView {
    pub id: u16,
    pub kind: MessageKind,
    pub recursion_available: bool,
    pub response_code: u16,
    pub questions: Seq<QuestionView>,
    pub answers: Seq<Record>,
    pub rest: Message,
}

impl View for DnsMessage {
    type V = MessageView;

    open spec fn view(&self) -> MessageView {
        MessageView {
            id: self.id,
            kind: self.kind,
            recursion_available: self.recursion_available,
            response_code: self.response_code,
            questions: self.questions@.map_values(|q: Question| q@),
            answers: self.answers@,
            rest: self.rest,
        }
    }
}

/// The message that the codec reads from `bytes`, or `None` where it rejects
/// them.
pub uninterp spec fn wire_decoded(bytes: Seq<u8>) -> Option<MessageView>;

/// Reads a message from its wire format with
/// `trust_dns_proto::op::Message::from_bytes`, and copies out of it the fields
/// of [`DnsMessage`]. The contract gives the outcome its name, and claims
/// nothing else of it. That the same bytes give the same message is meant by
/// the codec's own equality of messages, under which the order of the options
/// of an EDNS record does not count.
#[verifier::external_body]
pub(crate) fn decode_wire(bytes: &[u8]) -> (decoded: Result<DnsMessage, ProtoError>)
    ensures
        decoded matches Ok(message) ==> wire_decoded(bytes@) == Some(message@),
        decoded is Err ==> wire_decoded(bytes@) is None,
{
    let rest = Message::from_bytes(bytes)?;
    Ok(DnsMessage {
        id: rest.id(),
        kind: match rest.message_type() {
            MessageType::Query => MessageKind::Query,
            MessageType::Response => MessageKind::Response,
        },
        recursion_available: rest.recursion_available(),
        response_code: u16::from(rest.response_code()),
        questions: rest.queries().iter().map(|q| Question { name: q.name().to_utf8(), raw: q.clone() }).collect(),
        answers: rest.answers().to_vec(),
        rest,
    })
}

/// Writes a message in wire format with
/// `trust_dns_proto::op::Message::to_bytes`, after it has put the fields of
/// [`DnsMessage`] into a copy of `rest`. Nothing is claimed of the outcome:
/// the codec writes the options of an EDNS record in the order in which it
/// walks a hash map, so that one message may be written in more than one way.
#[verifier::external_body]
pub(crate) fn encode_wire(message: &DnsMessage) -> (encoded: Result<Vec<u8>, ProtoError>) {
    let mut out = message.rest.clone();
    out.set_id(message.id);
    out.set_message_type(match message.kind {
        MessageKind::Query => MessageType::Query,
        MessageKind::Response => MessageType::Response,
    });
    out.set_recursion_available(message.recursion_available);
    out.set_response_code(message.response_code.into());
    *out.queries_mut() = message.questions.iter().map(|q| q.raw.clone()).collect();
    *out.answers_mut() = message.answers.clone();
    out.to_bytes()
}

} // verus!
