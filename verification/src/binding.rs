//! The HTTP binding: what is done with a request, step by step, and which
//! HTTP response each way through ends in.
//!
//! A request is decoded, its first question is held against the denylist,
//! and a blocked name is answered at once. For any other name the caller is
//! told to look it up ([`Step::Resolve`]), and hands the outcome to
//! [`resume`], which answers. Only the first question of a message is looked
//! at; further questions are neither answered nor rejected.
//!
//! An answer is a DNS message ([`Step::Answer`]). What is decided is the
//! message; [`deliver`] has the codec write it, and which bytes the codec
//! writes for a message is the codec's to say.

use crate::denylist::{without_root_dot, Denylist};
use crate::error::{RequestError, RequestErrorView};
use crate::message::{encode_wire, DnsMessage, MessageView};
use trust_dns_proto::error::ProtoError;
use crate::request::{
    message_from_get, message_from_post, spec_message_from_get, spec_message_from_post, Body, BodyView,
    InboundRequest, Method, RequestView,
};
use crate::resolver::{OutcomeView, ResolutionOutcome};
use crate::synthesis::{nxdomain, spec_nxdomain, spec_synthesize, synthesize, Verdict, VerdictView};
use vstd::prelude::*;
use vstd::string::*;

verus! {

/// The status of a response that carries a DNS message.
pub const STATUS_OK: u16 = 200;

/// The status of a response to a request that the caller got wrong.
pub const STATUS_BAD_REQUEST: u16 = 400;

/// The status of a response to a request with a method other than GET and
/// POST.
pub const STATUS_METHOD_NOT_ALLOWED: u16 = 405;

/// The status of a response to a request that the service failed on.
pub const STATUS_INTERNAL_SERVER_ERROR: u16 = 500;

/// An HTTP response.
#[derive(Debug, Clone)]
pub struct OutboundResponse {
    pub status: u16,
    /// The value of the `Content-Type` header, where the response has one.
    pub content_type: Option<String>,
    pub body: Body,
}

/// What an [`OutboundResponse`] is to a contract.
pub ghost struct ResponseView {
    pub status: u16,
    pub content_type: Option<Seq<char>>,
    pub body: BodyView,
}

impl View for OutboundResponse {
    type V = ResponseView;

    open spec fn view(&self) -> ResponseView {
        ResponseView {
            status: self.status,
            content_type: match self.content_type {
                Some(value) => Some(value@),
                None => None,
            },
            body: self.body@,
        }
    }
}

/// A query that passed the denylist and waits for its lookup.
#[derive(Debug)]
pub struct Pending {
    /// The name to look up, root-terminated as it came off the wire.
    pub domain: String,
    /// The query. The type to look up is that of its first question.
    pub query: DnsMessage,
}

/// What a [`Pending`] is to a contract.
pub ghost struct PendingView {
    pub domain: Seq<char>,
    pub query: MessageView,
}

impl View for Pending {
    type V = PendingView;

    open spec fn view(&self) -> PendingView {
        PendingView { domain: self.domain@, query: self.query@ }
    }
}

/// What is to be done next with a request.
#[derive(Debug)]
pub enum Step {
    /// Send this response, which carries no DNS message; the request is done.
    Respond(OutboundResponse),
    /// Send this DNS message, with [`deliver`]; the request is done.
    Answer(DnsMessage),
    /// Look the name up, once, and call [`resume`] with the outcome.
    Resolve(Pending),
}

/// What a [`Step`] is to a contract.
pub ghost enum StepView {
    Respond(ResponseView),
    Answer(MessageView),
    Resolve(PendingView),
}

impl View for Step {
    type V = StepView;

    open spec fn view(&self) -> StepView {
        match self {
            Step::Respond(response) => StepView::Respond(response@),
            Step::Answer(message) => StepView::Answer(message@),
            Step::Resolve(pending) => StepView::Resolve(pending@),
        }
    }
}

/// A response with nothing but a status.
pub open spec fn spec_bare(status: u16) -> ResponseView {
    ResponseView { status, content_type: None, body: BodyView::Empty }
}

/// The response that carries `bytes` as a DNS message.
pub open spec fn spec_success(bytes: Seq<u8>) -> ResponseView {
    ResponseView {
        status: STATUS_OK,
        content_type: Some("application/dns-message"@),
        body: BodyView::Binary(bytes),
    }
}

/// The response to a request that failed with `error`.
pub open spec fn spec_reject(error: RequestErrorView) -> ResponseView {
    match error {
        RequestErrorView::Client(message) => ResponseView {
            status: STATUS_BAD_REQUEST,
            content_type: None,
            body: BodyView::Text("Bad request: "@ + message),
        },
        RequestErrorView::System => spec_bare(STATUS_INTERNAL_SERVER_ERROR),
    }
}

/// The response that the delivery of a message ends in, given what the codec
/// made of the message: the bytes it wrote, with status 200, or a bare 500
/// where it wrote none.
pub open spec fn spec_delivery(written: Option<Seq<u8>>) -> ResponseView {
    match written {
        Some(bytes) => spec_success(bytes),
        None => spec_bare(STATUS_INTERNAL_SERVER_ERROR),
    }
}

/// Whether a response is one that the delivery of a message can end in.
pub open spec fn spec_is_delivery(response: ResponseView) -> bool {
    exists|written: Option<Seq<u8>>| response == #[trigger] spec_delivery(written)
}

/// Whether the first question of `query` asks for a name on `denylist`.
pub open spec fn spec_blocked(query: MessageView, denylist: Set<Seq<char>>) -> bool {
    query.questions.len() > 0 && denylist.contains(without_root_dot(query.questions[0].name))
}

/// What is done with a decoded query: a query without a question fails, a
/// query for a blocked name is answered with NXDOMAIN, and any other query
/// is to be looked up.
pub open spec fn spec_filter(query: MessageView, denylist: Set<Seq<char>>) -> StepView {
    if query.questions.len() == 0 {
        StepView::Respond(spec_bare(STATUS_INTERNAL_SERVER_ERROR))
    } else if spec_blocked(query, denylist) {
        StepView::Answer(spec_nxdomain(query))
    } else {
        StepView::Resolve(PendingView { domain: query.questions[0].name, query })
    }
}

/// What decoding `request` gives. Only asked of GET and POST requests.
pub open spec fn spec_decode(request: RequestView) -> Result<MessageView, RequestErrorView> {
    if request.method == Method::Get {
        spec_message_from_get(request.uri)
    } else {
        spec_message_from_post(request.body)
    }
}

/// What is done with a request.
pub open spec fn spec_receive(request: RequestView, denylist: Set<Seq<char>>) -> StepView {
    if request.method == Method::Other {
        StepView::Respond(spec_bare(STATUS_METHOD_NOT_ALLOWED))
    } else {
        match spec_decode(request) {
            Err(error) => StepView::Respond(spec_reject(error)),
            Ok(query) => spec_filter(query, denylist),
        }
    }
}

/// What is done with a pending query whose lookup came to `outcome`: the
/// response message is sent, or a bare 500 where the outcome calls for none.
pub open spec fn spec_resume(pending: PendingView, outcome: OutcomeView) -> StepView {
    match spec_synthesize(pending.query, VerdictView::Resolved(outcome)) {
        Some(response) => StepView::Answer(response),
        None => StepView::Respond(spec_bare(STATUS_INTERNAL_SERVER_ERROR)),
    }
}

/// The response to a request with a method other than GET and POST: status
/// 405 and no body.
pub fn method_not_allowed() -> (response: OutboundResponse)
    ensures
        response@ == spec_bare(STATUS_METHOD_NOT_ALLOWED),
{
    OutboundResponse { status: STATUS_METHOD_NOT_ALLOWED, content_type: None, body: Body::Empty }
}

/// The response to a request that the service failed on: status 500 and no
/// body, so that nothing of the failure reaches the caller.
pub fn internal_failure() -> (response: OutboundResponse)
    ensures
        response@ == spec_bare(STATUS_INTERNAL_SERVER_ERROR),
{
    OutboundResponse { status: STATUS_INTERNAL_SERVER_ERROR, content_type: None, body: Body::Empty }
}

/// The response that carries `bytes` as a DNS message: status 200 and the
/// content type `application/dns-message`.
pub fn success(bytes: Vec<u8>) -> (response: OutboundResponse)
    ensures
        response@ == spec_success(bytes@),
{
    OutboundResponse {
        status: STATUS_OK,
        content_type: Some(String::from_str("application/dns-message")),
        body: Body::Binary(bytes),
    }
}

/// The response to a request that could not be decoded: status 400 and the
/// reason as text for the caller's own error, and a bare 500 for a failure of
/// the service.
pub fn reject(error: &RequestError) -> (response: OutboundResponse)
    ensures
        response@ == spec_reject(error@),
{
    match error {
        RequestError::Client(bad_request) => {
            let mut text = String::from_str("Bad request: ");
            let message = bad_request.message();
            text.append(message.as_str());
            OutboundResponse { status: STATUS_BAD_REQUEST, content_type: None, body: Body::Text(text) }
        },
        RequestError::System => internal_failure(),
    }
}

/// The response that the delivery of a message ends in, given what the codec
/// made of the message: the bytes with status 200, or a bare 500 for its
/// error.
pub fn delivery(written: Result<Vec<u8>, ProtoError>) -> (response: OutboundResponse)
    ensures
        written matches Ok(bytes) ==> response@ == spec_success(bytes@),
        written is Err ==> response@ == spec_bare(STATUS_INTERNAL_SERVER_ERROR),
{
    match written {
        Ok(bytes) => success(bytes),
        Err(_) => internal_failure(),
    }
}

/// Delivers `message`: has the codec write it, and sends what it wrote with
/// status 200 and the content type `application/dns-message`. A message that
/// the codec does not write fails the request with a bare 500.
///
/// Whether the codec writes a message, and which bytes, is not stated: the
/// result is one of the two.
pub fn deliver(message: &DnsMessage) -> (response: OutboundResponse)
    ensures
        spec_is_delivery(response@),
{
    let written = encode_wire(message);
    let ghost bytes: Option<Seq<u8>> = if written is Ok {
        Some(written->Ok_0@)
    } else {
        None
    };
    let response = delivery(written);
    assert(response@ == spec_delivery(bytes));
    response
}

/// Holds a decoded query against the denylist.
///
/// A query whose first question asks for a blocked name is answered at once
/// with the NXDOMAIN response to it, whatever its type. A query for any other
/// name is to be looked up. A query without a question fails with a bare 500.
pub fn filter(query: DnsMessage, denylist: &Denylist) -> (step: Step)
    ensures
        step@ == spec_filter(query@, denylist@),
{
    if query.questions.len() == 0 {
        return Step::Respond(internal_failure());
    }
    assert(query@.questions[0] == query.questions@[0]@);
    if denylist.blocks(query.questions[0].name.as_str()) {
        Step::Answer(nxdomain(query))
    } else {
        let domain = query.questions[0].name.clone();
        Step::Resolve(Pending { domain, query })
    }
}

/// Takes a request as far as it goes without a lookup.
///
/// A method other than GET and POST ends in 405. A request that cannot be
/// decoded ends in 400 with the reason, or in a bare 500. A decoded query
/// goes through [`filter`].
pub fn receive(request: &InboundRequest, denylist: &Denylist) -> (step: Step)
    ensures
        step@ == spec_receive(request@, denylist@),
{
    let decoded = match request.method {
        Method::Get => message_from_get(request.uri.as_str()),
        Method::Post => message_from_post(&request.body),
        Method::Other => {
            return Step::Respond(method_not_allowed());
        },
    };
    match decoded {
        Ok(query) => filter(query, denylist),
        Err(error) => Step::Respond(reject(&error)),
    }
}

/// Answers a pending query with the outcome of its lookup.
///
/// Records found become the answer section, in their order, of a response
/// without an error. A name that was not found or is malformed is answered
/// with NXDOMAIN. A transient failure ends in a bare 500.
pub fn resume(pending: Pending, outcome: ResolutionOutcome) -> (step: Step)
    ensures
        step@ == spec_resume(pending@, outcome@),
{
    match synthesize(pending.query, Verdict::Resolved(outcome)) {
        Some(message) => Step::Answer(message),
        None => Step::Respond(internal_failure()),
    }
}

} // verus!
