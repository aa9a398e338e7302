//! Inbound requests, and how a DNS message is taken out of one.
//!
//! A query arrives in one of two encodings. With GET it is the value of the
//! query-string parameter `dns`, in unpadded base64url. With POST it is the
//! body, as opaque bytes.

use crate::error::{BadRequestError, RequestError, RequestErrorView};
use crate::message::{decode_wire, wire_decoded, DnsMessage, MessageView};
use base64_url::base64::DecodeError;
use url::{ParseError, Url};
use vstd::prelude::*;
use vstd::string::*;

verus! {

/// The error of the URL parser, `url::ParseError`. Opaque here.
#[verifier::external_type_specification]
#[verifier::external_body]
pub struct ExParseError(url::ParseError);

/// The error of the base64 decoder, `base64::DecodeError`. Opaque here.
#[verifier::external_type_specification]
#[verifier::external_body]
pub struct ExDecodeError(base64_url::base64::DecodeError);

/// The HTTP method of a request, as far as the responder tells methods apart.
#[derive(Debug, Clone, Copy, PartialEq, Eq, Structural)]
pub enum Method {
    Get,
    Post,
    Other,
}

/// The body of an HTTP request or response.
#[derive(Debug, Clone)]
pub enum Body {
    /// No body.
    Empty,
    /// A textual body.
    Text(String),
    /// A body of opaque bytes.
    Binary(Vec<u8>),
}

/// What a [`Body`] is to a contract.
pub ghost enum BodyView {
    Empty,
    Text(Seq<char>),
    Binary(Seq<u8>),
}

impl View for Body {
    type V = BodyView;

    open spec fn view(&self) -> BodyView {
        match self {
            Body::Empty => BodyView::Empty,
            Body::Text(text) => BodyView::Text(text@),
            Body::Binary(bytes) => BodyView::Binary(bytes@),
        }
    }
}

/// An HTTP request, as far as the responder reads it.
#[derive(Debug, Clone)]
pub struct InboundRequest {
    pub method: Method,
    /// The request URI, query string included: an absolute URI, or path and
    /// query alone.
    pub uri: String,
    pub body: Body,
}

/// What an [`InboundRequest`] is to a contract.
pub ghost struct RequestView {
    pub method: Method,
    pub uri: Seq<char>,
    pub body: BodyView,
}

impl View for InboundRequest {
    type V = RequestView;

    open spec fn view(&self) -> RequestView {
        RequestView { method: self.method, uri: self.uri@, body: self.body@ }
    }
}

/// One `name=value` pair of a query string, both parts decoded.
#[derive(Debug, Clone)]
pub struct QueryParameter {
    pub name: String,
    pub value: String,
}

impl View for QueryParameter {
    type V = (Seq<char>, Seq<char>);

    open spec fn view(&self) -> (Seq<char>, Seq<char>) {
        (self.name@, self.value@)
    }
}

/// The pairs of a URI's query string in order, as the URL parser decodes
/// them when it reads the URI against the absolute URI `base`, or `None`
/// where it rejects one of the two.
pub uninterp spec fn uri_query_pairs(base: Seq<char>, uri: Seq<char>) -> Option<Seq<(Seq<char>, Seq<char>)>>;

/// The bytes that `text` stands for in unpadded base64url, or `None` where it
/// is no such encoding.
pub uninterp spec fn base64url_decoded(text: Seq<char>) -> Option<Seq<u8>>;

/// The unpadded base64url text that stands for `bytes`.
pub uninterp spec fn base64url_encoded(bytes: Seq<u8>) -> Seq<char>;

/// The pairs of a list of parameters.
pub open spec fn pairs_of(parameters: Seq<QueryParameter>) -> Seq<(Seq<char>, Seq<char>)> {
    parameters.map_values(|p: QueryParameter| p@)
}

/// Parses the absolute URI `base` with `url::Url::parse`, reads `uri`
/// against it with `url::Url::join`, and lists the pairs of the query string
/// with `url::Url::query_pairs`. The contract gives the list its name, and
/// claims nothing else of it.
#[verifier::external_body]
pub(crate) fn query_parameters(base: &str, uri: &str) -> (parsed: Result<Vec<QueryParameter>, ParseError>)
    ensures
        parsed matches Ok(parameters) ==> uri_query_pairs(base@, uri@) == Some(pairs_of(parameters@)),
        parsed is Err ==> uri_query_pairs(base@, uri@) is None,
{
    let url = Url::parse(base)?.join(uri)?;
    Ok(url.query_pairs().map(|(name, value)| QueryParameter { name: name.into_owned(), value: value.into_owned() }).collect())
}

/// Decodes unpadded base64url with `base64_url::decode`. The contract gives
/// the outcome its name, and claims nothing else of it.
#[verifier::external_body]
pub(crate) fn decode_base64url(text: &str) -> (decoded: Result<Vec<u8>, DecodeError>)
    ensures
        decoded matches Ok(bytes) ==> base64url_decoded(text@) == Some(bytes@),
        decoded is Err ==> base64url_decoded(text@) is None,
{
    base64_url::decode(text)
}

/// Encodes bytes in unpadded base64url with `base64_url::encode`. The
/// contract gives the text its name, and claims of it that decoding gives the
/// bytes back.
#[verifier::external_body]
pub(crate) fn encode_base64url(bytes: &[u8]) -> (text: String)
    ensures
        text@ == base64url_encoded(bytes@),
        base64url_decoded(text@) == Some(bytes@),
{
    base64_url::encode(bytes)
}

/// The value of the first pair named `name`, if there is one.
pub open spec fn first_value(pairs: Seq<(Seq<char>, Seq<char>)>, name: Seq<char>) -> Option<Seq<char>>
    decreases pairs.len(),
{
    if pairs.len() == 0 {
        None
    } else if pairs[0].0 == name {
        Some(pairs[0].1)
    } else {
        first_value(pairs.drop_first(), name)
    }
}

/// The value of the first parameter named `name`, if there is one.
pub fn find_parameter(parameters: &Vec<QueryParameter>, name: &str) -> (value: Option<String>)
    ensures
        value is Some <==> first_value(pairs_of(parameters@), name@) is Some,
        value matches Some(text) ==> first_value(pairs_of(parameters@), name@) == Some(text@),
{
    let wanted = String::from_str(name);
    let ghost pairs = pairs_of(parameters@);
    let mut i: usize = 0;
    assert(pairs.skip(0) =~= pairs);
    while i < parameters.len()
        invariant
            i <= parameters.len(),
            wanted@ == name@,
            pairs == pairs_of(parameters@),
            first_value(pairs, name@) == first_value(pairs.skip(i as int), name@),
        decreases parameters.len() - i,
    {
        let ghost rest = pairs.skip(i as int);
        assert(rest[0] == parameters@[i as int]@);
        assert(rest.drop_first() =~= pairs.skip(i + 1));
        if parameters[i].name == wanted {
            return Some(parameters[i].value.clone());
        }
        i += 1;
    }
    None
}

/// What a decoding gave, as a contract sees it.
pub open spec fn outcome_view(outcome: Result<DnsMessage, RequestError>) -> Result<MessageView, RequestErrorView> {
    match outcome {
        Ok(message) => Ok(message@),
        Err(error) => Err(error@),
    }
}

/// The message that a payload holds: what the codec reads from it, and a
/// client error where the codec rejects it.
pub open spec fn spec_message_from_payload(payload: Seq<u8>) -> Result<MessageView, RequestErrorView> {
    match wire_decoded(payload) {
        Some(message) => Ok(message),
        None => Err(RequestErrorView::Client("Invalid DNS message"@)),
    }
}

/// The absolute URI against which a request URI of path and query alone is
/// read. Of a request URI, only the query string is looked at, so that any
/// base serves.
pub open spec fn spec_base_uri() -> Seq<char> {
    "http://localhost/"@
}

/// The message that a GET request for `uri` carries.
pub open spec fn spec_message_from_get(uri: Seq<char>) -> Result<MessageView, RequestErrorView> {
    match uri_query_pairs(spec_base_uri(), uri) {
        None => Err(RequestErrorView::System),
        Some(pairs) => match first_value(pairs, "dns"@) {
            None => Err(RequestErrorView::Client("Missing 'dns' query string parameter"@)),
            Some(text) => match base64url_decoded(text) {
                None => Err(RequestErrorView::Client("Invalid DNS message"@)),
                Some(payload) => spec_message_from_payload(payload),
            },
        },
    }
}

/// The message that a POST request with `body` carries.
pub open spec fn spec_message_from_post(body: BodyView) -> Result<MessageView, RequestErrorView> {
    match body {
        BodyView::Empty => Err(RequestErrorView::Client("Empty body"@)),
        BodyView::Text(_) => Err(RequestErrorView::Client("Text body"@)),
        BodyView::Binary(payload) => spec_message_from_payload(payload),
    }
}

/// Reads the DNS message that `payload` holds in wire format. Bytes that are
/// no DNS message are the caller's error.
pub fn message_from_payload(payload: &[u8]) -> (outcome: Result<DnsMessage, RequestError>)
    ensures
        outcome_view(outcome) == spec_message_from_payload(payload@),
{
    match decode_wire(payload) {
        Ok(message) => Ok(message),
        Err(_) => Err(RequestError::Client(BadRequestError::new("Invalid DNS message"))),
    }
}

/// Takes the DNS message out of a GET request: the value of the first `dns`
/// parameter of the URI's query string, decoded from unpadded base64url and
/// then from wire format.
///
/// The URI may be absolute, or path and query alone. A URI without a `dns`
/// parameter, a value that is no base64url and bytes that are no DNS message
/// are the caller's error. A URI that does not parse is a system error.
pub fn message_from_get(uri: &str) -> (outcome: Result<DnsMessage, RequestError>)
    ensures
        outcome_view(outcome) == spec_message_from_get(uri@),
{
    let parameters = match query_parameters("http://localhost/", uri) {
        Ok(parameters) => parameters,
        Err(_) => {
            return Err(RequestError::System);
        },
    };
    let encoded = match find_parameter(&parameters, "dns") {
        Some(value) => value,
        None => {
            return Err(RequestError::Client(BadRequestError::new("Missing 'dns' query string parameter")));
        },
    };
    match decode_base64url(encoded.as_str()) {
        Ok(payload) => message_from_payload(payload.as_slice()),
        Err(_) => Err(RequestError::Client(BadRequestError::new("Invalid DNS message"))),
    }
}

/// The text under which a GET request carries `payload` as the value of its
/// `dns` parameter. It serves to replay by hand a query that came in by POST.
pub fn replay_parameter(payload: &[u8]) -> (text: String)
    ensures
        text@ == base64url_encoded(payload@),
        base64url_decoded(text@) == Some(payload@),
{
    encode_base64url(payload)
}

/// Takes the DNS message out of a POST request: the body, which must be
/// binary, decoded from wire format.
///
/// A missing body, a textual body and bytes that are no DNS message are the
/// caller's error.
pub fn message_from_post(body: &Body) -> (outcome: Result<DnsMessage, RequestError>)
    ensures
        outcome_view(outcome) == spec_message_from_post(body@),
{
    match body {
        Body::Empty => Err(RequestError::Client(BadRequestError::new("Empty body"))),
        Body::Text(_) => Err(RequestError::Client(BadRequestError::new("Text body"))),
        Body::Binary(payload) => message_from_payload(payload.as_slice()),
    }
}

} // verus!
