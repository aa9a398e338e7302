//! What holds of the responder as a whole, stated over the functions' own
//! specifications and proved from them.

use crate::binding::{
    spec_bare, spec_blocked, spec_decode, spec_filter, spec_is_delivery, spec_receive, spec_resume, PendingView,
    ResponseView, StepView, STATUS_BAD_REQUEST, STATUS_INTERNAL_SERVER_ERROR, STATUS_METHOD_NOT_ALLOWED, STATUS_OK,
};
use crate::error::RequestErrorView;
use crate::message::{MessageKind, MessageView, NO_ERROR, NXDOMAIN};
use crate::request::{
    base64url_decoded, base64url_encoded, first_value, spec_base_uri, spec_message_from_get, spec_message_from_post,
    uri_query_pairs,
    BodyView, Method, RequestView,
};
use crate::resolver::{spec_classify, OutcomeView, ResolverFailure};
use crate::synthesis::{spec_nxdomain, spec_synthesize, VerdictView};
use trust_dns_proto::rr::Record;
use vstd::prelude::*;

verus! {

/// A query for a name on the denylist, whatever its type, is answered without
/// a lookup, and the message that is sent has the response code NXDOMAIN and
/// an empty answer section.
pub proof fn law_blocked_name_gets_nxdomain(query: MessageView, denylist: Set<Seq<char>>)
    requires
        spec_blocked(query, denylist),
    ensures
        spec_filter(query, denylist) == StepView::Answer(spec_nxdomain(query)),
        spec_nxdomain(query).kind == MessageKind::Response,
        spec_nxdomain(query).response_code == NXDOMAIN,
        spec_nxdomain(query).answers.len() == 0,
{
}

/// A GET or POST request that carries a query for a name on the denylist
/// is answered, without a lookup, with the NXDOMAIN response to that query.
pub proof fn law_blocked_request_gets_nxdomain(request: RequestView, query: MessageView, denylist: Set<Seq<char>>)
    requires
        request.method != Method::Other,
        spec_decode(request) == Ok::<MessageView, RequestErrorView>(query),
        spec_blocked(query, denylist),
    ensures
        spec_receive(request, denylist) == StepView::Answer(spec_nxdomain(query)),
{
}

/// A query for a name that is not on the denylist is handed out for lookup
/// as it is, and when the lookup returns records, the message that is sent
/// has exactly those records as its answer section, in the resolver's order,
/// under the query's transaction id and questions and the response code of
/// success.
pub proof fn law_answer_section_is_the_lookup_result(
    query: MessageView,
    denylist: Set<Seq<char>>,
    records: Seq<Record>,
)
    requires
        query.questions.len() > 0,
        !spec_blocked(query, denylist),
    ensures
        ({
            &&& spec_filter(query, denylist) matches StepView::Resolve(pending)
            &&& pending.query == query
            &&& pending.domain == query.questions[0].name
            &&& spec_synthesize(query, VerdictView::Resolved(OutcomeView::Answered(records))) matches Some(response)
            &&& spec_resume(pending, OutcomeView::Answered(records)) == StepView::Answer(response)
            &&& response.answers == records
            &&& response.id == query.id
            &&& response.questions == query.questions
            &&& response.questions[0] == query.questions[0]
            &&& response.response_code == NO_ERROR
            &&& response.kind == MessageKind::Response
            &&& response.recursion_available
        }),
{
}

/// Every response that is built for a query carries the query's transaction
/// id, whatever was found out about the name.
pub proof fn law_transaction_id_is_kept(query: MessageView, verdict: VerdictView)
    ensures
        spec_synthesize(query, verdict) matches Some(response) ==> response.id == query.id,
{
}

/// Every response that is built for a query is marked as a response,
/// announces recursion, and repeats the query's questions and whatever the
/// responder does not look at.
pub proof fn law_response_shape(query: MessageView, verdict: VerdictView)
    ensures
        spec_synthesize(query, verdict) matches Some(response) ==> {
            &&& response.kind == MessageKind::Response
            &&& response.recursion_available
            &&& response.questions == query.questions
            &&& response.rest == query.rest
        },
{
}

/// Two identical requests for a name on the denylist get the same answer:
/// the message that is sent is decided by the request and the denylist alone,
/// with no lookup in between. (Which bytes the codec writes for the message
/// is the codec's to say.)
pub proof fn law_blocked_response_is_repeatable(
    first: RequestView,
    second: RequestView,
    query: MessageView,
    denylist: Set<Seq<char>>,
)
    requires
        first == second,
        first.method != Method::Other,
        spec_decode(first) == Ok::<MessageView, RequestErrorView>(query),
        spec_blocked(query, denylist),
    ensures
        spec_receive(first, denylist) == StepView::Answer(spec_nxdomain(query)),
        spec_receive(second, denylist) == spec_receive(first, denylist),
{
}

/// A client cannot tell a denylist hit from a name that does not exist: the
/// response to a blocked query is the response that the same query would get
/// if it were looked up and not found, or found malformed.
pub proof fn law_blocked_looks_like_not_found(query: MessageView, denylist: Set<Seq<char>>)
    requires
        spec_blocked(query, denylist),
    ensures
        spec_filter(query, denylist) == spec_resume(
            PendingView { domain: query.questions[0].name, query },
            OutcomeView::NotFound,
        ),
        spec_filter(query, denylist) == spec_resume(
            PendingView { domain: query.questions[0].name, query },
            OutcomeView::MalformedName,
        ),
{
}

/// A lookup that failed for any reason but missing records and a malformed
/// name, a timeout and an error of the protocol included, is never answered
/// with a DNS message: the request ends in a bare 500.
pub proof fn law_transient_failure_is_not_an_answer(pending: PendingView, failure: ResolverFailure)
    requires
        failure != ResolverFailure::NoRecordsFound,
        failure != ResolverFailure::InvalidName,
    ensures
        spec_classify(Err::<Seq<Record>, ResolverFailure>(failure)) == OutcomeView::TransientFailure,
        spec_resume(pending, spec_classify(Err::<Seq<Record>, ResolverFailure>(failure))) == StepView::Respond(
            spec_bare(STATUS_INTERNAL_SERVER_ERROR),
        ),
{
}

/// A query means the same by GET as by POST: a URI whose first `dns`
/// parameter is the base64url text of a payload carries the message that the
/// payload itself carries as a POST body.
pub proof fn law_get_and_post_carry_the_same_message(
    uri: Seq<char>,
    pairs: Seq<(Seq<char>, Seq<char>)>,
    payload: Seq<u8>,
)
    requires
        uri_query_pairs(spec_base_uri(), uri) == Some(pairs),
        first_value(pairs, "dns"@) == Some(base64url_encoded(payload)),
        base64url_decoded(base64url_encoded(payload)) == Some(payload),
    ensures
        spec_message_from_get(uri) == spec_message_from_post(BodyView::Binary(payload)),
{
}

/// Whether a response has one of the four shapes that the responder sends:
/// 200 with a DNS message under the content type `application/dns-message`,
/// 400 with a reason as text, or a bare 405 or 500.
pub open spec fn spec_has_known_shape(response: ResponseView) -> bool {
    ||| response.status == STATUS_OK && response.content_type == Some("application/dns-message"@)
        && response.body is Binary
    ||| response.status == STATUS_BAD_REQUEST && response.content_type is None && response.body is Text
    ||| response == spec_bare(STATUS_METHOD_NOT_ALLOWED)
    ||| response == spec_bare(STATUS_INTERNAL_SERVER_ERROR)
}

/// A response that a request ends in without a DNS message is a 400 with a
/// reason, or a bare 405 or 500. It is 405 exactly when the method is neither
/// GET nor POST, and 400 exactly when decoding fails by the caller's own
/// error.
pub proof fn law_responses_to_requests(request: RequestView, denylist: Set<Seq<char>>)
    ensures
        spec_receive(request, denylist) matches StepView::Respond(response) ==> {
            &&& spec_has_known_shape(response)
            &&& response.status != STATUS_OK
            &&& response.status == STATUS_METHOD_NOT_ALLOWED <==> request.method == Method::Other
            &&& response.status == STATUS_BAD_REQUEST <==> request.method != Method::Other && spec_decode(
                request,
            ) matches Err(RequestErrorView::Client(_))
        },
        request.method == Method::Other ==> spec_receive(request, denylist) is Respond,
        request.method != Method::Other && spec_decode(request) is Err ==> spec_receive(request, denylist) is Respond,
{
}

/// A pending query is never handed out for lookup again, and where it ends
/// without a DNS message, it ends in a bare 500: once a query is decoded,
/// nothing is the caller's error any more.
pub proof fn law_responses_to_lookups(pending: PendingView, outcome: OutcomeView)
    ensures
        !(spec_resume(pending, outcome) is Resolve),
        spec_resume(pending, outcome) matches StepView::Respond(response) ==> response == spec_bare(
            STATUS_INTERNAL_SERVER_ERROR,
        ),
{
}

/// The delivery of a message ends in status 200 with the content type
/// `application/dns-message` and a binary body, or in a bare 500.
pub proof fn law_deliveries(response: ResponseView)
    requires
        spec_is_delivery(response),
    ensures
        spec_has_known_shape(response),
        response.status == STATUS_OK || response == spec_bare(STATUS_INTERNAL_SERVER_ERROR),
{
}

} // verus!
