//! How the response to a query is built.
//!
//! Every response keeps the query's transaction id and questions, is marked
//! as a response, and announces recursion. A blocked name, a name that was
//! not found and a malformed name all get NXDOMAIN with no answers, so that a
//! client cannot tell a denylist hit from a name that does not exist. Records
//! that the resolver found become the answer section, in the resolver's order,
//! under the response code of success, whatever code the query carried.

use crate::message::{DnsMessage, MessageKind, MessageView, NO_ERROR, NXDOMAIN};
use crate::resolver::{OutcomeView, ResolutionOutcome};
use trust_dns_proto::rr::Record;
use vstd::prelude::*;

verus! {

/// What was found out about a queried name.
#[derive(Debug)]
pub enum Verdict {
    /// The name is on the denylist.
    Blocked,
    /// The name was looked up, with this outcome.
    Resolved(ResolutionOutcome),
}

/// What a [`Verdict`] is to a contract.
pub ghost enum VerdictView {
    Blocked,
    Resolved(OutcomeView),
}

impl View for Verdict {
    type V = VerdictView;

    open spec fn view(&self) -> VerdictView {
        match self {
            Verdict::Blocked => VerdictView::Blocked,
            Verdict::Resolved(outcome) => VerdictView::Resolved(outcome@),
        }
    }
}

/// The response to `query` with the given response code and answers: the
/// query itself, marked as a response that announces recursion.
pub open spec fn spec_response(query: MessageView, response_code: u16, answers: Seq<Record>) -> MessageView {
    MessageView {
        id: query.id,
        kind: MessageKind::Response,
        recursion_available: true,
        response_code,
        questions: query.questions,
        answers,
        rest: query.rest,
    }
}

/// The response to `query` that says its name does not exist.
pub open spec fn spec_nxdomain(query: MessageView) -> MessageView {
    spec_response(query, NXDOMAIN, Seq::<Record>::empty())
}

/// The response that `verdict` calls for, or `None` where it calls for none.
pub open spec fn spec_synthesize(query: MessageView, verdict: VerdictView) -> Option<MessageView> {
    match verdict {
        VerdictView::Blocked => Some(spec_nxdomain(query)),
        VerdictView::Resolved(OutcomeView::Answered(records)) => Some(spec_response(query, NO_ERROR, records)),
        VerdictView::Resolved(OutcomeView::NotFound) => Some(spec_nxdomain(query)),
        VerdictView::Resolved(OutcomeView::MalformedName) => Some(spec_nxdomain(query)),
        VerdictView::Resolved(OutcomeView::TransientFailure) => None,
    }
}

/// Builds the response to `query` that carries `response_code` and `answers`.
pub fn respond_with(query: DnsMessage, response_code: u16, answers: Vec<Record>) -> (response: DnsMessage)
    ensures
        response@ == spec_response(query@, response_code, answers@),
{
    DnsMessage {
        id: query.id,
        kind: MessageKind::Response,
        recursion_available: true,
        response_code,
        questions: query.questions,
        answers,
        rest: query.rest,
    }
}

/// Builds the response to `query` that says its name does not exist:
/// NXDOMAIN, and no answers.
pub fn nxdomain(query: DnsMessage) -> (response: DnsMessage)
    ensures
        response@ == spec_nxdomain(query@),
{
    respond_with(query, NXDOMAIN, Vec::new())
}

/// Builds the response to `query` that `verdict` calls for.
///
/// A transient failure of the lookup is not put into a DNS response: the
/// result is then `None`, and the request fails as a whole.
pub fn synthesize(query: DnsMessage, verdict: Verdict) -> (response: Option<DnsMessage>)
    ensures
        response is Some <==> spec_synthesize(query@, verdict@) is Some,
        response matches Some(message) ==> spec_synthesize(query@, verdict@) == Some(message@),
{
    match verdict {
        Verdict::Blocked => Some(nxdomain(query)),
        Verdict::Resolved(ResolutionOutcome::Answered(records)) => Some(respond_with(query, NO_ERROR, records)),
        Verdict::Resolved(ResolutionOutcome::NotFound) => Some(nxdomain(query)),
        Verdict::Resolved(ResolutionOutcome::MalformedName) => Some(nxdomain(query)),
        Verdict::Resolved(ResolutionOutcome::TransientFailure) => None,
    }
}

} // verus!
