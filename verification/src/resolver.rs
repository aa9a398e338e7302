//! What an upstream lookup can come to, and how the conditions that a
//! resolver reports are told apart.
//!
//! The lookup itself is made outside this library, once per query and with no
//! retry. Its result comes back as the records found, or as the condition
//! that the resolver reported.

use trust_dns_proto::rr::Record;
use vstd::prelude::*;

verus! {

/// The condition that a resolver reported for a lookup that gave no records.
#[derive(Debug, Clone, Copy, PartialEq, Eq, Structural)]
pub enum ResolverFailure {
    /// There are no records for this name and query type.
    NoRecordsFound,
    /// The name is malformed: it cannot be put into a query.
    InvalidName,
    /// A protocol error that says nothing about the name, such as one of the
    /// transport.
    Proto,
    /// No resolver could be reached.
    NoConnections,
    /// An I/O error.
    Io,
    /// The lookup timed out.
    Timeout,
    /// The resolver gave only a fixed message.
    Message,
    /// The resolver gave only a message of its own making.
    Msg,
    /// Any other condition.
    Other,
}

/// The outcome of one upstream lookup.
#[derive(Debug)]
pub enum ResolutionOutcome {
    /// The records found, in the order in which the resolver returned them.
    Answered(Vec<Record>),
    /// The name has no records of the queried type.
    NotFound,
    /// The name is malformed.
    MalformedName,
    /// The lookup failed for a reason that says nothing about the name.
    TransientFailure,
}

/// What a [`ResolutionOutcome`] is to a contract.
pub ghost enum OutcomeView {
    Answered(Seq<Record>),
    NotFound,
    MalformedName,
    TransientFailure,
}

impl View for ResolutionOutcome {
    type V = OutcomeView;

    open spec fn view(&self) -> OutcomeView {
        match self {
            ResolutionOutcome::Answered(records) => OutcomeView::Answered(records@),
            ResolutionOutcome::NotFound => OutcomeView::NotFound,
            ResolutionOutcome::MalformedName => OutcomeView::MalformedName,
            ResolutionOutcome::TransientFailure => OutcomeView::TransientFailure,
        }
    }
}

/// The outcome that a reported condition stands for. Missing records and a
/// malformed name are answers about the name; everything else, a timeout and
/// an error of the protocol or the transport included, is a failure of the
/// lookup.
pub open spec fn spec_failure_outcome(failure: ResolverFailure) -> OutcomeView {
    match failure {
        ResolverFailure::NoRecordsFound => OutcomeView::NotFound,
        ResolverFailure::InvalidName => OutcomeView::MalformedName,
        _ => OutcomeView::TransientFailure,
    }
}

/// The outcome of a lookup that returned `result`.
pub open spec fn spec_classify(result: Result<Seq<Record>, ResolverFailure>) -> OutcomeView {
    match result {
        Ok(records) => OutcomeView::Answered(records),
        Err(failure) => spec_failure_outcome(failure),
    }
}

/// What a lookup's result is to a contract.
pub open spec fn result_view(result: Result<Vec<Record>, ResolverFailure>) -> Result<Seq<Record>, ResolverFailure> {
    match result {
        Ok(records) => Ok(records@),
        Err(failure) => Err(failure),
    }
}

/// Classifies the result of one lookup. Records are an answer, in the order
/// given. Of the failures, `NoRecordsFound` means not found, `InvalidName`
/// means a malformed name, and every other one is transient.
pub fn classify(result: Result<Vec<Record>, ResolverFailure>) -> (outcome: ResolutionOutcome)
    ensures
        outcome@ == spec_classify(result_view(result)),
{
    match result {
        Ok(records) => ResolutionOutcome::Answered(records),
        Err(ResolverFailure::NoRecordsFound) => ResolutionOutcome::NotFound,
        Err(ResolverFailure::InvalidName) => ResolutionOutcome::MalformedName,
        Err(_) => ResolutionOutcome::TransientFailure,
    }
}

} // verus!
