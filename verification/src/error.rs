//! The two kinds of failure a request can meet: one that the caller caused,
//! and one that the service caused.

use vstd::prelude::*;
use vstd::string::*;

verus! {

/// A failure that the caller's own input caused, with a description that is
/// safe to send back.
#[derive(Debug, Clone)]
pub struct BadRequestError {
    message: String,
}

impl View for BadRequestError {
    type V = Seq<char>;

    /// The description, as characters.
    closed spec fn view(&self) -> Seq<char> {
        self.message@
    }
}

impl BadRequestError {
    /// An error that carries `message` as its description.
    pub fn new(message: &str) -> (error: Self)
        ensures
            error@ == message@,
    {
        Self { message: String::from_str(message) }
    }

    /// The description this error was made with.
    pub fn message(&self) -> (text: String)
        ensures
            text@ == self@,
    {
        self.message.clone()
    }

    /// What [`BadRequestError::to_text`] returns: the description behind a
    /// fixed prefix.
    pub open spec fn spec_to_text(&self) -> Seq<char> {
        "bad request: "@ + self@
    }

    /// The error as one line of text: `bad request: ` and the description.
    pub fn to_text(&self) -> (text: String)
        ensures
            text@ == self.spec_to_text(),
    {
        let mut text = String::from_str("bad request: ");
        text.append(self.message.as_str());
        text
    }
}

/// Why a request could not be turned into a DNS message.
#[derive(Debug, Clone)]
pub enum RequestError {
    /// The caller sent something malformed; answered with a 4xx status and
    /// the description.
    Client(BadRequestError),
    /// The service failed; answered with a 5xx status and no detail.
    System,
}

/// What a [`RequestError`] is to a contract.
pub ghost enum RequestErrorView {
    Client(Seq<char>),
    System,
}

impl View for RequestError {
    type V = RequestErrorView;

    open spec fn view(&self) -> RequestErrorView {
        match self {
            RequestError::Client(error) => RequestErrorView::Client(error@),
            RequestError::System => RequestErrorView::System,
        }
    }
}

} // verus!
