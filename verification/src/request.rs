//! What is read of a request, and what is decided about it.

use crate::version::{display, version_display};
use vstd::prelude::*;

verus! {

/// The path and the query of a request's URI.
#[derive(Debug, Clone, PartialEq, Eq)]
pub struct RequestUri {
    /// The path, as in `/test`.
    pub path: String,
    /// What follows the `?`, where the URI has one.
    pub query: Option<String>,
}

/// A `RequestUri` as values.
pub struct RequestUriView {
    /// The characters of the path.
    pub path: Seq<char>,
    /// The characters of the query, where there is one.
    pub query: Option<Seq<char>>,
}

impl View for RequestUri {
    type V = RequestUriView;

    open spec fn view(&self) -> RequestUriView {
        RequestUriView {
            path: self.path@,
            query: match self.query {
                Some(query) => Some(query@),
                None => None,
            },
        }
    }
}

/// How a URI's path and query are written together: the path, and where
/// there is a query, `?` and the query.
pub open spec fn path_and_query(uri: RequestUriView) -> Seq<char> {
    match uri.query {
        Some(query) => uri.path + seq!['?'] + query,
        None => uri.path,
    }
}

impl RequestUri {
    /// The path and the query, written together.
    pub fn path_and_query(&self) -> (written: String)
        ensures
            written@ == path_and_query(self@),
    {
        let mut written = self.path.clone();
        match &self.query {
            Some(query) => {
                proof {
                    reveal_strlit("?");
                }
                written.append("?");
                written.append(query.as_str());
            },
            None => {},
        }
        written
    }
}

/// What the rewriting reads of a request.
#[derive(Debug, Clone, PartialEq, Eq)]
pub struct RequestHead {
    /// The request's URI.
    pub uri: RequestUri,
    /// The first value of the `x-api-version` header, where the request has
    /// that header.
    pub version_header: Option<Vec<u8>>,
}

/// A `RequestHead` as values.
pub struct RequestHeadView {
    /// The URI.
    pub uri: RequestUriView,
    /// The bytes of the header's first value, where there is one.
    pub version_header: Option<Seq<u8>>,
}

impl View for RequestHead {
    type V = RequestHeadView;

    open spec fn view(&self) -> RequestHeadView {
        RequestHeadView {
            uri: self.uri@,
            version_header: match self.version_header {
                Some(value) => Some(value@),
                None => None,
            },
        }
    }
}

/// Why a request is refused.
#[derive(Debug, Clone, Copy, PartialEq, Eq, Structural)]
pub enum Rejection {
    /// The path already begins with the prefix of a supported version.
    VersionPrefix,
    /// The request asks for a version that is not supported.
    UnknownVersion(u16),
}

/// What the body of the answer to a path with a version prefix says.
pub open spec fn version_prefix_message() -> Seq<char> {
    "path must not start with version prefix like '/v0'"@
}

/// What the body of the answer to an unknown version says.
pub open spec fn unknown_version_message(version: u16) -> Seq<char> {
    "unknown version '"@ + version_display(version) + "'"@
}

impl Rejection {
    /// The HTTP status of the answer: 400 for a version prefix, 404 for an
    /// unknown version.
    pub open spec fn spec_status(self) -> u16 {
        match self {
            Rejection::VersionPrefix => 400,
            Rejection::UnknownVersion(_) => 404,
        }
    }

    /// The body of the answer.
    pub open spec fn spec_message(self) -> Seq<char> {
        match self {
            Rejection::VersionPrefix => version_prefix_message(),
            Rejection::UnknownVersion(version) => unknown_version_message(version),
        }
    }

    /// The HTTP status of the answer.
    #[verifier::when_used_as_spec(spec_status)]
    pub fn status(self) -> (status: u16)
        ensures
            status == self.spec_status(),
    {
        match self {
            Rejection::VersionPrefix => 400,
            Rejection::UnknownVersion(_) => 404,
        }
    }

    /// The body of the answer.
    pub fn message(self) -> (message: String)
        ensures
            message@ == self.spec_message(),
    {
        match self {
            Rejection::VersionPrefix => String::from_str(
                "path must not start with version prefix like '/v0'",
            ),
            Rejection::UnknownVersion(version) => {
                let mut message = String::from_str("unknown version '");
                let name = display(version);
                message.append(name.as_str());
                message.append("'");
                message
            },
        }
    }
}

/// What becomes of a request.
#[derive(Debug, Clone, PartialEq, Eq)]
pub enum Outcome {
    /// It is forwarded as it came.
    Unmodified,
    /// It is forwarded with this URI in place of its own.
    Rewritten(RequestUri),
    /// It is answered at once, and nothing is forwarded.
    Rejected(Rejection),
}

/// An `Outcome` as values.
pub enum OutcomeView {
    /// Forwarded as it came.
    Unmodified,
    /// Forwarded with this URI.
    Rewritten(RequestUriView),
    /// Answered at once.
    Rejected(Rejection),
}

impl View for Outcome {
    type V = OutcomeView;

    open spec fn view(&self) -> OutcomeView {
        match self {
            Outcome::Unmodified => OutcomeView::Unmodified,
            Outcome::Rewritten(uri) => OutcomeView::Rewritten(uri@),
            Outcome::Rejected(rejection) => OutcomeView::Rejected(*rejection),
        }
    }
}

/// What is to be done next about a request.
#[derive(Debug, Clone, PartialEq, Eq)]
pub enum Step {
    /// The filter is to be asked about the request's URI.
    AskFilter,
    /// Nothing more is to be asked: this becomes of the request.
    Done(Outcome),
}

/// A `Step` as values.
pub enum StepView {
    /// The filter is to be asked.
    AskFilter,
    /// This becomes of the request.
    Done(OutcomeView),
}

impl View for Step {
    type V = StepView;

    open spec fn view(&self) -> StepView {
        match self {
            Step::AskFilter => StepView::AskFilter,
            Step::Done(outcome) => StepView::Done(outcome@),
        }
    }
}

} // verus!
