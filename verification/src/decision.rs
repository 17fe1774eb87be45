//! What becomes of a request, as a function of what is read of it.

use crate::request::{OutcomeView, Rejection, RequestHeadView, RequestUriView, StepView};
use crate::version::{header_version, version_prefix};
use crate::versions::{collides, default_version};
use vstd::prelude::*;

verus! {

/// The path of the readiness probe, `/`.
pub open spec fn root_path() -> Seq<char> {
    seq!['/']
}

/// The version that a request asks for: the one that its header names, or the
/// default where it has no header or the header's value is no version
/// designator.
pub open spec fn requested_version(versions: Seq<u16>, header: Option<Seq<u8>>) -> u16 {
    match header_version(header) {
        Some(version) => version,
        None => default_version(versions),
    }
}

/// The URI with the version's prefix before its path. The query stays.
pub open spec fn rewritten(uri: RequestUriView, version: u16) -> RequestUriView {
    RequestUriView { path: version_prefix(version) + uri.path, query: uri.query }
}

/// What the path alone decides, before filter and header are looked at: the
/// readiness probe is forwarded as it came, and a path that begins with the
/// prefix of a supported version is refused.
pub open spec fn early_outcome(versions: Seq<u16>, path: Seq<char>) -> Option<OutcomeView> {
    if path == root_path() {
        Some(OutcomeView::Unmodified)
    } else if collides(versions, path) {
        Some(OutcomeView::Rejected(Rejection::VersionPrefix))
    } else {
        None
    }
}

/// What becomes of a request that is to be rewritten: it is refused where the
/// version it asks for is not supported, and else forwarded with that
/// version's prefix.
pub open spec fn versioned_outcome(versions: Seq<u16>, request: RequestHeadView) -> OutcomeView {
    let version = requested_version(versions, request.version_header);
    if versions.contains(version) {
        OutcomeView::Rewritten(rewritten(request.uri, version))
    } else {
        OutcomeView::Rejected(Rejection::UnknownVersion(version))
    }
}

/// What becomes of a request, given what the filter says of its URI.
pub open spec fn outcome_of(
    versions: Seq<u16>,
    request: RequestHeadView,
    passes: bool,
) -> OutcomeView {
    match early_outcome(versions, request.uri.path) {
        Some(early) => early,
        None => if passes {
            versioned_outcome(versions, request)
        } else {
            OutcomeView::Unmodified
        },
    }
}

/// What is to be done next: with the filter's verdict, the outcome; without
/// it, the outcome where the path alone decides, and else to ask the filter.
pub open spec fn next_step(
    versions: Seq<u16>,
    request: RequestHeadView,
    verdict: Option<bool>,
) -> StepView {
    match verdict {
        Some(passes) => StepView::Done(outcome_of(versions, request, passes)),
        None => match early_outcome(versions, request.uri.path) {
            Some(early) => StepView::Done(early),
            None => StepView::AskFilter,
        },
    }
}

} // verus!
