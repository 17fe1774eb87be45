//! What holds of every request and every list of supported versions.

use crate::decision::{early_outcome, next_step, outcome_of, rewritten, root_path};
use crate::request::{
    path_and_query, version_prefix_message, OutcomeView, Rejection, RequestHeadView,
    RequestUriView, StepView,
};
use crate::text::digit_char;
use crate::version::{
    designated, header_version, is_version_designator, lemma_wire_form, version_display,
    version_prefix, wire_form,
};
use crate::versions::{
    collides, default_version, lemma_increasing_is_ordered, valid_versions,
};
use vstd::prelude::*;

verus! {

/// The header's grammar and the written form of a version agree: the wire
/// form of each version up to 99 is a version designator, and stands for that
/// version.
pub proof fn law_wire_form_is_designator(n: u16)
    requires
        n <= 99,
    ensures
        is_version_designator(wire_form(n)),
        designated(wire_form(n)) == n,
        header_version(Some(wire_form(n))) == Some(n),
{
    lemma_wire_form(n);
}

/// Every version designator is the wire form of the version it stands for,
/// and that version is at most 99. So nothing else is accepted: no leading
/// zero, no third digit, no other character.
pub proof fn law_designator_is_wire_form(value: Seq<u8>)
    requires
        is_version_designator(value),
    ensures
        designated(value) <= 99,
        value == wire_form(designated(value)),
{
    lemma_wire_form(designated(value));
}

/// The default version is the greatest of the supported versions.
pub proof fn law_default_is_greatest(versions: Seq<u16>, i: int)
    requires
        valid_versions(versions),
        0 <= i < versions.len(),
    ensures
        versions[i] <= default_version(versions),
        versions.contains(default_version(versions)),
{
    if i < versions.len() - 1 {
        lemma_increasing_is_ordered(versions, i, versions.len() - 1);
    }
}

/// A version's prefix begins with a slash and ends with a digit, so a path
/// that begins with a slash is joined to it by that one slash.
pub proof fn law_prefix_ends_with_digit(version: u16)
    ensures
        version_prefix(version).first() == '/',
        version_prefix(version).last() == digit_char((version % 10) as nat),
        version_prefix(version).last() != '/',
{
}

/// Rewriting puts the version's prefix before the path and the query as they
/// are written together, and changes nothing else.
pub proof fn law_rewrite_prefixes_path_and_query(uri: RequestUriView, version: u16)
    ensures
        path_and_query(rewritten(uri, version)) == version_prefix(version) + path_and_query(uri),
        rewritten(uri, version).query == uri.query,
{
}

/// A request for `/` is forwarded as it came, whatever its header and
/// whatever the filter says.
pub proof fn law_root_is_forwarded_unmodified(
    versions: Seq<u16>,
    request: RequestHeadView,
    passes: bool,
)
    requires
        request.uri.path == root_path(),
    ensures
        outcome_of(versions, request, passes) == OutcomeView::Unmodified,
        next_step(versions, request, None) == StepView::Done(OutcomeView::Unmodified),
{
}

/// A request whose path begins with the prefix of a supported version is
/// refused with status 400, whatever its header and whatever the filter says,
/// and the filter is not asked.
pub proof fn law_version_prefix_is_rejected(
    versions: Seq<u16>,
    request: RequestHeadView,
    passes: bool,
    i: int,
)
    requires
        0 <= i < versions.len(),
        version_prefix(versions[i]).is_prefix_of(request.uri.path),
    ensures
        outcome_of(versions, request, passes) == OutcomeView::Rejected(Rejection::VersionPrefix),
        next_step(versions, request, None) == StepView::Done(
            OutcomeView::Rejected(Rejection::VersionPrefix),
        ),
        Rejection::VersionPrefix.spec_status() == 400,
        Rejection::VersionPrefix.spec_message() == version_prefix_message(),
{
}

/// A request that the filter does not pass is forwarded as it came, whatever
/// its header, unless its path begins with the prefix of a supported version.
pub proof fn law_filtered_out_is_forwarded_unmodified(versions: Seq<u16>, request: RequestHeadView)
    requires
        !collides(versions, request.uri.path),
    ensures
        outcome_of(versions, request, false) == OutcomeView::Unmodified,
{
}

/// A request without the header gets the default version: its path is
/// prefixed with `/`, `v` and the number of the last supported version, and
/// its query stays as it is.
pub proof fn law_missing_header_gets_default(versions: Seq<u16>, uri: RequestUriView)
    requires
        valid_versions(versions),
        uri.path != root_path(),
        !collides(versions, uri.path),
    ensures
        outcome_of(versions, RequestHeadView { uri, version_header: None }, true)
            == OutcomeView::Rewritten(
            RequestUriView {
                path: seq!['/'] + version_display(versions.last()) + uri.path,
                query: uri.query,
            },
        ),
{
    law_default_is_greatest(versions, 0);
}

/// A request whose header names a supported version gets that version: its
/// path is prefixed with `/`, `v` and the version's number, and its query
/// stays as it is.
pub proof fn law_supported_header_is_followed(versions: Seq<u16>, uri: RequestUriView, k: u16)
    requires
        k <= 99,
        versions.contains(k),
        uri.path != root_path(),
        !collides(versions, uri.path),
    ensures
        outcome_of(versions, RequestHeadView { uri, version_header: Some(wire_form(k)) }, true)
            == OutcomeView::Rewritten(
            RequestUriView { path: seq!['/'] + version_display(k) + uri.path, query: uri.query },
        ),
{
    law_wire_form_is_designator(k);
}

/// A request whose header names a version that is not supported is refused
/// with status 404 and a message that names the version, as in
/// `unknown version 'v2'`.
pub proof fn law_unsupported_header_is_not_found(versions: Seq<u16>, uri: RequestUriView, k: u16)
    requires
        k <= 99,
        !versions.contains(k),
        uri.path != root_path(),
        !collides(versions, uri.path),
    ensures
        outcome_of(versions, RequestHeadView { uri, version_header: Some(wire_form(k)) }, true)
            == OutcomeView::Rejected(Rejection::UnknownVersion(k)),
        Rejection::UnknownVersion(k).spec_status() == 404,
        Rejection::UnknownVersion(k).spec_message() == "unknown version '"@ + version_display(k)
            + "'"@,
{
    law_wire_form_is_designator(k);
}

/// A header value that is no version designator counts as no header at all.
pub proof fn law_malformed_header_is_ignored(
    versions: Seq<u16>,
    uri: RequestUriView,
    value: Seq<u8>,
    passes: bool,
)
    requires
        !is_version_designator(value),
    ensures
        outcome_of(versions, RequestHeadView { uri, version_header: Some(value) }, passes)
            == outcome_of(versions, RequestHeadView { uri, version_header: None }, passes),
{
}

/// Where the path alone decides, the filter's verdict changes nothing; where
/// it does not, the filter is asked.
pub proof fn law_early_outcome_stands(versions: Seq<u16>, request: RequestHeadView, passes: bool)
    ensures
        match next_step(versions, request, None) {
            StepView::Done(early) => outcome_of(versions, request, passes) == early,
            StepView::AskFilter => early_outcome(versions, request.uri.path) is None,
        },
        next_step(versions, request, Some(passes)) == StepView::Done(
            outcome_of(versions, request, passes),
        ),
{
}

/// A request is forwarded as it came, forwarded with a supported version's
/// prefix before its path, or refused with status 400 or 404.
pub proof fn law_three_outcomes(versions: Seq<u16>, request: RequestHeadView, passes: bool)
    requires
        valid_versions(versions),
    ensures
        match outcome_of(versions, request, passes) {
            OutcomeView::Unmodified => true,
            OutcomeView::Rewritten(uri) => exists|i: int|
                0 <= i < versions.len() && uri == #[trigger] rewritten(request.uri, versions[i]),
            OutcomeView::Rejected(rejection) => rejection.spec_status() == 400
                || rejection.spec_status() == 404,
        },
{
}

} // verus!
