//! A service with the versions and the filter around it.

use crate::decision::{early_outcome, next_step, outcome_of, root_path, versioned_outcome};
use crate::filter::ApiVersionFilter;
use crate::layer::ApiVersionLayer;
use crate::request::{Outcome, OutcomeView, Rejection, RequestHead, RequestUri, Step};
use crate::version::{prefix, XApiVersion};
use crate::versions::valid_versions;
use vstd::prelude::*;

verus! {

/// A service with the supported versions and the filter around it.
pub struct ApiVersion<const N: usize, S, F> {
    inner: S,
    layer: ApiVersionLayer<N, F>,
}

impl<const N: usize, S, F> ApiVersion<N, S, F> {
    /// The supported versions, in their order.
    pub closed spec fn spec_versions(&self) -> &[u16; N] {
        self.layer.versions()
    }

    /// The service inside.
    pub closed spec fn spec_inner(&self) -> &S {
        &self.inner
    }

    /// The filter.
    pub closed spec fn spec_filter(&self) -> &F {
        self.layer.filter()
    }

    pub(crate) fn around(inner: S, layer: ApiVersionLayer<N, F>) -> (service: Self)
        ensures
            service.versions()@ == layer.versions()@,
            *service.inner() == inner,
            service.filter() == layer.filter(),
    {
        ApiVersion { inner, layer }
    }

    /// The supported versions, in their order: not empty, and strictly
    /// increasing.
    #[verifier::when_used_as_spec(spec_versions)]
    pub fn versions(&self) -> (versions: &[u16; N])
        ensures
            versions == self.spec_versions(),
            valid_versions(versions@),
    {
        self.layer.versions()
    }

    /// The service inside.
    #[verifier::when_used_as_spec(spec_inner)]
    pub fn inner(&self) -> (inner: &S)
        ensures
            inner == self.spec_inner(),
    {
        &self.inner
    }

    /// The service inside, to be changed.
    pub fn inner_mut(&mut self) -> (inner: &mut S)
        ensures
            *inner == *old(self).inner(),
            *final(self).inner() == *final(inner),
            final(self).versions()@ == old(self).versions()@,
            final(self).filter() == old(self).filter(),
    {
        &mut self.inner
    }

    /// The filter.
    #[verifier::when_used_as_spec(spec_filter)]
    pub fn filter(&self) -> (filter: &F)
        ensures
            filter == self.spec_filter(),
    {
        self.layer.filter()
    }

    /// Gives the service inside back.
    pub fn into_inner(self) -> (inner: S)
        ensures
            inner == *self.inner(),
    {
        self.inner
    }
}

/// An outcome that may not be decided yet, as values.
spec fn early_view(early: Option<Outcome>) -> Option<OutcomeView> {
    match early {
        Some(outcome) => Some(outcome@),
        None => None,
    }
}

/// Whether `path` is `/`.
fn is_root(path: &str) -> (root: bool)
    ensures
        root == (path@ == root_path()),
{
    let root = path.unicode_len() == 1 && path.get_char(0) == '/';
    assert(root ==> path@ =~= root_path());
    root
}

impl<const N: usize, S, F> ApiVersion<N, S, F> {
    /// What the path alone decides, if it decides.
    fn early(&self, path: &str) -> (early: Option<Outcome>)
        ensures
            early_view(early) == early_outcome(self.versions()@, path@),
    {
        if is_root(path) {
            Some(Outcome::Unmodified)
        } else if self.layer.collides(path) {
            Some(Outcome::Rejected(Rejection::VersionPrefix))
        } else {
            None
        }
    }

    /// What becomes of a request that is to be rewritten.
    fn versioned(&self, request: &RequestHead) -> (outcome: Outcome)
        ensures
            outcome@ == versioned_outcome(self.versions()@, request@),
    {
        let decoded = match &request.version_header {
            Some(value) => XApiVersion::decode(Some(value.as_slice())),
            None => XApiVersion::decode(None),
        };
        let version: u16 = match decoded {
            Ok(version) => version.number(),
            Err(_) => self.layer.default_version(),
        };
        if !self.layer.contains(version) {
            return Outcome::Rejected(Rejection::UnknownVersion(version));
        }
        let mut path = prefix(version);
        path.append(request.uri.path.as_str());
        let query = match &request.uri.query {
            Some(query) => Some(query.clone()),
            None => None,
        };
        Outcome::Rewritten(RequestUri { path, query })
    }

    /// What becomes of `request`, where `passes` is what the filter says of
    /// its URI.
    pub fn decide(&self, request: &RequestHead, passes: bool) -> (outcome: Outcome)
        ensures
            outcome@ == outcome_of(self.versions()@, request@, passes),
    {
        match self.early(request.uri.path.as_str()) {
            Some(early) => early,
            None => if passes {
                self.versioned(request)
            } else {
                Outcome::Unmodified
            },
        }
    }

    /// What is to be done next about `request`. `verdict` is what the filter
    /// said of its URI, once it has been asked.
    pub fn step(&self, request: &RequestHead, verdict: Option<bool>) -> (step: Step)
        ensures
            step@ == next_step(self.versions()@, request@, verdict),
    {
        match verdict {
            Some(passes) => Step::Done(self.decide(request, passes)),
            None => match self.early(request.uri.path.as_str()) {
                Some(early) => Step::Done(early),
                None => Step::AskFilter,
            },
        }
    }
}

impl<const N: usize, S, F: ApiVersionFilter> ApiVersion<N, S, F> {
    /// What becomes of `request`. The filter is asked only where the path
    /// alone does not decide, and then once, about the request's URI.
    pub fn call(&self, request: &RequestHead) -> (outcome: Outcome)
        ensures
            match early_outcome(self.versions()@, request@.uri.path) {
                Some(early) => outcome@ == early,
                None => exists|passes: bool|
                    {
                        &&& #[trigger] call_ensures(
                            F::filter,
                            (self.filter(), &request.uri),
                            passes,
                        )
                        &&& outcome@ == outcome_of(self.versions()@, request@, passes)
                    },
            },
    {
        match self.step(request, None) {
            Step::Done(outcome) => outcome,
            Step::AskFilter => {
                let passes = self.layer.filter().filter(&request.uri);
                self.decide(request, passes)
            },
        }
    }
}

impl<const N: usize, S: Clone, F: Clone> Clone for ApiVersion<N, S, F> {
    fn clone(&self) -> (copy: Self)
        ensures
            copy.versions()@ == self.versions()@,
            cloned(*self.inner(), *copy.inner()),
            cloned(*self.filter(), *copy.filter()),
    {
        ApiVersion { inner: self.inner.clone(), layer: self.layer.clone() }
    }
}

} // verus!
