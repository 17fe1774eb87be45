//! The supported versions and the filter, before they are put around a
//! service.

use crate::service::ApiVersion;
use crate::versions::{
    any_prefix_of, collides, contains, default_version, is_strictly_increasing,
    strictly_increasing, valid_versions,
};
use vstd::prelude::*;

verus! {

/// Why a list of versions was refused.
#[derive(Debug, Clone, Copy, PartialEq, Eq, Structural)]
pub enum NewApiVersionLayerError {
    /// The list is empty.
    Empty,
    /// Some version is not greater than the one before it.
    NotIncreasing,
}

impl NewApiVersionLayerError {
    /// The error in words.
    pub fn message(&self) -> (message: &'static str)
        ensures
            message@ == match self {
                NewApiVersionLayerError::Empty => "versions must not be empty"@,
                NewApiVersionLayerError::NotIncreasing =>
                    "versions must be strictly monotonically increasing"@,
            },
    {
        match self {
            NewApiVersionLayerError::Empty => "versions must not be empty",
            NewApiVersionLayerError::NotIncreasing =>
                "versions must be strictly monotonically increasing",
        }
    }
}

/// A list of supported versions, not empty and strictly increasing, and a
/// filter that says which requests are rewritten.
pub struct ApiVersionLayer<const N: usize, F> {
    versions: [u16; N],
    filter: F,
}

impl<const N: usize, F> ApiVersionLayer<N, F> {
    #[verifier::type_invariant]
    spec fn valid(&self) -> bool {
        valid_versions(self.versions@)
    }

    /// The supported versions, in their order.
    pub closed spec fn spec_versions(&self) -> &[u16; N] {
        &self.versions
    }

    /// The filter.
    pub closed spec fn spec_filter(&self) -> &F {
        &self.filter
    }

    /// Takes the versions as they are given, if there is at least one and each
    /// is greater than the one before it, as in `[0, 1, 2]`.
    pub fn new(versions: [u16; N], filter: F) -> (result: Result<Self, NewApiVersionLayerError>)
        ensures
            result is Ok <==> valid_versions(versions@),
            match result {
                Ok(layer) => {
                    &&& valid_versions(versions@)
                    &&& layer.versions()@ == versions@
                    &&& *layer.filter() == filter
                    &&& default_version(layer.versions()@) == versions@.last()
                },
                Err(NewApiVersionLayerError::Empty) => versions@.len() == 0,
                Err(NewApiVersionLayerError::NotIncreasing) => {
                    &&& versions@.len() > 0
                    &&& !strictly_increasing(versions@)
                },
            },
    {
        if N == 0 {
            return Err(NewApiVersionLayerError::Empty);
        }
        if !is_strictly_increasing(versions.as_slice()) {
            return Err(NewApiVersionLayerError::NotIncreasing);
        }
        Ok(Self { versions, filter })
    }

    /// The supported versions, in their order: not empty, and strictly
    /// increasing.
    #[verifier::when_used_as_spec(spec_versions)]
    pub fn versions(&self) -> (versions: &[u16; N])
        ensures
            versions == self.spec_versions(),
            valid_versions(versions@),
    {
        proof {
            use_type_invariant(self);
        }
        &self.versions
    }

    /// The filter.
    #[verifier::when_used_as_spec(spec_filter)]
    pub fn filter(&self) -> (filter: &F)
        ensures
            filter == self.spec_filter(),
    {
        &self.filter
    }

    /// The version that a request gets when it names none: the last one.
    pub fn default_version(&self) -> (version: u16)
        ensures
            version == default_version(self.versions()@),
    {
        proof {
            use_type_invariant(self);
        }
        self.versions[N - 1]
    }

    /// Whether `version` is supported.
    pub fn contains(&self, version: u16) -> (found: bool)
        ensures
            found == self.versions()@.contains(version),
    {
        contains(self.versions.as_slice(), version)
    }

    /// Whether `path` begins with the prefix of a supported version.
    pub fn collides(&self, path: &str) -> (found: bool)
        ensures
            found == collides(self.versions()@, path@),
    {
        any_prefix_of(self.versions.as_slice(), path)
    }

    /// Puts the versions and a clone of the filter around `inner`.
    pub fn layer<S>(&self, inner: S) -> (service: ApiVersion<N, S, F>) where F: Clone
        ensures
            service.versions()@ == self.versions()@,
            *service.inner() == inner,
            cloned(*self.filter(), *service.filter()),
    {
        ApiVersion::around(inner, self.clone())
    }
}

impl<const N: usize, F: Clone> Clone for ApiVersionLayer<N, F> {
    fn clone(&self) -> (copy: Self)
        ensures
            copy.versions()@ == self.versions()@,
            cloned(*self.filter(), *copy.filter()),
    {
        proof {
            use_type_invariant(self);
        }
        ApiVersionLayer { versions: self.versions, filter: self.filter.clone() }
    }
}

} // verus!
