//! Which requests are rewritten.

use crate::request::RequestUri;
use vstd::prelude::*;

verus! {

/// Decides which requests are rewritten.
pub trait ApiVersionFilter: Clone + Send + 'static {
    /// A request is rewritten only if its URI passes, that is, if this
    /// returns `true`.
    fn filter(&self, uri: &RequestUri) -> bool;
}

/// The filter that has every request rewritten.
#[derive(Debug, Clone, Copy)]
pub struct All;

impl ApiVersionFilter for All {
    fn filter(&self, _uri: &RequestUri) -> (passes: bool)
        ensures
            passes,
    {
        true
    }
}

} // verus!
