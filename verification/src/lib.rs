//! API version negotiation by rewriting request paths.
//!
//! A service supports a fixed, strictly increasing list of versions. A request
//! names the version it wants in the `x-api-version` header, or gets the latest
//! one, and its path is then prefixed with that version, so that `/test`
//! becomes `/v1/test`.
//!
//! What becomes of a request is decided in this order:
//!
//! 1. A request for `/`, the readiness probe, is forwarded as it came.
//! 2. A path that already begins with the prefix of a supported version, such
//!    as `/v0x` where version 0 is supported, is refused with status 400.
//! 3. A request whose URI the filter does not pass is forwarded as it came.
//! 4. The version is read from the header. A missing header, or a value that
//!    is no version designator, gives the default version, the last one.
//! 5. A version that is not supported is refused with status 404.
//! 6. The path is prefixed with the version; the query stays.
//!
//! [`ApiVersionLayer`] holds the versions and the filter, [`ApiVersion`] puts
//! them around a service and decides, and [`decision`] says what is decided
//! as a function of the request. [`laws`] holds what follows for every
//! request. This crate forwards and answers nothing itself: it hands back an
//! [`Outcome`] for the caller to act on.

pub mod decision;
pub mod filter;
pub mod laws;
pub mod layer;
pub mod request;
pub mod service;
pub mod text;
pub mod version;
pub mod versions;

pub use crate::filter::{All, ApiVersionFilter};
pub use crate::layer::{ApiVersionLayer, NewApiVersionLayerError};
pub use crate::request::{Outcome, Rejection, RequestHead, RequestUri, Step};
pub use crate::service::ApiVersion;
pub use crate::version::{InvalidVersion, XApiVersion, X_API_VERSION};
