//! Request/response primitives for edge workers: HTTP methods, the CORS policy,
//! the edge's request properties, outbound request options, queue messages,
//! form entries, body buffering, timers and the error type, with their
//! behaviour stated and proved.

mod js;
mod outside;
mod text;

pub mod ai;
pub mod bindings;
pub mod body;
pub mod cf;
pub mod cors;
pub mod d1;
pub mod delay;
pub mod durable;
pub mod error;
pub mod formdata;
pub mod headers;
pub mod method;
pub mod properties;
pub mod queue;
pub mod redirect;
pub mod request;

pub use bindings::{BlobType, CacheDeletionOutcome, DateInit, DigestStreamAlgorithm, RateLimitOutcome, Service};
pub use cf::{Cf, RequestPriority, TlsClientAuth};
pub use cors::Cors;
pub use error::{Error, KvError};
pub use method::Method;
pub use properties::{CfProperties, MinifyConfig, PolishConfig};
pub use redirect::RequestRedirect;
pub use request::Request;

use vstd::prelude::*;

verus! {

/// The result of the library's fallible operations.
pub type Result<T> = std::result::Result<T, Error>;

} // verus!
