//! Small value types used by the runtime bindings, and the decisions made on
//! what the runtime hands back.

use vstd::prelude::*;

use crate::error::Error;

verus! {

/// A blob-like value of an analytics data point.
#[derive(Debug)]
pub enum BlobType {
    String(String),
    Blob(Vec<u8>),
}

impl<'a> From<&'a str> for BlobType {
    fn from(value: &'a str) -> (b: Self)
        ensures
            b matches BlobType::String(s) && s@ == value@,
    {
        BlobType::String(value.to_owned())
    }
}

impl<'a> vstd::std_specs::convert::FromSpecImpl<&'a str> for BlobType {
    /// The owned copy is described by its contents only.
    open spec fn obeys_from_spec() -> bool {
        false
    }

    open spec fn from_spec(value: &'a str) -> BlobType {
        vstd::pervasive::arbitrary()
    }
}

impl From<String> for BlobType {
    fn from(value: String) -> (b: Self)
        ensures
            b == BlobType::String(value),
    {
        BlobType::String(value)
    }
}

impl vstd::std_specs::convert::FromSpecImpl<String> for BlobType {
    open spec fn obeys_from_spec() -> bool {
        true
    }

    open spec fn from_spec(value: String) -> BlobType {
        BlobType::String(value)
    }
}

impl From<Vec<u8>> for BlobType {
    fn from(value: Vec<u8>) -> (b: Self)
        ensures
            b == BlobType::Blob(value),
    {
        BlobType::Blob(value)
    }
}

impl vstd::std_specs::convert::FromSpecImpl<Vec<u8>> for BlobType {
    open spec fn obeys_from_spec() -> bool {
        true
    }

    open spec fn from_spec(value: Vec<u8>) -> BlobType {
        BlobType::Blob(value)
    }
}

impl<'a> From<&'a [u8]> for BlobType {
    fn from(value: &'a [u8]) -> (b: Self)
        ensures
            b matches BlobType::Blob(v) && v@ == value@,
    {
        BlobType::Blob(vstd::slice::slice_to_vec(value))
    }
}

impl<'a> vstd::std_specs::convert::FromSpecImpl<&'a [u8]> for BlobType {
    /// The owned copy is described by its contents only.
    open spec fn obeys_from_spec() -> bool {
        false
    }

    open spec fn from_spec(value: &'a [u8]) -> BlobType {
        vstd::pervasive::arbitrary()
    }
}

/// The value a `Date` is created from.
#[derive(Debug)]
pub enum DateInit {
    /// Milliseconds since the Unix epoch.
    Millis(u64),
    /// A date string, e.g. `Thu, 02 Sep 2021 19:38:31 GMT`.
    String(String),
}

/// Successful outcomes when attempting to delete a `Response` from the cache
#[derive(Debug, Clone, Copy, PartialEq, Eq, Structural)]
pub enum CacheDeletionOutcome {
    /// The response was cached but is now deleted
    Success,
    /// The response was not in the cache at the time of deletion.
    ResponseNotFound,
}

impl CacheDeletionOutcome {
    /// The outcome the cache's answer to a deletion stands for: `true` when a
    /// response was deleted.
    pub fn from_deleted(deleted: bool) -> (o: Self)
        ensures
            deleted ==> o == CacheDeletionOutcome::Success,
            !deleted ==> o == CacheDeletionOutcome::ResponseNotFound,
    {
        if deleted {
            CacheDeletionOutcome::Success
        } else {
            CacheDeletionOutcome::ResponseNotFound
        }
    }
}

/// The answer of a rate limiter for one key.
#[derive(Debug, Clone, Copy, PartialEq, Eq, Structural)]
pub struct RateLimitOutcome {
    pub success: bool,
}

/// A service that sends requests with `fetch`.
#[derive(Debug, Default, Clone, Copy)]
pub struct Service;

/// A digest algorithm of the Web Crypto API.
#[derive(Debug, Clone, Copy, PartialEq, Eq, Structural)]
pub enum DigestStreamAlgorithm {
    Sha1,
    Sha256,
    Sha384,
    Sha512,
}

impl DigestStreamAlgorithm {
    pub open spec fn name(self) -> Seq<char> {
        match self {
            DigestStreamAlgorithm::Sha1 => "SHA-1"@,
            DigestStreamAlgorithm::Sha256 => "SHA-256"@,
            DigestStreamAlgorithm::Sha384 => "SHA-384"@,
            DigestStreamAlgorithm::Sha512 => "SHA-512"@,
        }
    }

    /// The algorithm's name in the Web Crypto API, e.g. `SHA-256`.
    pub fn as_str(self) -> (s: &'static str)
        ensures
            s@ == self.name(),
    {
        match self {
            DigestStreamAlgorithm::Sha1 => "SHA-1",
            DigestStreamAlgorithm::Sha256 => "SHA-256",
            DigestStreamAlgorithm::Sha384 => "SHA-384",
            DigestStreamAlgorithm::Sha512 => "SHA-512",
        }
    }
}

/// The error for a binding that the environment lacks.
pub fn missing_binding_error(name: &str) -> (e: Error)
    ensures
        e matches Error::JsError(m) && m@ == "Env does not contain binding `"@ + name@ + "`"@,
{
    let mut m = "Env does not contain binding `".to_owned();
    m.append(name);
    m.append("`");
    Error::JsError(m)
}

/// The error for a binding that is present but undefined.
pub fn undefined_binding_error(name: &str) -> (e: Error)
    ensures
        e matches Error::RustError(m) && m@ == "Binding `"@ + name@ + "` is undefined."@,
{
    let mut m = "Binding `".to_owned();
    m.append(name);
    m.append("` is undefined.");
    Error::RustError(m)
}

/// Whether a binding whose constructor has the name `found` can be used as a
/// binding of type `expected`; the error names both when it cannot.
pub fn check_binding_type(expected: &str, found: &str) -> (r: Result<(), Error>)
    ensures
        r is Ok <==> expected@ == found@,
        r matches Err(e) ==> (e matches Error::RustError(m) && m@
            == "Binding cannot be cast to the type "@ + expected@ + " from "@ + found@),
{
    if crate::text::str_eq(found, expected) {
        Ok(())
    } else {
        let mut m = "Binding cannot be cast to the type ".to_owned();
        m.append(expected);
        m.append(" from ");
        m.append(found);
        Err(Error::RustError(m))
    }
}

} // verus!
