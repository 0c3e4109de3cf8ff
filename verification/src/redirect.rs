//! Redirect handling of outbound requests, and the HTTP protocol versions.

use vstd::prelude::*;

use crate::text::str_eq;

verus! {

/// How an outbound request treats redirects.
#[derive(Debug, Clone, Copy, PartialEq, Eq, Structural)]
pub enum RequestRedirect {
    Error,
    Follow,
    Manual,
}

impl Default for RequestRedirect {
    fn default() -> (r: Self)
        ensures
            r == RequestRedirect::Follow,
    {
        RequestRedirect::Follow
    }
}

impl RequestRedirect {
    pub open spec fn name(self) -> Seq<char> {
        match self {
            RequestRedirect::Error => "error"@,
            RequestRedirect::Follow => "follow"@,
            RequestRedirect::Manual => "manual"@,
        }
    }

    /// The name the Fetch API uses for the mode: `error`, `follow` or `manual`.
    pub fn as_str(self) -> (s: &'static str)
        ensures
            s@ == self.name(),
    {
        match self {
            RequestRedirect::Error => "error",
            RequestRedirect::Follow => "follow",
            RequestRedirect::Manual => "manual",
        }
    }
}

/// An HTTP protocol version, as the edge reports it for a request.
#[derive(Debug, Clone, Copy, PartialEq, Eq, Structural)]
pub enum Version {
    Http09,
    Http10,
    Http11,
    Http2,
    Http3,
}

impl Version {
    /// The protocol name the edge reports for the version, e.g. `HTTP/1.1`.
    pub open spec fn name(self) -> Seq<char> {
        match self {
            Version::Http09 => "HTTP/0.9"@,
            Version::Http10 => "HTTP/1.0"@,
            Version::Http11 => "HTTP/1.1"@,
            Version::Http2 => "HTTP/2"@,
            Version::Http3 => "HTTP/3"@,
        }
    }
}

/// Whether a protocol name is one the edge reports.
pub open spec fn is_version_name(s: Seq<char>) -> bool {
    exists|v: Version| v.name() == s
}

/// Whether `s` is one of the protocol names the edge reports.
pub fn is_version(s: &str) -> (b: bool)
    ensures
        b == is_version_name(s@),
{
    proof {
        reveal_strlit("HTTP/0.9");
        reveal_strlit("HTTP/1.0");
        reveal_strlit("HTTP/1.1");
        reveal_strlit("HTTP/2");
        reveal_strlit("HTTP/3");
    }
    let b = str_eq(s, "HTTP/0.9") || str_eq(s, "HTTP/1.0") || str_eq(s, "HTTP/1.1") || str_eq(
        s,
        "HTTP/2",
    ) || str_eq(s, "HTTP/3");
    proof {
        if b {
            if s@ == "HTTP/0.9"@ {
                assert(Version::Http09.name() == s@);
            } else if s@ == "HTTP/1.0"@ {
                assert(Version::Http10.name() == s@);
            } else if s@ == "HTTP/1.1"@ {
                assert(Version::Http11.name() == s@);
            } else if s@ == "HTTP/2"@ {
                assert(Version::Http2.name() == s@);
            } else {
                assert(Version::Http3.name() == s@);
            }
        } else {
            assert forall|v: Version| v.name() != s@ by {
                match v {
                    Version::Http09 => {},
                    Version::Http10 => {},
                    Version::Http11 => {},
                    Version::Http2 => {},
                    Version::Http3 => {},
                }
            }
        }
    }
    b
}

/// The version a protocol name such as `HTTP/2` stands for; the edge reports no
/// other names.
pub fn version_from_string(version: &str) -> (v: Version)
    requires
        is_version_name(version@),
    ensures
        v.name() == version@,
{
    let ghost w = choose|w: Version| w.name() == version@;
    proof {
        reveal_strlit("HTTP/0.9");
        reveal_strlit("HTTP/1.0");
        reveal_strlit("HTTP/1.1");
        reveal_strlit("HTTP/2");
        reveal_strlit("HTTP/3");
    }
    if str_eq(version, "HTTP/0.9") {
        Version::Http09
    } else if str_eq(version, "HTTP/1.0") {
        Version::Http10
    } else if str_eq(version, "HTTP/1.1") {
        Version::Http11
    } else if str_eq(version, "HTTP/2") {
        Version::Http2
    } else {
        assert(w == Version::Http3);
        Version::Http3
    }
}


} // verus!
