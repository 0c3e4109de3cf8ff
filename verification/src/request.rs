//! What the library knows of an inbound or outbound request.

use vstd::prelude::*;

use crate::cf::{opt_str_view, Cf};
use crate::cors::pair_views;
use crate::text::{str_eq, views};
use crate::error::Error;
use crate::method::Method;

verus! {

/// Whether the URL parser accepts `s` (`url::Url::parse` succeeds on it).
pub uninterp spec fn url_parses(s: Seq<char>) -> bool;

/// Calls `url::Url::parse`; it succeeds exactly on the strings it accepts.
#[verifier::external_body]
fn parse_url(s: &str) -> (r: Result<url::Url, url::ParseError>)
    ensures
        r is Ok <==> url_parses(s@),
{
    url::Url::parse(s)
}

/// The percent-encoded path of the URL `s` (`url::Url::path` of what
/// `url::Url::parse` makes of it), for a string the parser accepts.
pub uninterp spec fn url_path_of(s: Seq<char>) -> Seq<char>;

/// Calls `url::Url::parse` and, when it succeeds, `url::Url::path` on the URL:
/// the path exactly when the string parses.
#[verifier::external_body]
fn parsed_url_path(s: &str) -> (r: Option<String>)
    ensures
        r is Some <==> url_parses(s@),
        r matches Some(p) ==> p@ == url_path_of(s@),
{
    match url::Url::parse(s) {
        Ok(u) => Some(u.path().to_owned()),
        Err(_) => None,
    }
}

/// The path recorded for a request whose URL the parser rejects: the URL itself,
/// with a leading `/` added when it lacks one.
pub open spec fn fallback_path(url: Seq<char>) -> Seq<char> {
    if url.len() > 0 && url[0] == '/' {
        url
    } else {
        "/"@ + url
    }
}

/// The path of a request for `url`: the path of the parsed URL, or, when the URL
/// does not parse, the URL itself with a leading `/`.
pub fn request_path(url: &str) -> (p: String)
    ensures
        url_parses(url@) ==> p@ == url_path_of(url@),
        !url_parses(url@) ==> p@ == fallback_path(url@),
{
    match parsed_url_path(url) {
        Some(p) => p,
        None => {
            if url.unicode_len() > 0 && url.get_char(0) == '/' {
                url.to_owned()
            } else {
                let mut p = "/".to_owned();
                p.append(url);
                p
            }
        },
    }
}

/// How a request body is being read.
#[derive(Debug, Clone, Copy, PartialEq, Eq, Structural)]
pub enum BodyFormat {
    Json,
    Text,
    Bytes,
    FormData,
}

impl BodyFormat {
    /// The message reported when the runtime fails to read the body in this
    /// format and throws something that is no string.
    pub open spec fn failure_text(self) -> Seq<char> {
        match self {
            BodyFormat::Json => "failed to get JSON for body value"@,
            BodyFormat::Text => "failed to get text for body value"@,
            BodyFormat::Bytes => "failed to read array buffer from request"@,
            BodyFormat::FormData => "failed to get form data from request"@,
        }
    }

    pub fn failure_message(self) -> (s: &'static str)
        ensures
            s@ == self.failure_text(),
    {
        match self {
            BodyFormat::Json => "failed to get JSON for body value",
            BodyFormat::Text => "failed to get text for body value",
            BodyFormat::Bytes => "failed to read array buffer from request",
            BodyFormat::FormData => "failed to get form data from request",
        }
    }
}

/// The error for a value thrown by the runtime: the thrown text when it threw a
/// string, else the fallback message.
pub open spec fn thrown_text(thrown: Option<Seq<char>>, fallback: Seq<char>) -> Seq<char> {
    match thrown {
        Some(t) => t,
        None => fallback,
    }
}

/// The error for a failed read of a body in `format`; `thrown` is the text the
/// runtime threw, when it threw a string.
pub fn body_read_error(format: BodyFormat, thrown: Option<String>) -> (e: Error)
    ensures
        e matches Error::JsError(m) && m@ == thrown_text(opt_str_view(thrown), format.failure_text()),
{
    match thrown {
        Some(t) => Error::JsError(t),
        None => Error::JsError(format.failure_message().to_owned()),
    }
}

/// The error for a request the runtime refused to create, from a URL and a
/// method (`with_init` false) or from a URL and options (`with_init` true);
/// `thrown` is the text the runtime threw, when it threw a string.
pub fn request_creation_error(with_init: bool, thrown: Option<String>) -> (e: Error)
    ensures
        e matches Error::JsError(m) && m@ == thrown_text(
            opt_str_view(thrown),
            if with_init {
                "invalid URL or options for Request"@
            } else {
                "invalid URL or method for Request"@
            },
        ),
{
    match thrown {
        Some(t) => Error::JsError(t),
        None => {
            if with_init {
                Error::JsError("invalid URL or options for Request".to_owned())
            } else {
                Error::JsError("invalid URL or method for Request".to_owned())
            }
        },
    }
}

/// The values given to `key` in a list of query pairs, in order.
pub open spec fn values_of(pairs: Seq<(Seq<char>, Seq<char>)>, key: Seq<char>) -> Seq<Seq<char>>
    decreases pairs.len(),
{
    if pairs.len() == 0 {
        Seq::empty()
    } else {
        let rest = values_of(pairs.drop_last(), key);
        if pairs.last().0 == key {
            rest.push(pairs.last().1)
        } else {
            rest
        }
    }
}

/// The decoded pairs of the query of the URL `s` (`url::Url::query_pairs` of
/// what `url::Url::parse` makes of it), in order, for a string the parser accepts.
pub uninterp spec fn url_query_pairs(s: Seq<char>) -> Seq<(Seq<char>, Seq<char>)>;

/// Calls `url::Url::parse` and, when it succeeds, `url::Url::query_pairs` on the
/// URL, each pair copied into owned strings: the pairs exactly when the string
/// parses.
#[verifier::external_body]
fn parsed_query_pairs(s: &str) -> (r: Option<Vec<(String, String)>>)
    ensures
        r is Some <==> url_parses(s@),
        r matches Some(pairs) ==> pair_views(pairs@) == url_query_pairs(s@),
{
    match url::Url::parse(s) {
        Ok(u) => Some(u.query_pairs().map(|(k, v)| (k.into_owned(), v.into_owned())).collect()),
        Err(_) => None,
    }
}

/// Every value given to `key` among `pairs`, in the order they come.
pub fn param_values(pairs: &Vec<(String, String)>, key: &str) -> (v: Vec<String>)
    ensures
        views(v@) == values_of(pair_views(pairs@), key@),
{
    let mut v: Vec<String> = Vec::new();
    let mut i: usize = 0;
    while i < pairs.len()
        invariant
            i <= pairs.len(),
            views(v@) == values_of(pair_views(pairs@).take(i as int), key@),
        decreases pairs.len() - i,
    {
        let ghost all = pair_views(pairs@);
        assert(all.take(i + 1).drop_last() =~= all.take(i as int));
        if str_eq(pairs[i].0.as_str(), key) {
            v.push(pairs[i].1.clone());
            assert(views(v@) =~= values_of(all.take(i as int), key@).push(pairs@[i as int].1@));
        }
        i = i + 1;
    }
    assert(pair_views(pairs@).take(pairs.len() as int) =~= pair_views(pairs@));
    v
}

/// The first value given to `key` among `pairs`.
pub fn param(pairs: &Vec<(String, String)>, key: &str) -> (r: Option<String>)
    ensures
        values_of(pair_views(pairs@), key@).len() == 0 ==> r is None,
        values_of(pair_views(pairs@), key@).len() > 0 ==> (r matches Some(s) && s@ == values_of(
            pair_views(pairs@),
            key@,
        )[0]),
{
    let all = param_values(pairs, key);
    if all.len() > 0 {
        Some(all[0].clone())
    } else {
        None
    }
}

/// The first value of the query parameter `key` of the URL `url`; `None` when
/// the query gives `key` no value, or when `url` does not parse.
pub fn url_param(url: &str, key: &str) -> (r: Option<String>)
    ensures
        !url_parses(url@) ==> r is None,
        url_parses(url@) && values_of(url_query_pairs(url@), key@).len() == 0 ==> r is None,
        url_parses(url@) && values_of(url_query_pairs(url@), key@).len() > 0 ==> (r matches Some(
            s,
        ) && s@ == values_of(url_query_pairs(url@), key@)[0]),
{
    match parsed_query_pairs(url) {
        Some(pairs) => param(&pairs, key),
        None => None,
    }
}

/// Every value of the query parameter `key` of the URL `url`, in order; none
/// when `url` does not parse.
pub fn url_param_values(url: &str, key: &str) -> (v: Vec<String>)
    ensures
        url_parses(url@) ==> views(v@) == values_of(url_query_pairs(url@), key@),
        !url_parses(url@) ==> v@.len() == 0,
{
    match parsed_query_pairs(url) {
        Some(pairs) => param_values(&pairs, key),
        None => Vec::new(),
    }
}

/// A request as the library tracks it: its method, URL and path, the edge's
/// properties, and whether its body was read and whether it may be changed.
#[derive(Debug)]
pub struct Request {
    method: Method,
    url: String,
    path: String,
    cf: Option<Cf>,
    body_used: bool,
    immutable: bool,
}

/// The state of a request.
pub struct RequestView {
    pub method: Method,
    pub url: Seq<char>,
    pub path: Seq<char>,
    pub cf: Option<Cf>,
    pub body_used: bool,
    pub immutable: bool,
}

impl View for Request {
    type V = RequestView;

    closed spec fn view(&self) -> RequestView {
        RequestView {
            method: self.method,
            url: self.url@,
            path: self.path@,
            cf: self.cf,
            body_used: self.body_used,
            immutable: self.immutable,
        }
    }
}

impl Request {
    /// A request as the runtime hands it over: the method named by `method`
    /// (without regard to case), the path of `url`, and an unread body. Requests
    /// the runtime hands in are immutable; ones made from scratch or cloned are not.
    pub fn from_parts(url: &str, method: &str, cf: Option<Cf>, immutable: bool) -> (r: Request)
        ensures
            r@.method == Method::parsed(method@),
            r@.url == url@,
            url_parses(url@) ==> r@.path == url_path_of(url@),
            !url_parses(url@) ==> r@.path == fallback_path(url@),
            r@.cf == cf,
            !r@.body_used,
            r@.immutable == immutable,
    {
        Request {
            method: Method::from_name(method),
            url: url.to_owned(),
            path: request_path(url),
            cf,
            body_used: false,
            immutable,
        }
    }

    /// The HTTP method associated with this request.
    pub fn method(&self) -> (m: Method)
        ensures
            m == self@.method,
    {
        self.method
    }

    /// The URL path of this request.
    pub fn path(&self) -> (p: String)
        ensures
            p@ == self@.path,
    {
        self.path.clone()
    }

    /// The Cloudflare properties of the request; requests made by the user and
    /// not the runtime have none.
    pub fn cf(&self) -> (c: Option<&Cf>)
        ensures
            match c {
                Some(x) => self@.cf == Some(*x),
                None => self@.cf is None,
            },
    {
        self.cf.as_ref()
    }

    /// Whether the body was read already.
    pub fn body_used(&self) -> (b: bool)
        ensures
            b == self@.body_used,
    {
        self.body_used
    }

    /// Whether the request's headers and path may be changed.
    pub fn is_immutable(&self) -> (b: bool)
        ensures
            b == self@.immutable,
    {
        self.immutable
    }

    /// Claims the body for reading. The body can be read once: afterwards every
    /// claim fails with `BodyUsed`.
    pub fn take_body(&mut self) -> (r: Result<(), Error>)
        ensures
            (r is Ok, final(self)@) == claim_body(old(self)@),
            r matches Err(e) ==> e is BodyUsed,
    {
        if self.body_used {
            return Err(Error::BodyUsed);
        }
        self.body_used = true;
        Ok(())
    }

    /// Checks that the request's headers may be changed; they can be only if the
    /// request was created from scratch or cloned.
    pub fn check_headers_mutable(&self) -> (r: Result<(), Error>)
        ensures
            r is Ok <==> !self@.immutable,
            r matches Err(e) ==> (e matches Error::JsError(m) && m@
                == "Cannot get a mutable reference to an immutable headers object."@),
    {
        if self.immutable {
            return Err(
                Error::JsError(
                    "Cannot get a mutable reference to an immutable headers object.".to_owned(),
                ),
            );
        }
        Ok(())
    }

    /// A mutable reference to this request's path; it can be changed only if the
    /// request was created from scratch or cloned.
    pub fn path_mut(&mut self) -> (r: Result<&mut String, Error>)
        ensures
            r is Ok <==> !old(self)@.immutable,
            r matches Err(e) ==> (e matches Error::JsError(m) && m@
                == "Cannot get a mutable reference to an immutable path."@),
            r matches Ok(p) ==> p@ == old(self)@.path,
    {
        if self.immutable {
            return Err(
                Error::JsError("Cannot get a mutable reference to an immutable path.".to_owned()),
            );
        }
        Ok(&mut self.path)
    }

    /// The parsed URL of this request.
    pub fn url(&self) -> (r: Result<url::Url, Error>)
        ensures
            r is Ok <==> url_parses(self@.url),
            r matches Err(e) ==> (e matches Error::RustError(m) && exists|t: Seq<char>|
                m@ == "failed to parse Url from "@ + t + ": "@ + self@.url),
    {
        match parse_url(self.url.as_str()) {
            Ok(u) => Ok(u),
            Err(e) => {
                let mut m = "failed to parse Url from ".to_owned();
                let shown = crate::error::url_error_text(&e);
                m.append(shown.as_str());
                m.append(": ");
                m.append(self.url.as_str());
                assert(m@ == "failed to parse Url from "@ + shown@ + ": "@ + self@.url);
                Err(Error::RustError(m))
            },
        }
    }
}

/// One claim of a request's body: whether it succeeds, and the request after it.
pub open spec fn claim_body(v: RequestView) -> (bool, RequestView) {
    (!v.body_used, RequestView { body_used: true, ..v })
}

/// A body can be read at most once: whatever state a request is in, after one
/// claim every further claim fails, and claims change nothing but the mark that
/// the body was read.
pub proof fn lemma_body_read_once(v: RequestView)
    ensures
        !claim_body(claim_body(v).1).0,
        claim_body(claim_body(v).1).1 == claim_body(v).1,
        claim_body(v).1.method == v.method && claim_body(v).1.url == v.url && claim_body(v).1.path
            == v.path && claim_body(v).1.immutable == v.immutable,
{
}

} // verus!
