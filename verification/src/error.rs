//! The error type shared by every fallible operation of the library.

use http::header::{InvalidHeaderName, InvalidHeaderValue};
use http::status::InvalidStatusCode;
use http::Error as HttpError;
use js_sys::Error as JsError;
use serde_json::Error as JsonError;
use serde_urlencoded::de::Error as UrlencodedError;
use serde_wasm_bindgen::Error as WasmBindgenError;
use vstd::prelude::*;
use wasm_bindgen::JsValue;

use crate::js;
use crate::text::{decimal, decimal_string, join, join_strings, str_eq, views};

verus! {

/// Errors reported by a key-value namespace.
#[derive(Debug)]
pub enum KvError {
    /// A JavaScript value thrown by the namespace, kept as its debug rendering.
    JavaScript(String),
    /// A value could not be (de)serialized; holds the serializer's message.
    Serialization(String),
    /// The binding is no key-value namespace.
    InvalidKvStore(String),
}

/// All possible error variants that might be encountered while working with a Worker.
///
/// Errors that wrap an error of another library (`Io`, `Utf8Error`, `SerdeJsonError`,
/// `SerdeWasmBindgenError`, `RouteInsertError`, `Http`, `StatusCode`) hold that
/// error's message, which is also their source in the cause chain.
#[derive(Debug)]
#[non_exhaustive]
pub enum Error {
    BadEncoding,
    BodyUsed,
    Json((String, u16)),
    /// Error used for strings thrown from JS
    JsError(String),
    Http(String),
    Infallible,
    /// Error used for unknown JS values thrown from JS
    Internal(JsValue),
    Io(String),
    BindingError(String),
    RouteInsertError(String),
    RouteNoDataError,
    RustError(String),
    SerdeJsonError(String),
    SerdeWasmBindgenError(String),
    StatusCode(String),
    /// An error thrown by a D1 database.
    D1(crate::d1::D1Error),
    Utf8Error(String),
    TimezoneError,
    KvError(KvError),
    /// Email recipient is on the suppression list and cannot be delivered to.
    EmailRecipientSuppressed(String),
    /// Email recipient is not allowed for this sender (policy/restriction).
    EmailRecipientNotAllowed(String),
    /// Cloudflare rate limit exceeded.
    RateLimitExceeded(String),
    /// Cloudflare daily limit exceeded.
    DailyLimitExceeded(String),
    /// A backend Cloudflare service reported an internal error.
    InternalError(String),
    /// A JavaScript error that didn't match any structured variant.
    UnknownJsError {
        /// The original error value.
        original: JsValue,
        /// `name` read at conversion time.
        name: Option<String>,
        /// `message` read at conversion time.
        message: String,
        /// `code` read at conversion time.
        code: Option<String>,
        /// The converted `cause`.
        cause: Option<Box<Error>>,
    },
}

/// How many nested causes a conversion from JavaScript decodes at most.
pub const MAX_CAUSE_DEPTH: u32 = 16;

/// The separator between the entries of a rendered cause chain.
pub open spec fn chain_separator() -> Seq<char> {
    "\nCaused by:\n    "@
}

/// The code a coded error carries on the JavaScript side.
pub open spec fn code_of(e: Error) -> Option<Seq<char>> {
    match e {
        Error::EmailRecipientSuppressed(_) => Some("E_RECIPIENT_SUPPRESSED"@),
        Error::EmailRecipientNotAllowed(_) => Some("RCPT_NOT_ALLOWED"@),
        Error::RateLimitExceeded(_) => Some("E_RATE_LIMIT_EXCEEDED"@),
        Error::DailyLimitExceeded(_) => Some("E_DAILY_LIMIT_EXCEEDED"@),
        Error::InternalError(_) => Some("E_INTERNAL_SERVER_ERROR"@),
        _ => None,
    }
}

/// The message a coded error carries.
pub open spec fn coded_message(e: Error) -> Seq<char> {
    match e {
        Error::EmailRecipientSuppressed(m) => m@,
        Error::EmailRecipientNotAllowed(m) => m@,
        Error::RateLimitExceeded(m) => m@,
        Error::DailyLimitExceeded(m) => m@,
        Error::InternalError(m) => m@,
        _ => Seq::empty(),
    }
}

/// Whether `e` is the coded error that `code` and `message` denote.
pub open spec fn is_coded(code: Seq<char>, message: Seq<char>, e: Error) -> bool {
    if code == "E_RECIPIENT_SUPPRESSED"@ {
        e matches Error::EmailRecipientSuppressed(m) && m@ == message
    } else if code == "RCPT_NOT_ALLOWED"@ {
        e matches Error::EmailRecipientNotAllowed(m) && m@ == message
    } else if code == "E_RATE_LIMIT_EXCEEDED"@ {
        e matches Error::RateLimitExceeded(m) && m@ == message
    } else if code == "E_DAILY_LIMIT_EXCEEDED"@ {
        e matches Error::DailyLimitExceeded(m) && m@ == message
    } else if code == "E_INTERNAL_SERVER_ERROR"@ {
        e matches Error::InternalError(m) && m@ == message
    } else {
        false
    }
}

/// Whether `code` is one of the codes that select a coded variant.
pub open spec fn is_known_code(code: Seq<char>) -> bool {
    code == "E_RECIPIENT_SUPPRESSED"@ || code == "RCPT_NOT_ALLOWED"@ || code
        == "E_RATE_LIMIT_EXCEEDED"@ || code == "E_DAILY_LIMIT_EXCEEDED"@ || code
        == "E_INTERNAL_SERVER_ERROR"@
}

/// Whether `s` begins with `prefix`.
pub open spec fn starts_with(s: Seq<char>, prefix: Seq<char>) -> bool {
    s.len() >= prefix.len() && s.take(prefix.len() as int) == prefix
}

/// How many causes are nested below `e`.
pub open spec fn cause_depth(e: Error) -> nat
    decreases e,
{
    match e {
        Error::UnknownJsError { cause: Some(c), .. } => 1 + cause_depth(*c),
        _ => 0,
    }
}

impl Error {
    /// The text `Display` writes for the error. For `Internal` and `D1` it is the
    /// prefix before the JavaScript runtime's rendering of a value.
    pub open spec fn display(self) -> Seq<char> {
        match self {
            Error::BadEncoding => "content-type mismatch"@,
            Error::BodyUsed => "body has already been read"@,
            Error::Infallible => "infallible"@,
            Error::RouteNoDataError => "route has no corresponding shared data"@,
            Error::TimezoneError => "invalid timezone"@,
            Error::JsError(s) => s@,
            Error::RustError(s) => s@,
            Error::BindingError(name) => "no binding found for `"@ + name@ + "`"@,
            Error::Json((msg, status)) => msg@ + " (status: "@ + decimal(status as nat) + ")"@,
            Error::Io(_) => "I/O error"@,
            Error::Utf8Error(_) => "UTF-8 decoding error"@,
            Error::SerdeJsonError(_) => "JSON serialization error"@,
            Error::SerdeWasmBindgenError(_) => "wasm-bindgen serialization error"@,
            Error::RouteInsertError(_) => "failed to insert route"@,
            Error::Http(_) => "HTTP error"@,
            Error::StatusCode(_) => "invalid HTTP status code"@,
            Error::D1(_) => "D1: "@ + crate::d1::debug_prefix(),
            Error::KvError(KvError::JavaScript(s)) => "js error: "@ + s@,
            Error::KvError(KvError::Serialization(s)) => "unable to serialize/deserialize: "@ + s@,
            Error::KvError(KvError::InvalidKvStore(s)) => "invalid kv store: "@ + s@,
            Error::Internal(_) => "unrecognized JavaScript value: "@,
            Error::EmailRecipientSuppressed(m) => "EmailRecipientSuppressed: "@ + m@,
            Error::EmailRecipientNotAllowed(m) => "EmailRecipientNotAllowed: "@ + m@,
            Error::RateLimitExceeded(m) => "RateLimitExceeded: "@ + m@,
            Error::DailyLimitExceeded(m) => "DailyLimitExceeded: "@ + m@,
            Error::InternalError(m) => "InternalError: "@ + m@,
            Error::UnknownJsError { name, message, code, .. } => {
                let prefix = match name {
                    Some(n) => n@,
                    None => "Error"@,
                };
                match code {
                    Some(c) => prefix + " ["@ + c@ + "]: "@ + message@,
                    None => prefix + ": "@ + message@,
                }
            },
        }
    }

    /// The texts of the error and of each of its sources, outermost first.
    pub open spec fn chain_texts(self) -> Seq<Seq<char>>
        decreases self,
    {
        seq![self.display()] + match self {
            Error::Io(s) => seq![s@],
            Error::Utf8Error(s) => seq![s@],
            Error::SerdeJsonError(s) => seq![s@],
            Error::SerdeWasmBindgenError(s) => seq![s@],
            Error::RouteInsertError(s) => seq![s@],
            Error::Http(s) => seq![s@],
            Error::StatusCode(s) => seq![s@],
            Error::UnknownJsError { cause: Some(c), .. } => (*c).chain_texts(),
            _ => Seq::empty(),
        }
    }

    /// Whether no error in the chain is an `Internal` or `D1` one, whose text the
    /// JavaScript runtime supplies.
    pub open spec fn chain_known(self) -> bool
        decreases self,
    {
        match self {
            Error::Internal(_) => false,
            Error::D1(_) => false,
            Error::UnknownJsError { cause: Some(c), .. } => (*c).chain_known(),
            _ => true,
        }
    }

    /// Renders the error, as `Display` does.
    pub fn to_string(&self) -> (s: String)
        ensures
            !(self is Internal || self is D1) ==> s@ == self.display(),
            (self is Internal || self is D1) ==> s@.len() >= self.display().len() && s@.take(
                self.display().len() as int,
            ) == self.display(),
    {
        match self {
            Error::BadEncoding => "content-type mismatch".to_owned(),
            Error::BodyUsed => "body has already been read".to_owned(),
            Error::Infallible => "infallible".to_owned(),
            Error::RouteNoDataError => "route has no corresponding shared data".to_owned(),
            Error::TimezoneError => "invalid timezone".to_owned(),
            Error::JsError(s) => s.clone(),
            Error::RustError(s) => s.clone(),
            Error::BindingError(name) => {
                let mut s = "no binding found for `".to_owned();
                s.append(name.as_str());
                s.append("`");
                s
            },
            Error::Json((msg, status)) => {
                let mut s = msg.clone();
                s.append(" (status: ");
                s.append(decimal_string(*status as u64).as_str());
                s.append(")");
                s
            },
            Error::Io(_) => "I/O error".to_owned(),
            Error::Utf8Error(_) => "UTF-8 decoding error".to_owned(),
            Error::SerdeJsonError(_) => "JSON serialization error".to_owned(),
            Error::SerdeWasmBindgenError(_) => "wasm-bindgen serialization error".to_owned(),
            Error::RouteInsertError(_) => "failed to insert route".to_owned(),
            Error::Http(_) => "HTTP error".to_owned(),
            Error::StatusCode(_) => "invalid HTTP status code".to_owned(),
            Error::D1(e) => {
                let shown = e.debug_text();
                let s = prefixed("D1: ", &shown);
                proof {
                    let p = crate::d1::debug_prefix();
                    assert(s@.take(("D1: "@ + p).len() as int) =~= "D1: "@ + p);
                }
                s
            },
            Error::KvError(KvError::JavaScript(s)) => prefixed("js error: ", s),
            Error::KvError(KvError::Serialization(s)) => prefixed(
                "unable to serialize/deserialize: ",
                s,
            ),
            Error::KvError(KvError::InvalidKvStore(s)) => prefixed("invalid kv store: ", s),
            Error::Internal(v) => {
                let mut s = "unrecognized JavaScript value: ".to_owned();
                let shown = js::value_debug(v);
                s.append(shown.as_str());
                s
            },
            Error::EmailRecipientSuppressed(m) => prefixed("EmailRecipientSuppressed: ", m),
            Error::EmailRecipientNotAllowed(m) => prefixed("EmailRecipientNotAllowed: ", m),
            Error::RateLimitExceeded(m) => prefixed("RateLimitExceeded: ", m),
            Error::DailyLimitExceeded(m) => prefixed("DailyLimitExceeded: ", m),
            Error::InternalError(m) => prefixed("InternalError: ", m),
            Error::UnknownJsError { name, message, code, .. } => {
                let mut s = match name {
                    Some(n) => n.clone(),
                    None => "Error".to_owned(),
                };
                match code {
                    Some(c) => {
                        s.append(" [");
                        s.append(c.as_str());
                        s.append("]: ");
                    },
                    None => {
                        s.append(": ");
                    },
                }
                s.append(message.as_str());
                s
            },
        }
    }

    /// The texts of the error and of each of its sources, outermost first.
    pub fn chain(&self) -> (v: Vec<String>)
        ensures
            self.chain_known() ==> views(v@) == self.chain_texts(),
            v@.len() == self.chain_texts().len(),
            forall|i: int|
                0 <= i < v@.len() ==> starts_with(#[trigger] v@[i]@, self.chain_texts()[i]),
        decreases self,
    {
        let mut v: Vec<String> = Vec::new();
        v.push(self.to_string());
        let ghost first = v@;
        match self {
            Error::Io(s) | Error::Utf8Error(s) | Error::SerdeJsonError(s)
            | Error::SerdeWasmBindgenError(s) | Error::RouteInsertError(s) | Error::Http(s)
            | Error::StatusCode(s) => {
                v.push(s.clone());
                proof {
                    assert(self.chain_texts()[1] == s@);
                    assert(s@.take(s@.len() as int) =~= s@);
                }
            },
            Error::UnknownJsError { cause: Some(c), .. } => {
                let mut rest = c.chain();
                let ghost rest_view = rest@;
                v.append(&mut rest);
                proof {
                    assert(v@ =~= first + rest_view);
                    assert(views(v@) =~= views(first) + views(rest_view));
                    assert forall|i: int| 1 <= i < v@.len() implies starts_with(
                        #[trigger] v@[i]@,
                        self.chain_texts()[i],
                    ) by {
                        assert(v@[i] == rest_view[i - 1]);
                        assert(self.chain_texts()[i] == (**c).chain_texts()[i - 1]);
                    }
                }
            },
            _ => {},
        }
        proof {
            let t = v@[0]@;
            assert(self.chain_texts()[0] == self.display());
            assert(t.take(t.len() as int) =~= t);
            assert(starts_with(t, self.chain_texts()[0]));
            if self.chain_known() {
                assert(views(v@) =~= self.chain_texts());
            }
        }
        v
    }

    /// The code under which a coded error travels to JavaScript, if it is one.
    pub fn js_code(&self) -> (c: Option<&'static str>)
        ensures
            match c {
                Some(c) => code_of(*self) == Some(c@),
                None => code_of(*self) is None,
            },
    {
        match self {
            Error::EmailRecipientSuppressed(_) => Some("E_RECIPIENT_SUPPRESSED"),
            Error::EmailRecipientNotAllowed(_) => Some("RCPT_NOT_ALLOWED"),
            Error::RateLimitExceeded(_) => Some("E_RATE_LIMIT_EXCEEDED"),
            Error::DailyLimitExceeded(_) => Some("E_DAILY_LIMIT_EXCEEDED"),
            Error::InternalError(_) => Some("E_INTERNAL_SERVER_ERROR"),
            _ => None,
        }
    }
}

fn prefixed(prefix: &str, rest: &String) -> (s: String)
    ensures
        s@ == prefix@ + rest@,
{
    let mut s = prefix.to_owned();
    s.append(rest.as_str());
    s
}

/// The coded variant that the known code `code` selects, carrying `message`.
pub open spec fn coded_variant(code: Seq<char>, message: String) -> Error {
    if code == "E_RECIPIENT_SUPPRESSED"@ {
        Error::EmailRecipientSuppressed(message)
    } else if code == "RCPT_NOT_ALLOWED"@ {
        Error::EmailRecipientNotAllowed(message)
    } else if code == "E_RATE_LIMIT_EXCEEDED"@ {
        Error::RateLimitExceeded(message)
    } else if code == "E_DAILY_LIMIT_EXCEEDED"@ {
        Error::DailyLimitExceeded(message)
    } else {
        Error::InternalError(message)
    }
}

/// The error that a JavaScript `Error` object with these parts denotes: a known
/// code selects its coded variant, carrying the message; any other object is an
/// `UnknownJsError` holding the object and every part.
pub open spec fn js_parts_error(
    original: JsValue,
    name: Option<String>,
    message: String,
    code: Option<String>,
    cause: Option<Error>,
) -> Error {
    if code is Some && is_known_code(code->0@) {
        coded_variant(code->0@, message)
    } else {
        Error::UnknownJsError {
            original,
            name,
            message,
            code,
            cause: match cause {
                Some(c) => Some(Box::new(c)),
                None => None,
            },
        }
    }
}

/// The coded error that `code` selects for `message`; the message back when
/// `code` selects none.
fn coded_error(code: &Option<String>, message: String) -> (r: Result<Error, String>)
    ensures
        match r {
            Ok(e) => code is Some && is_known_code(code->0@) && e == coded_variant(code->0@, message),
            Err(m) => m == message && !(code is Some && is_known_code(code->0@)),
        },
{
    match code {
        Some(c) => {
            let c = c.as_str();
            if str_eq(c, "E_RECIPIENT_SUPPRESSED") {
                Ok(Error::EmailRecipientSuppressed(message))
            } else if str_eq(c, "RCPT_NOT_ALLOWED") {
                Ok(Error::EmailRecipientNotAllowed(message))
            } else if str_eq(c, "E_RATE_LIMIT_EXCEEDED") {
                Ok(Error::RateLimitExceeded(message))
            } else if str_eq(c, "E_DAILY_LIMIT_EXCEEDED") {
                Ok(Error::DailyLimitExceeded(message))
            } else if str_eq(c, "E_INTERNAL_SERVER_ERROR") {
                Ok(Error::InternalError(message))
            } else {
                Err(message)
            }
        },
        None => Err(message),
    }
}


impl Error {
    /// The error that a JavaScript `Error` object denotes, from what was read of
    /// it: a known `code` selects the matching coded variant (the cause is then
    /// not kept); any other object becomes `UnknownJsError` holding all parts.
    pub fn from_js_parts(
        original: JsValue,
        name: Option<String>,
        message: String,
        code: Option<String>,
        cause: Option<Error>,
    ) -> (e: Error)
        ensures
            e == js_parts_error(original, name, message, code, cause),
    {
        match coded_error(&code, message) {
            Ok(e) => e,
            Err(message) => {
                let cause = match cause {
                    Some(c) => Some(Box::new(c)),
                    None => None,
                };
                Error::UnknownJsError { original, name, message, code, cause }
            },
        }
    }

    /// The parts of the JavaScript value for the error: the original value for
    /// errors that came from JavaScript, the text for `JsError`, the message and
    /// code for coded errors, and otherwise the rendered cause chain as the
    /// message of an `Error` object.
    pub fn js_form(&self) -> (f: JsForm<'_>)
        ensures
            self matches Error::UnknownJsError { original, .. } ==> (f matches JsForm::Original(
                v,
            ) && *v == original),
            self matches Error::Internal(x) ==> (f matches JsForm::Original(v) && *v == x),
            self matches Error::JsError(s) ==> (f matches JsForm::Text(t) && t@ == s@),
            code_of(*self) is Some ==> (f matches JsForm::Coded(m, c) && m@ == coded_message(*self)
                && Some(c@) == code_of(*self)),
            plain_js_error(*self) ==> (f matches JsForm::Message(m) && (self.chain_known() ==> m@
                == join(self.chain_texts(), chain_separator()))),
    {
        match self {
            Error::UnknownJsError { original, .. } => JsForm::Original(original),
            Error::Internal(v) => JsForm::Original(v),
            Error::JsError(s) => JsForm::Text(s.clone()),
            Error::EmailRecipientSuppressed(m) => JsForm::Coded(m.clone(), "E_RECIPIENT_SUPPRESSED"),
            Error::EmailRecipientNotAllowed(m) => JsForm::Coded(m.clone(), "RCPT_NOT_ALLOWED"),
            Error::RateLimitExceeded(m) => JsForm::Coded(m.clone(), "E_RATE_LIMIT_EXCEEDED"),
            Error::DailyLimitExceeded(m) => JsForm::Coded(m.clone(), "E_DAILY_LIMIT_EXCEEDED"),
            Error::InternalError(m) => JsForm::Coded(m.clone(), "E_INTERNAL_SERVER_ERROR"),
            other => JsForm::Message(format_with_chain(other)),
        }
    }

    /// A JavaScript value for the error, made of the parts `js_form` gives: the
    /// original value handed back, a JavaScript string, an `Error` object with
    /// the message and a `code` property, or an `Error` object with the message.
    pub fn to_js_value(&self) -> JsValue {
        match self.js_form() {
            JsForm::Original(v) => js::value_clone(v),
            JsForm::Text(s) => js::value_from_str(s.as_str()),
            JsForm::Coded(m, code) => build_coded_error(&m, code, Ghost(*self)),
            JsForm::Message(m) => js::error_new(m.as_str()),
        }
    }
}

/// What a JavaScript value for an error is made of.
#[derive(Debug)]
pub enum JsForm<'a> {
    /// The JavaScript value the error came from, handed back.
    Original(&'a JsValue),
    /// A JavaScript string holding the text.
    Text(String),
    /// A JavaScript `Error` object with this message and this `code` property.
    Coded(String, &'static str),
    /// A JavaScript `Error` object with this message.
    Message(String),
}

/// Whether the JavaScript value for `e` is a plain `Error` object carrying the
/// rendered chain: `e` came from no JavaScript value, is no `JsError` and
/// carries no code.
pub open spec fn plain_js_error(e: Error) -> bool {
    !(e is UnknownJsError) && !(e is Internal) && !(e is JsError) && code_of(e) is None
}

/// A JavaScript `Error` object for the coded error `e`: its message is the
/// error's message and its `code` property the error's code.
fn build_coded_error(message: &String, code: &str, Ghost(e): Ghost<Error>) -> JsValue
    requires
        code_of(e) == Some(code@),
        message@ == coded_message(e),
{
    let err = js::error_new(message.as_str());
    js::error_set_code(&err, code);
    err
}

/// Whether `e` has the form that decoding some JavaScript value gives: a
/// `JsError` or `Internal`, a coded variant, or an `UnknownJsError` whose code is
/// none of the known codes and whose cause, if kept, has that form too.
pub open spec fn decoded_shape(e: Error) -> bool
    decreases e,
{
    match e {
        Error::JsError(_) => true,
        Error::Internal(_) => true,
        Error::UnknownJsError { code, cause, .. } => !(code is Some && is_known_code(code->0@))
            && match cause {
            Some(c) => decoded_shape(*c),
            None => true,
        },
        _ => code_of(e) is Some,
    }
}

/// Whether `e` is what decoding the JavaScript value `v` can give: of the
/// decoded form, and keeping `v` itself where it keeps a value.
pub open spec fn decoded_value(v: JsValue, e: Error) -> bool {
    &&& decoded_shape(e)
    &&& e matches Error::Internal(x) ==> x == v
    &&& e matches Error::UnknownJsError { original, .. } ==> original == v
}

/// Whether `e` is what decoding the JavaScript `Error` object `v` can give: a
/// coded variant, or an `UnknownJsError` keeping `v`.
pub open spec fn decoded_error_object(v: JsValue, e: Error) -> bool {
    decoded_value(v, e) && !(e is JsError) && !(e is Internal)
}

/// The `code` property of an error object, when it is a string; a lookup that
/// throws counts as no code.
fn read_code(err: &JsValue) -> Option<String> {
    js::string_property(err, "code")
}

/// Whether `code` is one of the codes that select a coded variant.
fn known_code(code: &Option<String>) -> (b: bool)
    ensures
        b == (code is Some && is_known_code(code->0@)),
{
    match code {
        Some(c) => {
            let c = c.as_str();
            str_eq(c, "E_RECIPIENT_SUPPRESSED") || str_eq(c, "RCPT_NOT_ALLOWED") || str_eq(
                c,
                "E_RATE_LIMIT_EXCEEDED",
            ) || str_eq(c, "E_DAILY_LIMIT_EXCEEDED") || str_eq(c, "E_INTERNAL_SERVER_ERROR")
        },
        None => false,
    }
}

/// Whether `e` is what decoding the JavaScript value `v` gives, given whether
/// it is an `Error` object and, for any other value, its text if it is a
/// string: an `Error` object gives the error its parts denote
/// (`js_parts_error`), a string gives `JsError`, and anything else `Internal`.
pub open spec fn js_value_error(v: JsValue, is_error: bool, text: Option<String>, e: Error) -> bool {
    if is_error {
        exists|n: Option<String>, m: String, c: Option<String>, k: Option<Error>|
            e == #[trigger] js_parts_error(v, n, m, c, k)
    } else {
        match text {
            Some(t) => e == Error::JsError(t),
            None => e == Error::Internal(v),
        }
    }
}

/// Decodes a JavaScript `Error` object from its parts: its message (empty when
/// it is no string, as for an error made without one), its name and code when
/// they are strings, and, unless the code selects a coded variant, its cause
/// with one less hop available.
fn convert_js_error_with_depth(err: JsValue, depth: u32) -> (e: Error)
    ensures
        cause_depth(e) <= depth,
        decoded_error_object(err, e),
        js_value_error(err, true, None, e),
    decreases depth, 1int,
{
    let message = match js::string_property(&err, "message") {
        Some(m) => m,
        None => String::new(),
    };
    let name = js::string_property(&err, "name");
    let code = read_code(&err);
    let cause: Option<Error> = if known_code(&code) {
        None
    } else {
        match js::property(&err, "cause") {
            Ok(c) => match convert_js_cause(c, depth) {
                Some(b) => Some(*b),
                None => None,
            },
            Err(_) => None,
        }
    };
    let ghost (n, m, c, k) = (name, message, code, cause);
    let e = Error::from_js_parts(err, name, message, code, cause);
    assert(e == js_parts_error(err, n, m, c, k));
    e
}

/// Classifies a JavaScript value from what was found out about it: whether it is
/// an `Error` object and, if not, its text when it is a string.
fn classify(v: JsValue, is_error: bool, text: Option<String>, depth: u32) -> (e: Error)
    ensures
        js_value_error(v, is_error, text, e),
        cause_depth(e) <= depth,
        decoded_value(v, e),
    decreases depth, 2int,
{
    if is_error {
        convert_js_error_with_depth(v, depth)
    } else {
        match text {
            Some(t) => Error::JsError(t),
            None => Error::Internal(v),
        }
    }
}

/// Classifies an arbitrary JavaScript value, decoding nested causes with one
/// less hop available each.
fn from_js_value_with_depth(v: JsValue, depth: u32) -> (e: Error)
    ensures
        cause_depth(e) <= depth,
        decoded_value(v, e),
        exists|b: bool, t: Option<String>| js_value_error(v, b, t, e),
    decreases depth, 3int,
{
    let is_error = js::value_is_error(&v);
    let text = if is_error {
        None
    } else {
        js::value_as_string(&v)
    };
    let ghost (b, t) = (is_error, text);
    let e = classify(v, is_error, text, depth);
    assert(js_value_error(v, b, t, e));
    e
}

fn convert_js_cause(cause: JsValue, depth: u32) -> (c: Option<Box<Error>>)
    ensures
        depth == 0 ==> c is None,
        c matches Some(e) ==> depth > 0 && cause_depth(*e) < depth && decoded_value(cause, *e),
    decreases depth, 0int,
{
    if js::value_is_null_or_undefined(&cause) || depth == 0 {
        return None;
    }
    Some(Box::new(from_js_value_with_depth(cause, depth - 1)))
}

impl From<JsValue> for Error {
    /// Strings thrown from JavaScript become `JsError`, `Error` objects are
    /// decoded with up to `MAX_CAUSE_DEPTH` nested causes, and any other value
    /// becomes `Internal`.
    fn from(v: JsValue) -> (e: Error)
        ensures
            cause_depth(e) <= MAX_CAUSE_DEPTH,
            decoded_value(v, e),
            exists|b: bool, t: Option<String>| js_value_error(v, b, t, e),
    {
        from_js_value_with_depth(v, MAX_CAUSE_DEPTH)
    }
}

impl vstd::std_specs::convert::FromSpecImpl<JsValue> for Error {
    /// What comes out depends on the JavaScript object behind the handle.
    open spec fn obeys_from_spec() -> bool {
        false
    }

    open spec fn from_spec(v: JsValue) -> Error {
        vstd::pervasive::arbitrary()
    }
}

impl From<Error> for JsValue {
    fn from(e: Error) -> JsValue {
        match e {
            Error::UnknownJsError { original, .. } => original,
            Error::Internal(v) => v,
            other => other.to_js_value(),
        }
    }
}

impl vstd::std_specs::convert::FromSpecImpl<Error> for JsValue {
    /// A fresh JavaScript value has no description in terms of the error.
    open spec fn obeys_from_spec() -> bool {
        false
    }

    open spec fn from_spec(e: Error) -> JsValue {
        vstd::pervasive::arbitrary()
    }
}

impl<'a> From<&'a str> for Error {
    fn from(a: &'a str) -> (e: Error)
        ensures
            e matches Error::RustError(s) && s@ == a@,
    {
        Error::RustError(a.to_owned())
    }
}

impl<'a> vstd::std_specs::convert::FromSpecImpl<&'a str> for Error {
    /// The owned copy of the text is described by its contents only.
    open spec fn obeys_from_spec() -> bool {
        false
    }

    open spec fn from_spec(a: &'a str) -> Error {
        vstd::pervasive::arbitrary()
    }
}

impl From<String> for Error {
    fn from(a: String) -> (e: Error)
        ensures
            e == Error::RustError(a),
    {
        Error::RustError(a)
    }
}

impl vstd::std_specs::convert::FromSpecImpl<String> for Error {
    open spec fn obeys_from_spec() -> bool {
        true
    }

    open spec fn from_spec(a: String) -> Error {
        Error::RustError(a)
    }
}

impl From<KvError> for Error {
    fn from(e: KvError) -> (r: Error)
        ensures
            r == Error::KvError(e),
    {
        Error::KvError(e)
    }
}

impl vstd::std_specs::convert::FromSpecImpl<KvError> for Error {
    open spec fn obeys_from_spec() -> bool {
        true
    }

    open spec fn from_spec(e: KvError) -> Error {
        Error::KvError(e)
    }
}

impl vstd::std_specs::convert::FromSpecImpl<std::io::Error> for Error {
    /// The message is the rendering of the I/O error, which is not described here.
    open spec fn obeys_from_spec() -> bool {
        false
    }

    open spec fn from_spec(e: std::io::Error) -> Error {
        vstd::pervasive::arbitrary()
    }
}

impl From<std::io::Error> for Error {
    fn from(e: std::io::Error) -> (r: Error)
        ensures
            r is Io,
    {
        Error::Io(e.to_string())
    }
}

impl From<std::str::Utf8Error> for Error {
    fn from(e: std::str::Utf8Error) -> (r: Error)
        ensures
            r is Utf8Error,
    {
        Error::Utf8Error(e.to_string())
    }
}

impl vstd::std_specs::convert::FromSpecImpl<std::str::Utf8Error> for Error {
    /// The message is the rendering of the decoding error, which is not described here.
    open spec fn obeys_from_spec() -> bool {
        false
    }

    open spec fn from_spec(e: std::str::Utf8Error) -> Error {
        vstd::pervasive::arbitrary()
    }
}

impl vstd::std_specs::convert::FromSpecImpl<core::convert::Infallible> for Error {
    open spec fn obeys_from_spec() -> bool {
        true
    }

    open spec fn from_spec(v: core::convert::Infallible) -> Error {
        Error::Infallible
    }
}

impl From<core::convert::Infallible> for Error {
    fn from(_value: core::convert::Infallible) -> (r: Error)
        ensures
            r is Infallible,
    {
        Error::Infallible
    }
}

/// Calls `JsValue::from` on a JavaScript `Error`: the same object as a value.
#[verifier::external_body]
fn js_error_value(e: JsError) -> JsValue {
    JsValue::from(e)
}

impl From<JsError> for Error {
    /// A JavaScript `Error` object, decoded with up to `MAX_CAUSE_DEPTH` nested
    /// causes.
    fn from(e: JsError) -> (r: Error)
        ensures
            cause_depth(r) <= MAX_CAUSE_DEPTH,
            decoded_shape(r),
            !(r is JsError) && !(r is Internal),
            exists|w: JsValue| js_value_error(w, true, None, r),
    {
        let v = js_error_value(e);
        let ghost w = v;
        let r = convert_js_error_with_depth(v, MAX_CAUSE_DEPTH);
        assert(js_value_error(w, true, None, r));
        r
    }
}

impl vstd::std_specs::convert::FromSpecImpl<JsError> for Error {
    /// What comes out depends on the JavaScript object behind the handle.
    open spec fn obeys_from_spec() -> bool {
        false
    }

    open spec fn from_spec(e: JsError) -> Error {
        vstd::pervasive::arbitrary()
    }
}

/// Calls `<http::Error as Display>::fmt`: the description of the failed
/// request or response construction.
#[verifier::external_body]
fn http_error_text(e: &HttpError) -> String {
    e.to_string()
}

impl From<HttpError> for Error {
    fn from(e: HttpError) -> (r: Error)
        ensures
            r is Http,
    {
        Error::Http(http_error_text(&e))
    }
}

impl vstd::std_specs::convert::FromSpecImpl<HttpError> for Error {
    /// The message is the rendering of the error, which is not described here.
    open spec fn obeys_from_spec() -> bool {
        false
    }

    open spec fn from_spec(e: HttpError) -> Error {
        vstd::pervasive::arbitrary()
    }
}

/// Calls `<InvalidStatusCode as Display>::fmt`, which writes a fixed text.
#[verifier::external_body]
fn status_code_error_text(e: &InvalidStatusCode) -> (s: String)
    ensures
        s@ == "invalid status code"@,
{
    e.to_string()
}

impl From<InvalidStatusCode> for Error {
    fn from(e: InvalidStatusCode) -> (r: Error)
        ensures
            r matches Error::StatusCode(m) && m@ == "invalid status code"@,
    {
        Error::StatusCode(status_code_error_text(&e))
    }
}

impl vstd::std_specs::convert::FromSpecImpl<InvalidStatusCode> for Error {
    /// The message is an owned string, described by its contents only.
    open spec fn obeys_from_spec() -> bool {
        false
    }

    open spec fn from_spec(e: InvalidStatusCode) -> Error {
        vstd::pervasive::arbitrary()
    }
}

/// Calls `<InvalidHeaderName as Debug>::fmt`, which writes the type's name.
#[verifier::external_body]
fn header_name_error_debug(e: &InvalidHeaderName) -> (s: String)
    ensures
        s@ == "InvalidHeaderName"@,
{
    format!("{e:?}")
}

impl From<InvalidHeaderName> for Error {
    fn from(e: InvalidHeaderName) -> (r: Error)
        ensures
            r matches Error::RustError(m) && m@ == "Invalid header name: InvalidHeaderName"@,
    {
        let shown = header_name_error_debug(&e);
        let m = prefixed("Invalid header name: ", &shown);
        proof {
            reveal_strlit("Invalid header name: InvalidHeaderName");
            reveal_strlit("Invalid header name: ");
            reveal_strlit("InvalidHeaderName");
            assert(m@ =~= "Invalid header name: InvalidHeaderName"@);
        }
        Error::RustError(m)
    }
}

impl vstd::std_specs::convert::FromSpecImpl<InvalidHeaderName> for Error {
    /// The message is an owned string, described by its contents only.
    open spec fn obeys_from_spec() -> bool {
        false
    }

    open spec fn from_spec(e: InvalidHeaderName) -> Error {
        vstd::pervasive::arbitrary()
    }
}

/// Calls `<InvalidHeaderValue as Debug>::fmt`, which writes the type's name.
#[verifier::external_body]
fn header_value_error_debug(e: &InvalidHeaderValue) -> (s: String)
    ensures
        s@ == "InvalidHeaderValue"@,
{
    format!("{e:?}")
}

impl From<InvalidHeaderValue> for Error {
    fn from(e: InvalidHeaderValue) -> (r: Error)
        ensures
            r matches Error::RustError(m) && m@ == "Invalid header value: InvalidHeaderValue"@,
    {
        let shown = header_value_error_debug(&e);
        let m = prefixed("Invalid header value: ", &shown);
        proof {
            reveal_strlit("Invalid header value: InvalidHeaderValue");
            reveal_strlit("Invalid header value: ");
            reveal_strlit("InvalidHeaderValue");
            assert(m@ =~= "Invalid header value: InvalidHeaderValue"@);
        }
        Error::RustError(m)
    }
}

impl vstd::std_specs::convert::FromSpecImpl<InvalidHeaderValue> for Error {
    /// The message is an owned string, described by its contents only.
    open spec fn obeys_from_spec() -> bool {
        false
    }

    open spec fn from_spec(e: InvalidHeaderValue) -> Error {
        vstd::pervasive::arbitrary()
    }
}

impl From<chrono_tz::ParseError> for Error {
    fn from(_value: chrono_tz::ParseError) -> (r: Error)
        ensures
            r matches Error::RustError(m) && m@ == "Invalid timezone"@,
    {
        Error::RustError("Invalid timezone".to_owned())
    }
}

impl vstd::std_specs::convert::FromSpecImpl<chrono_tz::ParseError> for Error {
    /// The message is an owned string, described by its contents only.
    open spec fn obeys_from_spec() -> bool {
        false
    }

    open spec fn from_spec(e: chrono_tz::ParseError) -> Error {
        vstd::pervasive::arbitrary()
    }
}

/// Calls `<url::ParseError as Display>::fmt`: the parser's description of the
/// failure.
#[verifier::external_body]
pub(crate) fn url_error_text(e: &url::ParseError) -> String {
    e.to_string()
}

impl From<url::ParseError> for Error {
    fn from(e: url::ParseError) -> (r: Error)
        ensures
            r is RustError,
    {
        Error::RustError(url_error_text(&e))
    }
}

impl vstd::std_specs::convert::FromSpecImpl<url::ParseError> for Error {
    /// The message is the rendering of the error, which is not described here.
    open spec fn obeys_from_spec() -> bool {
        false
    }

    open spec fn from_spec(e: url::ParseError) -> Error {
        vstd::pervasive::arbitrary()
    }
}

/// Calls `<serde_urlencoded::de::Error as Display>::fmt`: the description of
/// the failed decoding.
#[verifier::external_body]
fn urlencoded_error_text(e: &UrlencodedError) -> String {
    e.to_string()
}

impl From<UrlencodedError> for Error {
    fn from(e: UrlencodedError) -> (r: Error)
        ensures
            r is RustError,
    {
        Error::RustError(urlencoded_error_text(&e))
    }
}

impl vstd::std_specs::convert::FromSpecImpl<UrlencodedError> for Error {
    /// The message is the rendering of the error, which is not described here.
    open spec fn obeys_from_spec() -> bool {
        false
    }

    open spec fn from_spec(e: UrlencodedError) -> Error {
        vstd::pervasive::arbitrary()
    }
}

/// Calls `<JsValue as From<serde_wasm_bindgen::Error>>::from`: the JavaScript
/// error that the serializer's error stands for.
#[verifier::external_body]
fn wasm_bindgen_error_value(e: WasmBindgenError) -> JsValue {
    JsValue::from(e)
}

impl From<WasmBindgenError> for Error {
    /// The serializer's error is turned into its JavaScript value, which is then
    /// converted as any thrown value is.
    fn from(e: WasmBindgenError) -> (r: Error)
        ensures
            cause_depth(r) <= MAX_CAUSE_DEPTH,
            decoded_shape(r),
            exists|w: JsValue, b: bool, t: Option<String>| js_value_error(w, b, t, r),
    {
        let v = wasm_bindgen_error_value(e);
        let ghost w = v;
        let r = from_js_value_with_depth(v, MAX_CAUSE_DEPTH);
        assert(exists|b: bool, t: Option<String>| js_value_error(w, b, t, r));
        r
    }
}

impl vstd::std_specs::convert::FromSpecImpl<WasmBindgenError> for Error {
    /// What comes out depends on the JavaScript value made for the error.
    open spec fn obeys_from_spec() -> bool {
        false
    }

    open spec fn from_spec(e: WasmBindgenError) -> Error {
        vstd::pervasive::arbitrary()
    }
}

/// Calls `<serde_json::Error as Display>::fmt`: the description of the failed
/// (de)serialization.
#[verifier::external_body]
fn json_error_text(e: &JsonError) -> String {
    e.to_string()
}

impl From<JsonError> for Error {
    fn from(e: JsonError) -> (r: Error)
        ensures
            r is SerdeJsonError,
    {
        Error::SerdeJsonError(json_error_text(&e))
    }
}

impl vstd::std_specs::convert::FromSpecImpl<JsonError> for Error {
    /// The message is the rendering of the error, which is not described here.
    open spec fn obeys_from_spec() -> bool {
        false
    }

    open spec fn from_spec(e: JsonError) -> Error {
        vstd::pervasive::arbitrary()
    }
}

/// Calls `<matchit::InsertError as Display>::fmt`: the description of the
/// rejected route.
#[verifier::external_body]
fn insert_error_text(e: &matchit::InsertError) -> String {
    e.to_string()
}

impl From<matchit::InsertError> for Error {
    fn from(e: matchit::InsertError) -> (r: Error)
        ensures
            r is RouteInsertError,
    {
        Error::RouteInsertError(insert_error_text(&e))
    }
}

impl vstd::std_specs::convert::FromSpecImpl<matchit::InsertError> for Error {
    /// The message is the rendering of the error, which is not described here.
    open spec fn obeys_from_spec() -> bool {
        false
    }

    open spec fn from_spec(e: matchit::InsertError) -> Error {
        vstd::pervasive::arbitrary()
    }
}

/// What a JavaScript `Error` object's parts decode to: a known code gives the
/// coded error carrying that same code and the message read; any other code, or
/// none, gives an `UnknownJsError` keeping the object and every part as read.
pub proof fn lemma_parts_decide_variant(
    original: JsValue,
    name: Option<String>,
    message: String,
    code: Option<String>,
    cause: Option<Error>,
)
    ensures
        code is Some && is_known_code(code->0@) ==> ({
            let d = js_parts_error(original, name, message, code, cause);
            code_of(d) == Some(code->0@) && coded_message(d) == message@
        }),
        !(code is Some && is_known_code(code->0@)) ==> (js_parts_error(
            original,
            name,
            message,
            code,
            cause,
        ) matches Error::UnknownJsError { original: o, name: n, message: m, code: c, .. } && o
            == original && n == name && m == message && c == code),
{
}

/// A coded error sent to JavaScript comes back as itself: an `Error` object
/// carrying its message and code (as `js_form` hands them over) decodes to the
/// same variant, with the same message text, whatever its name and cause.
pub proof fn lemma_decode_coded_round_trip(
    e: Error,
    original: JsValue,
    name: Option<String>,
    message: String,
    code: String,
    cause: Option<Error>,
)
    requires
        code_of(e) == Some(code@),
        message@ == coded_message(e),
    ensures
        ({
            let d = js_parts_error(original, name, message, Some(code), cause);
            code_of(d) == code_of(e) && coded_message(d) == coded_message(e)
        }),
{
    lemma_code_round_trip(e);
}

/// A coded error sent to JavaScript and read back is the same error: its code
/// selects its variant again, with the same message.
pub proof fn lemma_code_round_trip(e: Error)
    requires
        code_of(e) is Some,
    ensures
        is_known_code(code_of(e)->0),
        is_coded(code_of(e)->0, coded_message(e), e),
{
    reveal_strlit("E_RECIPIENT_SUPPRESSED");
    reveal_strlit("RCPT_NOT_ALLOWED");
    reveal_strlit("E_RATE_LIMIT_EXCEEDED");
    reveal_strlit("E_DAILY_LIMIT_EXCEEDED");
    reveal_strlit("E_INTERNAL_SERVER_ERROR");
    let a = "E_RECIPIENT_SUPPRESSED"@;
    let b = "RCPT_NOT_ALLOWED"@;
    let c = "E_RATE_LIMIT_EXCEEDED"@;
    let d = "E_DAILY_LIMIT_EXCEEDED"@;
    let f = "E_INTERNAL_SERVER_ERROR"@;
    assert(a.len() == 22 && b.len() == 16 && c.len() == 21 && d.len() == 22 && f.len() == 23);
    assert(a[2] != d[2]);
    assert(a != d && d != a);
}

/// An error without a source renders the same with or without its cause chain.
pub proof fn lemma_chain_of_leaf(e: Error)
    requires
        e.chain_texts().len() == 1,
    ensures
        join(e.chain_texts(), chain_separator()) == e.display(),
{
}

/// Renders the error followed by each of its sources, each on an indented line
/// under a `Caused by:` header.
pub fn format_with_chain(e: &Error) -> (s: String)
    ensures
        e.chain_known() ==> s@ == join(e.chain_texts(), chain_separator()),
        exists|texts: Seq<Seq<char>>|
            {
                &&& texts.len() == e.chain_texts().len()
                &&& forall|i: int|
                    0 <= i < texts.len() ==> starts_with(#[trigger] texts[i], e.chain_texts()[i])
                &&& s@ == join(texts, chain_separator())
            },
{
    let chain = e.chain();
    let s = join_strings(&chain, "\nCaused by:\n    ");
    proof {
        let texts = views(chain@);
        assert(forall|i: int| 0 <= i < texts.len() ==> #[trigger] texts[i] == chain@[i]@);
        assert(s@ == join(texts, chain_separator()));
    }
    s
}

} // verus!
