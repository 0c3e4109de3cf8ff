//! Errors of the D1 database binding: telling them apart from other JavaScript
//! errors, and reading their cause.

use vstd::prelude::*;
use wasm_bindgen::JsValue;

use crate::cf::opt_str_view;
use crate::error::Error;
use crate::js;

verus! {

/// An error thrown by a D1 database: a JavaScript `Error` whose message starts
/// with `D1`.
#[derive(Debug)]
pub struct D1Error {
    inner: JsValue,
}

/// Whether an error message is one that D1 throws: it starts with `D1`.
pub open spec fn is_d1_text(message: Seq<char>) -> bool {
    message.len() >= 2 && message[0] == 'D' && message[1] == '1'
}

/// The text reported as the cause of a D1 error: the message of its cause when
/// that cause is a JavaScript `Error`, else `unknown error`.
pub open spec fn cause_text_of(cause_message: Option<Seq<char>>) -> Seq<char> {
    match cause_message {
        Some(m) => m,
        None => "unknown error"@,
    }
}

/// Whether `message` is the message of an error thrown by D1.
pub fn is_d1_message(message: &str) -> (b: bool)
    ensures
        b == is_d1_text(message@),
{
    message.unicode_len() >= 2 && message.get_char(0) == 'D' && message.get_char(1) == '1'
}

/// The cause text for the message read from the cause, if the cause was an error.
pub fn cause_text(cause_message: Option<String>) -> (s: String)
    ensures
        s@ == cause_text_of(opt_str_view(cause_message)),
{
    match cause_message {
        Some(m) => m,
        None => "unknown error".to_owned(),
    }
}

impl D1Error {
    pub closed spec fn js_error(&self) -> JsValue {
        self.inner
    }

    /// The JavaScript error object.
    pub fn as_js_value(&self) -> (v: &JsValue)
        ensures
            *v == self.js_error(),
    {
        &self.inner
    }

    /// Gets the cause of the error specific to D1: the message of the cause when
    /// it is an `Error` object, else `unknown error`.
    pub fn cause(&self) -> (s: String)
        ensures
            exists|m: Option<Seq<char>>| s@ == cause_text_of(m),
    {
        let message = match js::property(&self.inner, "cause") {
            Ok(cause) => {
                if js::value_is_error(&cause) {
                    js::string_property(&cause, "message")
                } else {
                    None
                }
            },
            Err(_) => None,
        };
        let ghost read = opt_str_view(message);
        let s = cause_text(message);
        assert(s@ == cause_text_of(read));
        s
    }

    /// The pretty debug rendering of the error: its cause as the runtime shows
    /// it, with every line after the first indented by four spaces.
    pub fn debug_text(&self) -> (s: String)
        ensures
            exists|shown: Seq<char>| s@ == debug_prefix() + indented(shown) + debug_suffix(),
    {
        let mut s = "D1Error {\n    cause: ".to_owned();
        let cause = match js::property(&self.inner, "cause") {
            Ok(c) => c,
            Err(_) => js::value_undefined(),
        };
        let shown = js::value_debug(&cause);
        let inner = indent_continuations(shown.as_str());
        s.append(inner.as_str());
        s.append(",\n}");
        assert(s@ == debug_prefix() + indented(shown@) + debug_suffix());
        s
    }
}

/// `s` with four spaces after each line break, as a nested value is laid out in
/// a pretty debug rendering.
pub open spec fn indented(s: Seq<char>) -> Seq<char>
    decreases s.len(),
{
    if s.len() == 0 {
        Seq::empty()
    } else if s.last() == '\n' {
        indented(s.drop_last()) + "\n    "@
    } else {
        indented(s.drop_last()).push(s.last())
    }
}

/// Indents every line of `s` after the first by four spaces.
pub fn indent_continuations(s: &str) -> (r: String)
    ensures
        r@ == indented(s@),
{
    let mut r = String::new();
    let n = s.unicode_len();
    let mut i: usize = 0;
    while i < n
        invariant
            n == s@.len(),
            i <= n,
            r@ == indented(s@.take(i as int)),
        decreases n - i,
    {
        let c = s.get_char(i);
        proof {
            assert(s@.take(i + 1).drop_last() =~= s@.take(i as int));
            assert(s@.take(i + 1).last() == c);
        }
        if c == '\n' {
            r.append("\n    ");
        } else {
            let one = s.substring_char(i, i + 1);
            r.append(one);
            assert(one@ =~= seq![c]);
            assert(indented(s@.take(i as int)) + seq![c] =~= indented(s@.take(i as int)).push(c));
        }
        i = i + 1;
    }
    assert(s@.take(n as int) =~= s@);
    r
}

/// What the pretty debug rendering of a D1 error starts with.
pub open spec fn debug_prefix() -> Seq<char> {
    "D1Error {\n    cause: "@
}

/// What the pretty debug rendering of a D1 error ends with.
pub open spec fn debug_suffix() -> Seq<char> {
    ",\n}"@
}

/// Whether what was read of a thrown value marks it as a D1 error: it is an
/// `Error` object whose `message` is a string starting with `D1`.
pub open spec fn reads_as_d1(is_error: bool, message: Option<String>) -> bool {
    is_error && (message matches Some(m) && is_d1_text(m@))
}

/// Whether `e` is what a thrown value `err` becomes, given whether it is an
/// `Error` object and its `message` when that is a string: a D1 message makes a
/// D1 error keeping the object; anything else is decoded as every JavaScript
/// value is.
pub open spec fn d1_outcome(err: JsValue, is_error: bool, message: Option<String>, e: Error) -> bool {
    if reads_as_d1(is_error, message) {
        e matches Error::D1(d) && d.js_error() == err
    } else {
        exists|b: bool, t: Option<String>| crate::error::js_value_error(err, b, t, e)
    }
}

/// The error a thrown value becomes, from what was read of it: whether it is
/// an `Error` object, and its `message` when that is a string.
pub fn d1_or_decoded(err: JsValue, is_error: bool, message: Option<String>) -> (e: Error)
    ensures
        d1_outcome(err, is_error, message, e),
        e is D1 || crate::error::cause_depth(e) <= crate::error::MAX_CAUSE_DEPTH,
        reads_as_d1(is_error, message) ==> (e matches Error::D1(d) && d.js_error() == err),
        !reads_as_d1(is_error, message) ==> (exists|b: bool, t: Option<String>|
            crate::error::js_value_error(err, b, t, e)),
{
    let d1 = match &message {
        Some(m) => is_error && is_d1_message(m.as_str()),
        None => false,
    };
    if d1 {
        Error::D1(D1Error { inner: err })
    } else {
        Error::from(err)
    }
}

/// A thrown value becomes a D1 error exactly when what was read of it marks it
/// as one (an `Error` object whose message is a string starting with `D1`), and
/// that D1 error keeps the thrown value; no other thrown value becomes a D1
/// error.
pub proof fn lemma_d1_exactly_on_d1_messages(
    err: JsValue,
    is_error: bool,
    message: Option<String>,
    e: Error,
)
    requires
        d1_outcome(err, is_error, message, e),
    ensures
        (e is D1) == (is_error && message is Some && is_d1_text(message->0@)),
        e matches Error::D1(d) ==> d.js_error() == err,
{
    if !reads_as_d1(is_error, message) {
        let (b, t) = choose|b: bool, t: Option<String>| crate::error::js_value_error(err, b, t, e);
        if b {
            let (n, m, c, k) = choose|n: Option<String>, m: String, c: Option<String>, k: Option<Error>|
                e == crate::error::js_parts_error(err, n, m, c, k);
        }
    }
}

/// Turns the outcome of a D1 call into the library's result: a value passes
/// through; an `Error` object whose message starts with `D1` becomes
/// `Error::D1`; any other thrown value is converted as every JavaScript value is.
pub fn cast_to_d1_error<T>(result: Result<T, JsValue>) -> (r: Result<T, Error>)
    ensures
        result is Ok <==> r is Ok,
        result matches Ok(v) ==> r == Ok::<T, Error>(v),
        r matches Err(e) ==> (e is D1 || crate::error::cause_depth(e) <= crate::error::MAX_CAUSE_DEPTH),
        result matches Err(thrown) ==> (r matches Err(x) && exists|b: bool, m: Option<String>|
            d1_outcome(thrown, b, m, x)),
{
    let err = match result {
        Ok(value) => return Ok(value),
        Err(err) => err,
    };
    let is_error = js::value_is_error(&err);
    let message = if is_error {
        js::string_property(&err, "message")
    } else {
        None
    };
    let ghost (b, m) = (is_error, message);
    let e = d1_or_decoded(err, is_error, message);
    assert(d1_outcome(err, b, m, e));
    Err(e)
}

/// Whether a binding whose constructor has the name `found` is a D1 database:
/// the name is `D1Database`, or `BetaDatabase` as older local runtimes call it.
pub fn check_d1_binding_type(found: &str) -> (r: Result<(), Error>)
    ensures
        r is Ok <==> (found@ == "D1Database"@ || found@ == "BetaDatabase"@),
        r matches Err(e) ==> (e matches Error::RustError(m) && m@
            == "Binding cannot be cast to the type D1Database from "@ + found@),
{
    if crate::text::str_eq(found, "BetaDatabase") {
        Ok(())
    } else {
        proof {
            reveal_strlit("Binding cannot be cast to the type D1Database from ");
            reveal_strlit("Binding cannot be cast to the type ");
            reveal_strlit("D1Database");
            reveal_strlit(" from ");
            assert("Binding cannot be cast to the type D1Database from "@ =~= "Binding cannot be cast to the type "@
                + "D1Database"@ + " from "@);
        }
        crate::bindings::check_binding_type("D1Database", found)
    }
}

} // verus!
