//! The few calls into the JavaScript bindings that error conversion needs.
//!
//! Values on the JavaScript side are handles: what a call on one returns depends
//! on the object behind the handle, which lives in the runtime's heap, so these
//! items promise nothing of their results beyond their types.

use vstd::prelude::*;
use wasm_bindgen::JsCast;
use wasm_bindgen::JsValue;

verus! {

#[verifier::external_type_specification]
#[verifier::external_body]
pub struct ExJsValue(wasm_bindgen::JsValue);

/// Calls `JsValue::clone`, which hands out another handle to the same object.
#[verifier::external_body]
pub(crate) fn value_clone(v: &JsValue) -> JsValue {
    v.clone()
}

/// Calls `<JsValue as Debug>::fmt`; the text comes from the JavaScript runtime.
#[verifier::external_body]
pub(crate) fn value_debug(v: &JsValue) -> String {
    format!("{v:?}")
}

/// Calls `JsValue::is_instance_of::<js_sys::Error>`.
#[verifier::external_body]
pub(crate) fn value_is_error(v: &JsValue) -> bool {
    v.is_instance_of::<js_sys::Error>()
}

/// Calls `JsValue::as_string`: the text when the value is a string.
#[verifier::external_body]
pub(crate) fn value_as_string(v: &JsValue) -> Option<String> {
    v.as_string()
}

/// Calls `JsValue::is_null_or_undefined`.
#[verifier::external_body]
pub(crate) fn value_is_null_or_undefined(v: &JsValue) -> bool {
    v.is_null_or_undefined()
}

/// Calls `JsValue::from_str`: a new JavaScript string.
#[verifier::external_body]
pub(crate) fn value_from_str(s: &str) -> JsValue {
    JsValue::from_str(s)
}

/// Calls `js_sys::Reflect::get` for the property `key` of `v`: the property's
/// value (`undefined` when it is missing), or the error thrown when the lookup
/// throws, as it does when `v` is not an object.
#[verifier::external_body]
pub(crate) fn property(v: &JsValue, key: &str) -> Result<JsValue, JsValue> {
    js_sys::Reflect::get(v, &JsValue::from_str(key))
}

/// Calls `js_sys::Error::new` with the message.
#[verifier::external_body]
pub(crate) fn error_new(message: &str) -> JsValue {
    js_sys::Error::new(message).into()
}

/// Calls `js_sys::Reflect::set` to store `code` as the `code` property of an
/// error object; the outcome of the call is dropped, as error objects accept it.
#[verifier::external_body]
pub(crate) fn error_set_code(e: &JsValue, code: &str) {
    let _ = js_sys::Reflect::set(e, &"code".into(), &JsValue::from_str(code));
}

/// Calls `JsValue::undefined`.
#[verifier::external_body]
pub(crate) fn value_undefined() -> JsValue {
    JsValue::undefined()
}

/// The property `key` of `v` when it holds a string; a lookup that throws, or a
/// value that is no string, gives `None`.
pub(crate) fn string_property(v: &JsValue, key: &str) -> Option<String> {
    match property(v, key) {
        Ok(p) => value_as_string(&p),
        Err(_) => None,
    }
}

} // verus!
