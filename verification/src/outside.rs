//! Declarations of the types of other libraries that the library's signatures name.

use http::Error as HttpError;
use js_sys::Error as JsError;
use serde_json::Error as JsonError;
use serde_urlencoded::de::Error as UrlencodedError;
use serde_wasm_bindgen::Error as WasmBindgenError;
use vstd::prelude::*;

verus! {

#[verifier::external_type_specification]
#[verifier::external_body]
pub struct ExIoError(std::io::Error);

#[verifier::external_type_specification]
#[verifier::external_body]
pub struct ExUtf8Error(std::str::Utf8Error);

} // verus!

verus! {

#[verifier::external_type_specification]
#[verifier::external_body]
pub struct ExTz(chrono_tz::Tz);

} // verus!

verus! {

#[verifier::external_type_specification]
#[verifier::external_body]
pub struct ExUrl(url::Url);

#[verifier::external_type_specification]
#[verifier::external_body]
pub struct ExUrlParseError(url::ParseError);

} // verus!

verus! {

#[verifier::external_type_specification]
#[verifier::external_body]
pub struct ExJsonError(JsonError);

#[verifier::external_type_specification]
#[verifier::external_body]
pub struct ExHttpError(HttpError);

#[verifier::external_type_specification]
#[verifier::external_body]
pub struct ExInvalidStatusCode(http::status::InvalidStatusCode);

#[verifier::external_type_specification]
#[verifier::external_body]
pub struct ExInvalidHeaderName(http::header::InvalidHeaderName);

#[verifier::external_type_specification]
#[verifier::external_body]
pub struct ExInvalidHeaderValue(http::header::InvalidHeaderValue);

#[verifier::external_type_specification]
#[verifier::external_body]
pub struct ExTzParseError(chrono_tz::ParseError);

#[verifier::external_type_specification]
#[verifier::external_body]
pub struct ExUrlencodedError(UrlencodedError);

#[verifier::external_type_specification]
#[verifier::external_body]
pub struct ExWasmBindgenError(WasmBindgenError);

#[verifier::external_type_specification]
#[verifier::external_body]
pub struct ExJsError(JsError);

} // verus!

verus! {

#[verifier::external_type_specification]
#[verifier::external_body]
pub struct ExInsertError(matchit::InsertError);

} // verus!
