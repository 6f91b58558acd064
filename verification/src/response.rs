//! The response and error contract: the uniform JSON envelopes and the
//! raw-binary success shape that every handler emits.
//!
//! Exactly two canonical error instances exist, not-found (`-404`) and
//! internal error (`-500`); mutations succeed with `{"result":true}`,
//! reads with the raw value bytes, and the two description endpoints
//! with small JSON objects. Each builder pins its body down to the
//! character.

use vstd::prelude::*;

verus! {

/// What a response carries: a JSON text, raw value bytes, or nothing
/// (only the method-not-allowed response is bodiless).
pub enum Payload {
    Json(String),
    Octets(Vec<u8>),
    Empty,
}

/// One HTTP response of the service: a status code and its payload.
pub struct ApiResponse {
    pub status: u16,
    pub body: Payload,
}

/// The canonical not-found error envelope.
pub open spec fn not_found_json() -> Seq<char> {
    "{\"error\":{\"code\":-404,\"message\":\"not found\"}}"@
}

/// The canonical internal-error envelope.
pub open spec fn internal_error_json() -> Seq<char> {
    "{\"error\":{\"code\":-500,\"message\":\"internal server error\"}}"@
}

/// The success envelope of a mutation.
pub open spec fn result_true_json() -> Seq<char> {
    "{\"result\":true}"@
}

/// The body of a successful health probe.
pub open spec fn healthy_json() -> Seq<char> {
    "{\"healthy\":true}"@
}

/// The part of the service description before the store nickname.
pub open spec fn index_json_pre() -> Seq<char> {
    "{\"name\":\"kvapp\",\"version\":\"0.1.0\",\"database_info\":{\"name\":\""@
}

/// The part of the service description after the store nickname.
pub open spec fn index_json_suf() -> Seq<char> {
    "\"}}"@
}

/// The service description: name and version of the service and the
/// nickname of the active store.
pub open spec fn index_json(name: Seq<char>) -> Seq<char> {
    index_json_pre() + name + index_json_suf()
}

/// The response is the canonical 404.
pub open spec fn is_not_found(r: ApiResponse) -> bool {
    r.status == 404 && (r.body matches Payload::Json(s) && s@ == not_found_json())
}

/// The response is the canonical 500.
pub open spec fn is_internal_error(r: ApiResponse) -> bool {
    r.status == 500 && (r.body matches Payload::Json(s) && s@ == internal_error_json())
}

/// The response is the canonical mutation success.
pub open spec fn is_result_true(r: ApiResponse) -> bool {
    r.status == 200 && (r.body matches Payload::Json(s) && s@ == result_true_json())
}

/// Not found: the requested key holds no record, or no route matches
/// the path of a GET.
pub fn err_not_found() -> (r: ApiResponse)
    ensures
        is_not_found(r),
{
    ApiResponse {
        status: 404,
        body: Payload::Json(String::from_str("{\"error\":{\"code\":-404,\"message\":\"not found\"}}")),
    }
}

/// Internal server error: the engine reported a fault; no diagnostic
/// detail reaches the client.
pub fn err_500() -> (r: ApiResponse)
    ensures
        is_internal_error(r),
{
    ApiResponse {
        status: 500,
        body: Payload::Json(
            String::from_str("{\"error\":{\"code\":-500,\"message\":\"internal server error\"}}"),
        ),
    }
}

/// Success carrying raw value bytes.
pub fn ok_binary(val: Vec<u8>) -> (r: ApiResponse)
    ensures
        r.status == 200,
        (r.body matches Payload::Octets(b) && b@ == val@),
{
    ApiResponse { status: 200, body: Payload::Octets(val) }
}

/// Success carrying a JSON text.
pub fn ok_json(jval: String) -> (r: ApiResponse)
    ensures
        r.status == 200,
        (r.body matches Payload::Json(s) && s@ == jval@),
{
    ApiResponse { status: 200, body: Payload::Json(jval) }
}

/// Method not allowed: a route exists but not for this method, or a
/// non-GET request matched nothing; the response carries no body.
pub fn err_method_not_allowed() -> (r: ApiResponse)
    ensures
        r.status == 405,
        r.body is Empty,
{
    ApiResponse { status: 405, body: Payload::Empty }
}

/// Builds the service-description body around the store nickname.
pub fn index_json_string(name: &str) -> (r: String)
    ensures
        r@ == index_json(name@),
{
    let mut s = String::from_str("{\"name\":\"kvapp\",\"version\":\"0.1.0\",\"database_info\":{\"name\":\"");
    s.append(name);
    s.append("\"}}");
    proof {
        assert(s@ =~= index_json(name@));
    }
    s
}

} // verus!
