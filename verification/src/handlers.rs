//! The handlers: the pure mapping from request to store operation to
//! response.
//!
//! Every handler resolves the shared state, performs exactly one store
//! operation, and maps its three-way outcome — success, benign absence,
//! engine failure — to exactly one of 200, 404 or 500 with the
//! corresponding body. No handler retries, and no engine failure
//! propagates past a handler.
//!
//! Each handler is split in two: the store call, whose outcome only the
//! engine decides, and a decision function that takes that outcome as
//! an argument and is pinned down exactly for every value of it.

use vstd::prelude::*;
use crate::response::{
    ApiResponse, Payload, err_500, err_method_not_allowed, err_not_found, healthy_json,
    index_json, index_json_string, is_internal_error, is_not_found, is_result_true, ok_binary,
    ok_json,
};
use crate::router::{Method, RouteSpec, RouteTarget, route, route_spec};
use crate::state::ServerState;
use crate::store::StoreError;

verus! {

/// The status a read of `k` earns when the engine does not fail.
pub open spec fn spec_get_status(m: Map<Seq<char>, Seq<u8>>, k: Seq<char>) -> int {
    if m.contains_key(k) {
        200
    } else {
        404
    }
}

/// The status a delete of `k` earns when the engine does not fail.
pub open spec fn spec_delete_status(m: Map<Seq<char>, Seq<u8>>, k: Seq<char>) -> int {
    if m.contains_key(k) {
        200
    } else {
        404
    }
}

/// What a read of `k` against contents `m` may answer: 500 only as the
/// canonical internal error; otherwise the status the contents dictate,
/// a hit carrying exactly the stored bytes and a miss the canonical
/// not-found envelope.
pub open spec fn get_outcome(m: Map<Seq<char>, Seq<u8>>, k: Seq<char>, r: ApiResponse) -> bool {
    &&& (r.status == 500 ==> is_internal_error(r))
    &&& (r.status != 500 ==> r.status == spec_get_status(m, k))
    &&& (r.status == 200 ==> m.contains_key(k) && (r.body matches Payload::Octets(b) && b@ == m[k]))
    &&& (r.status == 404 ==> !m.contains_key(k) && is_not_found(r))
}

/// What a write of `v` under `k` may answer: on success the contents
/// gain exactly that record and the mutation envelope comes back; 500
/// only as the canonical internal error.
pub open spec fn put_outcome(
    m_old: Map<Seq<char>, Seq<u8>>,
    m_new: Map<Seq<char>, Seq<u8>>,
    k: Seq<char>,
    v: Seq<u8>,
    r: ApiResponse,
) -> bool {
    &&& (r.status == 500 ==> is_internal_error(r))
    &&& (r.status != 500 ==> r.status == 200)
    &&& (r.status == 200 ==> is_result_true(r) && m_new == m_old.insert(k, v))
}

/// What a delete of `k` may answer: removal of an existing record earns
/// the mutation envelope, absence the canonical not-found with the
/// contents untouched; 500 only as the canonical internal error.
pub open spec fn delete_outcome(
    m_old: Map<Seq<char>, Seq<u8>>,
    m_new: Map<Seq<char>, Seq<u8>>,
    k: Seq<char>,
    r: ApiResponse,
) -> bool {
    &&& (r.status == 500 ==> is_internal_error(r))
    &&& (r.status != 500 ==> r.status == spec_delete_status(m_old, k))
    &&& (r.status == 200 ==> m_old.contains_key(k) && is_result_true(r) && m_new == m_old.remove(
        k,
    ))
    &&& (r.status == 404 ==> !m_old.contains_key(k) && is_not_found(r) && m_new == m_old)
}

/// Turns the outcome of a read into its response; exact for every
/// outcome value.
pub fn get_response(res: Result<Option<Vec<u8>>, StoreError>) -> (r: ApiResponse)
    ensures
        (res matches Ok(Some(v)) ==> r.status == 200 && (r.body matches Payload::Octets(b)
            && b@ == v@)),
        (res matches Ok(None) ==> is_not_found(r)),
        (res is Err ==> is_internal_error(r)),
{
    match res {
        Ok(Some(val)) => ok_binary(val),
        Ok(None) => err_not_found(),
        Err(_) => err_500(),
    }
}

/// Turns the outcome of a write into its response; exact for every
/// outcome value.
pub fn put_response(res: Result<(), StoreError>) -> (r: ApiResponse)
    ensures
        res is Ok <==> is_result_true(r),
        res is Err <==> is_internal_error(r),
{
    match res {
        Ok(()) => ok_json(String::from_str("{\"result\":true}")),
        Err(_) => err_500(),
    }
}

/// Turns the outcome of a delete into its response; exact for every
/// outcome value.
pub fn delete_response(res: Result<bool, StoreError>) -> (r: ApiResponse)
    ensures
        (res matches Ok(existed) && existed ==> is_result_true(r)),
        (res matches Ok(existed) && !existed ==> is_not_found(r)),
        (res is Err ==> is_internal_error(r)),
{
    match res {
        Ok(true) => ok_json(String::from_str("{\"result\":true}")),
        Ok(false) => err_not_found(),
        Err(_) => err_500(),
    }
}

/// Turns the outcome of the liveness probe into its response; exact
/// for every outcome value. The probed number is not interpreted.
pub fn health_response(probe: Result<u64, StoreError>) -> (r: ApiResponse)
    ensures
        (probe is Ok ==> r.status == 200 && (r.body matches Payload::Json(s)
            && s@ == healthy_json())),
        (probe is Err ==> is_internal_error(r)),
{
    match probe {
        Ok(_size) => ok_json(String::from_str("{\"healthy\":true}")),
        Err(_) => err_500(),
    }
}

/// GET `/`: describes the service — its name, version, and the
/// nickname of the active store — regardless of store contents.
pub fn handle_index(state: &ServerState) -> (r: ApiResponse)
    ensures
        r.status == 200,
        (r.body matches Payload::Json(s) && s@ == index_json(state.name@)),
{
    ok_json(index_json_string(state.name.as_str()))
}

/// GET `/health`: probes the store; 200 with the healthy body when the
/// engine answers, 500 when it fails.
pub fn handle_health(state: &ServerState) -> (r: ApiResponse)
    ensures
        ((r.status == 200 && (r.body matches Payload::Json(s) && s@ == healthy_json()))
            || is_internal_error(r)),
{
    health_response(state.store.health())
}

/// GET `/api/{key}`: reads the record; 200 with the raw bytes on a
/// hit, 404 on a miss, 500 on an engine failure.
pub fn handle_get(state: &ServerState, key: &str) -> (r: ApiResponse)
    ensures
        get_outcome(state.store@, key@, r),
{
    get_response(state.store.get(key))
}

/// PUT `/api/{key}`: writes the request body under the key, replacing
/// any prior record; 200 on success, 500 on an engine failure.
pub fn handle_put(state: &mut ServerState, key: &str, value: &Vec<u8>) -> (r: ApiResponse)
    ensures
        final(state).name@ == old(state).name@,
        put_outcome(old(state).store@, final(state).store@, key@, value@, r),
{
    put_response(state.store.put(key, value))
}

/// DELETE `/api/{key}`: removes the record; 200 when one existed, 404
/// when none did, 500 on an engine failure.
pub fn handle_delete(state: &mut ServerState, key: &str) -> (r: ApiResponse)
    ensures
        final(state).name@ == old(state).name@,
        delete_outcome(old(state).store@, final(state).store@, key@, r),
{
    let res = state.store.delete(key);
    proof {
        if !old(state).store@.contains_key(key@) {
            assert(old(state).store@.remove(key@) =~= old(state).store@);
        }
    }
    delete_response(res)
}

/// Dispatches one request: routes it, performs at most one store
/// operation, and answers with the response the routing table and the
/// store contents dictate.
pub fn handle_request(state: &mut ServerState, m: Method, path: &str, body: &Vec<u8>) -> (r:
    ApiResponse)
    ensures
        final(state).name@ == old(state).name@,
        (match route_spec(m, path@) {
            RouteSpec::Index => r.status == 200
                && (r.body matches Payload::Json(s) && s@ == index_json(old(state).name@))
                && final(state).store@ == old(state).store@,
            RouteSpec::Health => ((r.status == 200
                && (r.body matches Payload::Json(s) && s@ == healthy_json()))
                || is_internal_error(r))
                && final(state).store@ == old(state).store@,
            RouteSpec::ApiGet(k) => get_outcome(old(state).store@, k, r)
                && final(state).store@ == old(state).store@,
            RouteSpec::ApiPut(k) => put_outcome(old(state).store@, final(state).store@, k, body@, r),
            RouteSpec::ApiDelete(k) => delete_outcome(old(state).store@, final(state).store@, k, r),
            RouteSpec::NotFound => is_not_found(r) && final(state).store@ == old(state).store@,
            RouteSpec::MethodNotAllowed => r.status == 405 && r.body is Empty
                && final(state).store@ == old(state).store@,
        }),
{
    match route(m, path) {
        RouteTarget::Index => handle_index(&*state),
        RouteTarget::Health => handle_health(&*state),
        RouteTarget::ApiGet(key) => handle_get(&*state, key.as_str()),
        RouteTarget::ApiPut(key) => handle_put(state, key.as_str(), body),
        RouteTarget::ApiDelete(key) => handle_delete(state, key.as_str()),
        RouteTarget::NotFound => err_not_found(),
        RouteTarget::MethodNotAllowed => err_method_not_allowed(),
    }
}

} // verus!
