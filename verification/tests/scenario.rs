//! End-to-end scenarios through the request dispatcher, against real,
//! initially empty stores.

use kvapp::handlers::handle_request;
use kvapp::response::{ApiResponse, Payload};
use kvapp::router::Method;
use kvapp::state::ServerState;
use kvapp::store::StoreHandle;

fn new_state(name: &str) -> ServerState {
    let store = StoreHandle::open_temporary().expect("store should open");
    ServerState::new(name.to_string(), store)
}

fn json_body(r: &ApiResponse) -> String {
    match &r.body {
        Payload::Json(s) => s.clone(),
        _ => panic!("expected a JSON body"),
    }
}

fn octet_body(r: &ApiResponse) -> Vec<u8> {
    match &r.body {
        Payload::Octets(b) => b.clone(),
        _ => panic!("expected a binary body"),
    }
}

#[test]
fn test_kvapp_integration() {
    let mut state = new_state("db");
    let empty: Vec<u8> = Vec::new();

    // Index: describes the service, name present.
    let r = handle_request(&mut state, Method::Get, "/", &empty);
    assert_eq!(r.status, 200);
    assert!(json_body(&r).contains("\"name\":\"kvapp\""));

    // Health check.
    let r = handle_request(&mut state, Method::Get, "/health", &empty);
    assert_eq!(r.status, 200);
    assert_eq!(json_body(&r), "{\"healthy\":true}");

    // A record with key 1 does not exist.
    let r = handle_request(&mut state, Method::Get, "/api/1", &empty);
    assert_eq!(r.status, 404);

    // DELETE of a non-existent record returns not-found.
    let r = handle_request(&mut state, Method::Delete, "/api/1", &empty);
    assert_eq!(r.status, 404);

    // PUT a new record.
    let body = "helloworld".as_bytes().to_vec();
    let r = handle_request(&mut state, Method::Put, "/api/1", &body);
    assert_eq!(r.status, 200);
    assert_eq!(json_body(&r), "{\"result\":true}");

    // The record exists with the correct contents.
    let r = handle_request(&mut state, Method::Get, "/api/1", &empty);
    assert_eq!(r.status, 200);
    assert_eq!(octet_body(&r), "helloworld".as_bytes().to_vec());

    // DELETE the record.
    let r = handle_request(&mut state, Method::Delete, "/api/1", &empty);
    assert_eq!(r.status, 200);
    assert_eq!(json_body(&r), "{\"result\":true}");

    // The record is gone again.
    let r = handle_request(&mut state, Method::Get, "/api/1", &empty);
    assert_eq!(r.status, 404);

    // DELETE of the gone record returns not-found again.
    let r = handle_request(&mut state, Method::Delete, "/api/1", &empty);
    assert_eq!(r.status, 404);
}

#[test]
fn absent_key_get_and_delete_are_not_found() {
    let mut state = new_state("db");
    let empty: Vec<u8> = Vec::new();

    let r = handle_request(&mut state, Method::Get, "/api/never-written", &empty);
    assert_eq!(r.status, 404);
    assert_eq!(
        json_body(&r),
        "{\"error\":{\"code\":-404,\"message\":\"not found\"}}"
    );

    let r = handle_request(&mut state, Method::Delete, "/api/never-written", &empty);
    assert_eq!(r.status, 404);
    assert_eq!(
        json_body(&r),
        "{\"error\":{\"code\":-404,\"message\":\"not found\"}}"
    );
}

#[test]
fn put_then_get_round_trips_binary_exact() {
    let mut state = new_state("db");
    let empty: Vec<u8> = Vec::new();

    // Arbitrary bytes, not valid UTF-8, with embedded control bytes.
    let payload: Vec<u8> = vec![0, 255, 10, 13, 34, 92, 128, 7];
    let r = handle_request(&mut state, Method::Put, "/api/blob", &payload);
    assert_eq!(r.status, 200);

    let r = handle_request(&mut state, Method::Get, "/api/blob", &empty);
    assert_eq!(r.status, 200);
    assert_eq!(octet_body(&r), payload);
}

#[test]
fn delete_is_idempotent_in_its_answer() {
    let mut state = new_state("db");
    let empty: Vec<u8> = Vec::new();

    let body = "v".as_bytes().to_vec();
    let r = handle_request(&mut state, Method::Put, "/api/k", &body);
    assert_eq!(r.status, 200);

    let r = handle_request(&mut state, Method::Delete, "/api/k", &empty);
    assert_eq!(r.status, 200);

    let r = handle_request(&mut state, Method::Delete, "/api/k", &empty);
    assert_eq!(r.status, 404);
}

#[test]
fn overwrite_leaves_no_trace_of_the_first_value() {
    let mut state = new_state("db");
    let empty: Vec<u8> = Vec::new();

    let v1 = "first".as_bytes().to_vec();
    let v2 = "second".as_bytes().to_vec();
    let r = handle_request(&mut state, Method::Put, "/api/k", &v1);
    assert_eq!(r.status, 200);
    let r = handle_request(&mut state, Method::Put, "/api/k", &v2);
    assert_eq!(r.status, 200);

    let r = handle_request(&mut state, Method::Get, "/api/k", &empty);
    assert_eq!(r.status, 200);
    assert_eq!(octet_body(&r), v2);
}

#[test]
fn health_reports_healthy_while_store_is_reachable() {
    let mut state = new_state("db");
    let empty: Vec<u8> = Vec::new();

    let r = handle_request(&mut state, Method::Get, "/health", &empty);
    assert_eq!(r.status, 200);
    assert_eq!(json_body(&r), "{\"healthy\":true}");
}

#[test]
fn index_carries_the_configured_nickname() {
    let mut state = new_state("shop-records");
    let empty: Vec<u8> = Vec::new();

    let r = handle_request(&mut state, Method::Get, "/", &empty);
    assert_eq!(r.status, 200);
    let body = json_body(&r);
    assert_eq!(
        body,
        "{\"name\":\"kvapp\",\"version\":\"0.1.0\",\"database_info\":{\"name\":\"shop-records\"}}"
    );
    assert!(body.contains("shop-records"));

    // The description does not depend on store contents.
    let payload = "x".as_bytes().to_vec();
    handle_request(&mut state, Method::Put, "/api/something", &payload);
    let r = handle_request(&mut state, Method::Get, "/", &empty);
    assert_eq!(r.status, 200);
    assert_eq!(json_body(&r), body);
}

#[test]
fn unmatched_routes_answer_uniformly() {
    let mut state = new_state("db");
    let empty: Vec<u8> = Vec::new();

    let r = handle_request(&mut state, Method::Get, "/nowhere", &empty);
    assert_eq!(r.status, 404);
    assert_eq!(
        json_body(&r),
        "{\"error\":{\"code\":-404,\"message\":\"not found\"}}"
    );

    let r = handle_request(&mut state, Method::Put, "/nowhere", &empty);
    assert_eq!(r.status, 405);
    assert!(matches!(r.body, Payload::Empty));

    let r = handle_request(&mut state, Method::Other, "/api/k", &empty);
    assert_eq!(r.status, 405);
    assert!(matches!(r.body, Payload::Empty));
}

#[test]
fn store_handle_operations_observe_the_engine() {
    let mut store = StoreHandle::open_temporary().expect("store should open");

    assert_eq!(store.get("alpha").expect("get should reach the engine"), None);

    let value: Vec<u8> = vec![1, 2, 3];
    store.put("alpha", &value).expect("put should reach the engine");
    assert_eq!(
        store.get("alpha").expect("get should reach the engine"),
        Some(vec![1, 2, 3])
    );

    assert_eq!(store.delete("alpha").expect("delete should reach the engine"), true);
    assert_eq!(store.delete("alpha").expect("delete should reach the engine"), false);
    assert_eq!(store.get("alpha").expect("get should reach the engine"), None);

    store.health().expect("health probe should succeed on an open store");
}
