//! The routing table, case by case: exact matches, key extraction, and
//! the two mismatch answers.

use kvapp::router::{route, Method, RouteTarget};

#[test]
fn root_with_get_is_index() {
    assert!(matches!(route(Method::Get, "/"), RouteTarget::Index));
}

#[test]
fn root_with_other_methods_is_not_allowed() {
    assert!(matches!(route(Method::Put, "/"), RouteTarget::MethodNotAllowed));
    assert!(matches!(route(Method::Delete, "/"), RouteTarget::MethodNotAllowed));
    assert!(matches!(route(Method::Other, "/"), RouteTarget::MethodNotAllowed));
}

#[test]
fn health_with_get_is_health() {
    assert!(matches!(route(Method::Get, "/health"), RouteTarget::Health));
}

#[test]
fn health_with_other_methods_is_not_allowed() {
    assert!(matches!(route(Method::Put, "/health"), RouteTarget::MethodNotAllowed));
    assert!(matches!(route(Method::Other, "/health"), RouteTarget::MethodNotAllowed));
}

#[test]
fn api_paths_extract_the_key() {
    match route(Method::Get, "/api/abc") {
        RouteTarget::ApiGet(k) => assert_eq!(k, "abc"),
        _ => panic!("expected the read handler"),
    }
    match route(Method::Put, "/api/1") {
        RouteTarget::ApiPut(k) => assert_eq!(k, "1"),
        _ => panic!("expected the write handler"),
    }
    match route(Method::Delete, "/api/some-key") {
        RouteTarget::ApiDelete(k) => assert_eq!(k, "some-key"),
        _ => panic!("expected the delete handler"),
    }
}

#[test]
fn api_path_with_unrouted_method_is_not_allowed() {
    assert!(matches!(route(Method::Other, "/api/abc"), RouteTarget::MethodNotAllowed));
}

#[test]
fn api_key_is_a_single_nonempty_segment() {
    // An empty key does not address a record.
    assert!(matches!(route(Method::Get, "/api/"), RouteTarget::NotFound));
    // Nor does a key spanning further segments.
    assert!(matches!(route(Method::Get, "/api/a/b"), RouteTarget::NotFound));
    assert!(matches!(route(Method::Put, "/api/a/b"), RouteTarget::MethodNotAllowed));
}

#[test]
fn unmatched_get_is_not_found_and_others_are_not_allowed() {
    assert!(matches!(route(Method::Get, "/nowhere"), RouteTarget::NotFound));
    assert!(matches!(route(Method::Get, ""), RouteTarget::NotFound));
    assert!(matches!(route(Method::Get, "/api"), RouteTarget::NotFound));
    assert!(matches!(route(Method::Delete, "/nowhere"), RouteTarget::MethodNotAllowed));
    assert!(matches!(route(Method::Other, "/nowhere"), RouteTarget::MethodNotAllowed));
}
