//! The response builders and the uniform error envelope, down to the
//! exact bodies.

use kvapp::response::{
    err_500, err_method_not_allowed, err_not_found, index_json_string, ok_binary, ok_json,
    Payload,
};

fn json_of(p: &Payload) -> String {
    match p {
        Payload::Json(s) => s.clone(),
        _ => panic!("expected a JSON body"),
    }
}

#[test]
fn not_found_envelope_is_canonical() {
    let r = err_not_found();
    assert_eq!(r.status, 404);
    assert_eq!(json_of(&r.body), "{\"error\":{\"code\":-404,\"message\":\"not found\"}}");
}

#[test]
fn internal_error_envelope_is_canonical() {
    let r = err_500();
    assert_eq!(r.status, 500);
    assert_eq!(
        json_of(&r.body),
        "{\"error\":{\"code\":-500,\"message\":\"internal server error\"}}"
    );
}

#[test]
fn ok_binary_carries_the_bytes_untouched() {
    let r = ok_binary(vec![1, 2, 3]);
    assert_eq!(r.status, 200);
    match &r.body {
        Payload::Octets(b) => assert_eq!(b, &vec![1, 2, 3]),
        _ => panic!("expected a binary body"),
    }
}

#[test]
fn ok_json_carries_the_text_untouched() {
    let r = ok_json("{\"result\":true}".to_string());
    assert_eq!(r.status, 200);
    assert_eq!(json_of(&r.body), "{\"result\":true}");
}

#[test]
fn method_not_allowed_has_no_body() {
    let r = err_method_not_allowed();
    assert_eq!(r.status, 405);
    assert!(matches!(r.body, Payload::Empty));
}

#[test]
fn index_body_embeds_the_nickname() {
    let s = index_json_string("db");
    assert_eq!(
        s,
        "{\"name\":\"kvapp\",\"version\":\"0.1.0\",\"database_info\":{\"name\":\"db\"}}"
    );
    let s = index_json_string("");
    assert_eq!(s, "{\"name\":\"kvapp\",\"version\":\"0.1.0\",\"database_info\":{\"name\":\"\"}}");
}
