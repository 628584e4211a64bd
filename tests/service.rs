use rust_rocket_api::{
    congrats, encode_field_object, health, index, push_escaped, rocket, Endpoint, Method,
    STATUS_NOT_FOUND, STATUS_OK,
};

#[test]
fn root_returns_greeting() {
    let r = rocket().handle(Method::Get, "/");
    assert_eq!(r.status, 200);
    assert_eq!(r.body, br#"{"message":"Hello from Rust!"}"#.to_vec());
}

#[test]
fn congrats_returns_congratulation() {
    let r = rocket().handle(Method::Get, "/congrats");
    assert_eq!(r.status, 200);
    let expected =
        r#"{"message":"Wow! Well done Marion you just made your first Rust-Rocket API.👏"}"#;
    assert_eq!(r.body, expected.as_bytes().to_vec());
}

#[test]
fn health_returns_ok() {
    let r = rocket().handle(Method::Get, "/health");
    assert_eq!(r.status, 200);
    assert_eq!(r.body, br#"{"status":"ok"}"#.to_vec());
}

#[test]
fn unknown_path_is_not_found() {
    let r = rocket().handle(Method::Get, "/nonexistent");
    assert_ne!(r.status, 200);
    assert_eq!(r.status, 404);
    assert_eq!(r.content_type, None);
    assert!(r.body.is_empty());
}

#[test]
fn repeated_requests_are_byte_identical() {
    let router = rocket();
    for path in ["/", "/congrats", "/health", "/nonexistent"] {
        let first = router.handle(Method::Get, path);
        let second = router.handle(Method::Get, path);
        let third = rocket().handle(Method::Get, path);
        assert_eq!(first.status, second.status);
        assert_eq!(first.body, second.body);
        assert_eq!(first.body, third.body);
    }
}

#[test]
fn defined_routes_send_json() {
    let router = rocket();
    for path in ["/", "/congrats", "/health"] {
        let r = router.handle(Method::Get, path);
        assert_eq!(r.status, STATUS_OK);
        assert_eq!(r.content_type, Some("application/json"));
    }
}

#[test]
fn other_methods_are_not_found() {
    let router = rocket();
    for method in [
        Method::Head,
        Method::Post,
        Method::Put,
        Method::Delete,
        Method::Patch,
        Method::Options,
    ] {
        for path in ["/", "/congrats", "/health"] {
            let r = router.handle(method, path);
            assert_eq!(r.status, STATUS_NOT_FOUND);
        }
    }
}

#[test]
fn near_misses_are_not_found() {
    let router = rocket();
    for path in ["", "/health/", "/Health", "/congrat", "/congratss", "//", "health"] {
        assert_eq!(router.find(Method::Get, path), None);
        assert_eq!(router.handle(Method::Get, path).status, 404);
    }
}

#[test]
fn find_names_each_endpoint() {
    let router = rocket();
    assert_eq!(router.find(Method::Get, "/"), Some(Endpoint::Index));
    assert_eq!(router.find(Method::Get, "/congrats"), Some(Endpoint::Congrats));
    assert_eq!(router.find(Method::Get, "/health"), Some(Endpoint::Health));
}

#[test]
fn route_table_lists_three_get_routes() {
    let router = rocket();
    assert_eq!(router.len(), 3);
    let paths: Vec<&str> = (0..router.len()).map(|i| router.route(i).path).collect();
    assert_eq!(paths, vec!["/", "/congrats", "/health"]);
    for i in 0..router.len() {
        assert_eq!(router.route(i).method, Method::Get);
    }
}

#[test]
fn handlers_return_constant_records() {
    assert_eq!(index().message, "Hello from Rust!");
    assert_eq!(
        congrats().message,
        "Wow! Well done Marion you just made your first Rust-Rocket API.👏"
    );
    assert_eq!(health().status, "ok");
    assert_eq!(health().to_json(), br#"{"status":"ok"}"#.to_vec());
}

#[test]
fn field_object_escapes_quote_and_backslash() {
    let r = encode_field_object("k", "a\"b\\c");
    assert_eq!(r, br#"{"k":"a\"b\\c"}"#.to_vec());
}

#[test]
fn field_object_escapes_control_characters() {
    let r = encode_field_object("k", "\u{8}\t\n\u{c}\r\u{1}\u{1f}");
    assert_eq!(r, br#"{"k":"\b\t\n\f\r\u0001\u001f"}"#.to_vec());
}

#[test]
fn field_object_keeps_non_ascii_and_delete() {
    let r = encode_field_object("é", "👏\u{7f}");
    assert_eq!(r, "{\"é\":\"👏\u{7f}\"}".as_bytes().to_vec());
}

#[test]
fn field_object_of_empty_strings() {
    assert_eq!(encode_field_object("", ""), br#"{"":""}"#.to_vec());
}

#[test]
fn push_escaped_appends() {
    let mut out = b"x".to_vec();
    push_escaped(&mut out, b"\"\x1a");
    assert_eq!(out, br#"x\"\u001a"#.to_vec());
}
